use deploy_rs::command::{
    build_activate_command, build_confirm_command, build_wait_command, ActivateCommandData,
    WaitCommandData,
};
use deploy_rs::text::u16_to_decimal;

#[test]
fn test_activation_command_builder() {
    let sudo = Some("sudo -u test".to_string());
    let profile_path = "/blah/profiles/test";
    let closure = "/nix/store/blah/etc";
    let auto_rollback = true;
    let temp_path = "/tmp";
    let confirm_timeout = 30;
    let magic_rollback = true;
    let debug_logs = true;
    let log_dir = Some("/tmp/something.txt");

    assert_eq!(
        build_activate_command(ActivateCommandData {
            sudo: &sudo,
            profile_path,
            closure,
            auto_rollback,
            temp_path,
            confirm_timeout,
            magic_rollback,
            debug_logs,
            log_dir
        }),
        "sudo -u test /nix/store/blah/etc/activate-rs --debug-logs --log-dir /tmp/something.txt --temp-path '/tmp' activate '/nix/store/blah/etc' '/blah/profiles/test' --confirm-timeout 30 --magic-rollback --auto-rollback"
            .to_string(),
    );
}

#[test]
fn test_wait_command_builder() {
    let sudo = Some("sudo -u test".to_string());
    let closure = "/nix/store/blah/etc";
    let temp_path = "/tmp";
    let debug_logs = true;
    let log_dir = Some("/tmp/something.txt");

    assert_eq!(
        build_wait_command(WaitCommandData {
            sudo: &sudo,
            closure,
            temp_path,
            debug_logs,
            log_dir
        }),
        "sudo -u test /nix/store/blah/etc/activate-rs --debug-logs --log-dir /tmp/something.txt --temp-path '/tmp' wait '/nix/store/blah/etc'"
            .to_string(),
    );
}

fn activation<'a>(sudo: &'a Option<String>, log_dir: Option<&'a str>) -> ActivateCommandData<'a> {
    ActivateCommandData {
        sudo,
        profile_path: "/nix/var/nix/profiles/system",
        closure: "/nix/store/abc-system",
        auto_rollback: false,
        temp_path: "/var/tmp",
        confirm_timeout: 7,
        magic_rollback: false,
        debug_logs: false,
        log_dir,
    }
}

#[test]
fn activation_command_with_nothing_optional() {
    let sudo = None;
    assert_eq!(
        build_activate_command(activation(&sudo, None)),
        "/nix/store/abc-system/activate-rs --temp-path '/var/tmp' activate '/nix/store/abc-system' '/nix/var/nix/profiles/system' --confirm-timeout 7"
    );
}

#[test]
fn activation_command_flags_come_one_by_one() {
    let sudo = None;
    let base = "/nix/store/abc-system/activate-rs";
    let required = " --temp-path '/var/tmp' activate '/nix/store/abc-system' '/nix/var/nix/profiles/system' --confirm-timeout 7";

    let mut data = activation(&sudo, None);
    data.debug_logs = true;
    assert_eq!(build_activate_command(data), format!("{} --debug-logs{}", base, required));

    let data = activation(&sudo, Some("/var/log/deploy"));
    assert_eq!(
        build_activate_command(data),
        format!("{} --log-dir /var/log/deploy{}", base, required)
    );

    let mut data = activation(&sudo, None);
    data.magic_rollback = true;
    assert_eq!(build_activate_command(data), format!("{}{} --magic-rollback", base, required));

    let mut data = activation(&sudo, None);
    data.auto_rollback = true;
    assert_eq!(build_activate_command(data), format!("{}{} --auto-rollback", base, required));
}

#[test]
fn activation_command_keeps_the_order_of_its_flags() {
    let sudo = None;
    let mut data = activation(&sudo, Some("/l"));
    data.debug_logs = true;
    data.magic_rollback = true;
    data.auto_rollback = true;
    let command = build_activate_command(data);
    let places: Vec<usize> = [
        "--debug-logs",
        "--log-dir /l",
        "--temp-path",
        "--confirm-timeout 7",
        "--magic-rollback",
        "--auto-rollback",
    ]
    .iter()
    .map(|flag| command.find(flag).unwrap())
    .collect();
    let mut sorted = places.clone();
    sorted.sort();
    assert_eq!(places, sorted);
}

#[test]
fn prefix_is_followed_by_one_space_and_the_bare_command() {
    let none = None;
    let sudo = Some("doas".to_string());
    let mut bare = activation(&none, Some("/l"));
    bare.magic_rollback = true;
    let mut prefixed = activation(&sudo, Some("/l"));
    prefixed.magic_rollback = true;
    assert_eq!(
        build_activate_command(prefixed),
        format!("doas {}", build_activate_command(bare))
    );

    let bare = WaitCommandData {
        sudo: &none,
        closure: "/c",
        temp_path: "/t",
        debug_logs: false,
        log_dir: None,
    };
    let prefixed = WaitCommandData {
        sudo: &sudo,
        closure: "/c",
        temp_path: "/t",
        debug_logs: false,
        log_dir: None,
    };
    assert_eq!(build_wait_command(prefixed), format!("doas {}", build_wait_command(bare)));
}

#[test]
fn wait_command_with_nothing_optional() {
    let sudo = None;
    let command = build_wait_command(WaitCommandData {
        sudo: &sudo,
        closure: "/nix/store/abc-system",
        temp_path: "/tmp",
        debug_logs: false,
        log_dir: None,
    });
    assert_eq!(command, "/nix/store/abc-system/activate-rs --temp-path '/tmp' wait '/nix/store/abc-system'");
    assert!(!command.contains("--confirm-timeout"));
    assert!(!command.contains("--magic-rollback"));
    assert!(!command.contains("--auto-rollback"));
}

#[test]
fn quotes_in_paths_are_not_escaped() {
    let sudo = None;
    let command = build_wait_command(WaitCommandData {
        sudo: &sudo,
        closure: "/it's",
        temp_path: "/t m p",
        debug_logs: false,
        log_dir: None,
    });
    assert_eq!(command, "/it's/activate-rs --temp-path '/t m p' wait '/it's'");
}

#[test]
fn a_path_may_carry_the_text_of_a_flag() {
    let sudo = None;
    let command = build_wait_command(WaitCommandData {
        sudo: &sudo,
        closure: "/x/--magic-rollback",
        temp_path: "/tmp",
        debug_logs: false,
        log_dir: None,
    });
    assert!(command.contains("--magic-rollback"));
}

#[test]
fn building_twice_gives_the_same_command() {
    let sudo = Some("sudo".to_string());
    let first = build_activate_command(activation(&sudo, Some("/log")));
    let second = build_activate_command(activation(&sudo, Some("/log")));
    assert_eq!(first.as_bytes(), second.as_bytes());
    let wait = |sudo| {
        build_wait_command(WaitCommandData {
            sudo,
            closure: "/c",
            temp_path: "/t",
            debug_logs: true,
            log_dir: Some("/log"),
        })
    };
    assert_eq!(wait(&sudo).as_bytes(), wait(&sudo).as_bytes());
}

#[test]
fn confirm_command_removes_the_lock_file() {
    assert_eq!(build_confirm_command(&None, "/tmp/deploy-lock"), "rm /tmp/deploy-lock");
    assert_eq!(
        build_confirm_command(&Some("sudo -u root".to_string()), "/tmp/deploy-lock"),
        "sudo -u root rm /tmp/deploy-lock"
    );
}

#[test]
fn confirm_timeout_is_written_in_decimal() {
    let sudo = None;
    for (seconds, text) in [(0u16, "0"), (9, "9"), (10, "10"), (30, "30"), (65535, "65535")] {
        let mut data = activation(&sudo, None);
        data.confirm_timeout = seconds;
        let command = build_activate_command(data);
        assert!(command.ends_with(&format!(" --confirm-timeout {}", text)), "{}", command);
    }
}

#[test]
fn decimal_numerals() {
    assert_eq!(u16_to_decimal(0), "0");
    assert_eq!(u16_to_decimal(7), "7");
    assert_eq!(u16_to_decimal(10), "10");
    assert_eq!(u16_to_decimal(100), "100");
    assert_eq!(u16_to_decimal(1009), "1009");
    assert_eq!(u16_to_decimal(40960), "40960");
    assert_eq!(u16_to_decimal(u16::MAX), "65535");
    for n in 0..=u16::MAX {
        assert_eq!(u16_to_decimal(n), n.to_string());
    }
}
