use deploy_rs::error::{
    activation_result, confirm_result, wait_result, ConfirmProfileError, DeployProfileError,
    RemoteExit,
};
use deploy_rs::protocol::{Action, Event, Orchestrator, ProtocolOutcome};
use std::io::{Error, ErrorKind};

fn exit(code: i32) -> Result<RemoteExit, Error> {
    Ok(RemoteExit { code: Some(code) })
}

fn killed() -> Result<RemoteExit, Error> {
    Ok(RemoteExit { code: None })
}

fn no_transport() -> Error {
    Error::new(ErrorKind::NotFound, "no remote shell")
}

/// Feeds the events to a fresh orchestrator and collects what it answers.
fn run(magic_rollback: bool, events: Vec<Event>) -> (Orchestrator, Vec<Option<Action>>) {
    let (mut state, first) = Orchestrator::start(magic_rollback);
    let mut actions = vec![Some(first)];
    for event in events {
        let (next, action) = state.step(event);
        state = next;
        actions.push(action);
    }
    (state, actions)
}

fn confirms(actions: &[Option<Action>]) -> usize {
    actions.iter().filter(|action| matches!(action, Some(Action::Confirm))).count()
}

#[test]
fn exit_code_zero_alone_is_success() {
    assert!(RemoteExit { code: Some(0) }.is_success());
    assert!(!RemoteExit { code: Some(1) }.is_success());
    assert!(!RemoteExit { code: Some(-1) }.is_success());
    assert!(!RemoteExit { code: None }.is_success());
}

#[test]
fn activation_verdicts() {
    assert!(matches!(activation_result(exit(0)), Ok(())));
    assert!(matches!(
        activation_result(exit(2)),
        Err(DeployProfileError::SSHActivateExitError(Some(2)))
    ));
    assert!(matches!(
        activation_result(killed()),
        Err(DeployProfileError::SSHActivateExitError(None))
    ));
    match activation_result(Err(no_transport())) {
        Err(DeployProfileError::SSHActivateError(e)) => assert_eq!(e.kind(), ErrorKind::NotFound),
        other => panic!("{:?}", other),
    }
}

#[test]
fn wait_verdicts() {
    assert!(matches!(wait_result(exit(0)), Ok(())));
    assert!(matches!(wait_result(exit(255)), Err(DeployProfileError::SSHWaitExitError(Some(255)))));
    assert!(matches!(wait_result(killed()), Err(DeployProfileError::SSHWaitExitError(None))));
    match wait_result(Err(no_transport())) {
        Err(DeployProfileError::SSHWaitError(e)) => assert_eq!(e.kind(), ErrorKind::NotFound),
        other => panic!("{:?}", other),
    }
}

#[test]
fn confirm_verdicts() {
    assert!(matches!(confirm_result(exit(0)), Ok(())));
    assert!(matches!(
        confirm_result(exit(1)),
        Err(ConfirmProfileError::SSHConfirmExitError(Some(1)))
    ));
    assert!(matches!(
        confirm_result(killed()),
        Err(ConfirmProfileError::SSHConfirmExitError(None))
    ));
    match confirm_result(Err(no_transport())) {
        Err(ConfirmProfileError::SSHConfirmError(e)) => assert_eq!(e.kind(), ErrorKind::NotFound),
        other => panic!("{:?}", other),
    }
}

#[test]
fn a_failed_confirmation_is_a_failed_deployment() {
    let error = DeployProfileError::from(ConfirmProfileError::SSHConfirmExitError(Some(4)));
    assert!(matches!(
        error,
        DeployProfileError::ConfirmError(ConfirmProfileError::SSHConfirmExitError(Some(4)))
    ));
}

#[test]
fn outcomes_as_results() {
    assert!(matches!(ProtocolOutcome::ActivatedSimple.into_result(), Ok(())));
    assert!(matches!(ProtocolOutcome::ActivatedAndConfirmed.into_result(), Ok(())));
    assert!(matches!(
        ProtocolOutcome::Failed(DeployProfileError::SSHWaitExitError(None)).into_result(),
        Err(DeployProfileError::SSHWaitExitError(None))
    ));
}

#[test]
fn simple_mode_runs_the_activation_and_nothing_else() {
    let (state, actions) = run(false, vec![Event::ActivationExited(exit(0))]);
    assert!(matches!(state, Orchestrator::Finished));
    assert!(matches!(actions[0], Some(Action::RunActivation)));
    assert!(matches!(actions[1], Some(Action::Finish(ProtocolOutcome::ActivatedSimple))));
    assert_eq!(actions.len(), 2);

    let (_, actions) = run(false, vec![Event::ActivationExited(exit(1))]);
    assert!(matches!(
        actions[1],
        Some(Action::Finish(ProtocolOutcome::Failed(DeployProfileError::SSHActivateExitError(
            Some(1)
        ))))
    ));

    let (_, actions) = run(false, vec![Event::ActivationExited(killed())]);
    assert!(matches!(
        actions[1],
        Some(Action::Finish(ProtocolOutcome::Failed(DeployProfileError::SSHActivateExitError(
            None
        ))))
    ));

    let (_, actions) = run(false, vec![Event::ActivationExited(Err(no_transport()))]);
    assert!(matches!(
        actions[1],
        Some(Action::Finish(ProtocolOutcome::Failed(DeployProfileError::SSHActivateError(_))))
    ));
}

#[test]
fn a_spawn_that_fails_ends_the_deployment() {
    let (state, actions) = run(true, vec![Event::Spawned(Err(no_transport()))]);
    assert!(matches!(state, Orchestrator::Finished));
    assert!(matches!(actions[0], Some(Action::SpawnActivation)));
    match &actions[1] {
        Some(Action::Finish(ProtocolOutcome::Failed(
            DeployProfileError::SSHSpawnActivateError(e),
        ))) => assert_eq!(e.kind(), ErrorKind::NotFound),
        other => panic!("{:?}", other),
    }
}

#[test]
fn wait_then_confirm_then_activation() {
    let (state, actions) = run(
        true,
        vec![
            Event::Spawned(Ok(())),
            Event::WaitExited(exit(0)),
            Event::Confirmed(Ok(())),
            Event::ActivationExited(exit(0)),
        ],
    );
    assert!(matches!(state, Orchestrator::Finished));
    assert!(matches!(actions[0], Some(Action::SpawnActivation)));
    assert!(matches!(actions[1], Some(Action::RunWait)));
    assert!(matches!(actions[2], Some(Action::Confirm)));
    assert!(matches!(actions[3], Some(Action::Await)));
    assert!(matches!(actions[4], Some(Action::Finish(ProtocolOutcome::ActivatedAndConfirmed))));
    assert_eq!(confirms(&actions), 1);
}

#[test]
fn activation_may_end_well_before_the_wait() {
    let (_, actions) = run(
        true,
        vec![
            Event::Spawned(Ok(())),
            Event::ActivationExited(exit(0)),
            Event::WaitExited(exit(0)),
            Event::Confirmed(Ok(())),
        ],
    );
    assert!(matches!(actions[2], Some(Action::Await)));
    assert!(matches!(actions[3], Some(Action::Confirm)));
    assert!(matches!(actions[4], Some(Action::Finish(ProtocolOutcome::ActivatedAndConfirmed))));
    assert_eq!(confirms(&actions), 1);
}

#[test]
fn activation_may_end_well_during_the_handshake() {
    let (_, actions) = run(
        true,
        vec![
            Event::Spawned(Ok(())),
            Event::WaitExited(exit(0)),
            Event::ActivationExited(exit(0)),
            Event::Confirmed(Ok(())),
        ],
    );
    assert!(matches!(actions[2], Some(Action::Confirm)));
    assert!(matches!(actions[3], Some(Action::Await)));
    assert!(matches!(actions[4], Some(Action::Finish(ProtocolOutcome::ActivatedAndConfirmed))));
    assert_eq!(confirms(&actions), 1);
}

#[test]
fn a_failed_activation_ends_the_race_without_confirmation() {
    for status in [exit(1), killed(), Err(no_transport())] {
        let transport = status.is_err();
        let (state, actions) =
            run(true, vec![Event::Spawned(Ok(())), Event::ActivationExited(status)]);
        assert!(matches!(state, Orchestrator::Finished));
        match &actions[2] {
            Some(Action::Finish(ProtocolOutcome::Failed(
                DeployProfileError::SSHActivateError(_),
            ))) => assert!(transport),
            Some(Action::Finish(ProtocolOutcome::Failed(
                DeployProfileError::SSHActivateExitError(code),
            ))) => assert!(!transport && *code != Some(0)),
            other => panic!("{:?}", other),
        }
        assert_eq!(confirms(&actions), 0);
    }
}

#[test]
fn nothing_is_accepted_after_the_outcome() {
    let (state, actions) = run(
        true,
        vec![
            Event::Spawned(Ok(())),
            Event::ActivationExited(exit(1)),
            Event::WaitExited(exit(0)),
            Event::Confirmed(Ok(())),
            Event::ActivationExited(exit(0)),
            Event::Spawned(Ok(())),
        ],
    );
    assert!(matches!(state, Orchestrator::Finished));
    assert!(actions[3..].iter().all(|action| action.is_none()));
    assert_eq!(confirms(&actions), 0);
}

#[test]
fn a_failed_confirmation_surfaces() {
    let failed = confirm_result(exit(1));
    let (_, actions) = run(
        true,
        vec![
            Event::Spawned(Ok(())),
            Event::WaitExited(exit(0)),
            Event::Confirmed(failed),
            Event::ActivationExited(exit(0)),
        ],
    );
    assert!(matches!(
        actions[4],
        Some(Action::Finish(ProtocolOutcome::Failed(DeployProfileError::ConfirmError(
            ConfirmProfileError::SSHConfirmExitError(Some(1))
        ))))
    ));
    assert_eq!(confirms(&actions), 1);

    let (_, actions) = run(
        true,
        vec![
            Event::Spawned(Ok(())),
            Event::ActivationExited(exit(0)),
            Event::WaitExited(exit(0)),
            Event::Confirmed(confirm_result(Err(no_transport()))),
        ],
    );
    assert!(matches!(
        actions[4],
        Some(Action::Finish(ProtocolOutcome::Failed(DeployProfileError::ConfirmError(
            ConfirmProfileError::SSHConfirmError(_)
        ))))
    ));
}

#[test]
fn a_late_activation_failure_overrides_the_confirmation() {
    let (_, actions) = run(
        true,
        vec![
            Event::Spawned(Ok(())),
            Event::WaitExited(exit(0)),
            Event::Confirmed(Ok(())),
            Event::ActivationExited(exit(9)),
        ],
    );
    assert!(matches!(actions[3], Some(Action::Await)));
    assert!(matches!(
        actions[4],
        Some(Action::Finish(ProtocolOutcome::Failed(DeployProfileError::SSHActivateExitError(
            Some(9)
        ))))
    ));

    let (_, actions) = run(
        true,
        vec![
            Event::Spawned(Ok(())),
            Event::WaitExited(exit(0)),
            Event::ActivationExited(killed()),
            Event::Confirmed(Ok(())),
        ],
    );
    assert!(matches!(actions[3], Some(Action::Await)));
    assert!(matches!(
        actions[4],
        Some(Action::Finish(ProtocolOutcome::Failed(DeployProfileError::SSHActivateExitError(
            None
        ))))
    ));
}

#[test]
fn a_failed_wait_surfaces_once_the_activation_has_ended() {
    let (state, actions) =
        run(true, vec![Event::Spawned(Ok(())), Event::WaitExited(exit(3))]);
    assert!(matches!(
        state,
        Orchestrator::Failing { error: DeployProfileError::SSHWaitExitError(Some(3)) }
    ));
    assert!(matches!(actions[2], Some(Action::Await)));

    let (_, actions) = run(
        true,
        vec![
            Event::Spawned(Ok(())),
            Event::WaitExited(exit(3)),
            Event::ActivationExited(exit(0)),
        ],
    );
    assert!(matches!(actions[2], Some(Action::Await)));
    assert!(matches!(
        actions[3],
        Some(Action::Finish(ProtocolOutcome::Failed(DeployProfileError::SSHWaitExitError(Some(
            3
        )))))
    ));
    assert_eq!(confirms(&actions), 0);

    let (state, actions) = run(
        true,
        vec![
            Event::Spawned(Ok(())),
            Event::ActivationExited(exit(0)),
            Event::WaitExited(Err(no_transport())),
        ],
    );
    assert!(matches!(state, Orchestrator::Finished));
    assert!(matches!(
        actions[3],
        Some(Action::Finish(ProtocolOutcome::Failed(DeployProfileError::SSHWaitError(_))))
    ));
    assert_eq!(confirms(&actions), 0);
}

#[test]
fn a_failed_wait_stands_however_the_activation_ends() {
    for status in [exit(1), killed(), Err(no_transport())] {
        let (state, actions) = run(
            true,
            vec![
                Event::Spawned(Ok(())),
                Event::WaitExited(killed()),
                Event::ActivationExited(status),
            ],
        );
        assert!(matches!(state, Orchestrator::Finished));
        assert!(matches!(
            actions[3],
            Some(Action::Finish(ProtocolOutcome::Failed(DeployProfileError::SSHWaitExitError(
                None
            ))))
        ));
        assert_eq!(confirms(&actions), 0);
    }
}

#[test]
fn a_failed_activation_comes_before_a_failed_confirmation() {
    let (_, actions) = run(
        true,
        vec![
            Event::Spawned(Ok(())),
            Event::WaitExited(exit(0)),
            Event::Confirmed(confirm_result(exit(1))),
            Event::ActivationExited(exit(2)),
        ],
    );
    assert!(matches!(
        actions[4],
        Some(Action::Finish(ProtocolOutcome::Failed(DeployProfileError::SSHActivateExitError(
            Some(2)
        ))))
    ));

    let (_, actions) = run(
        true,
        vec![
            Event::Spawned(Ok(())),
            Event::WaitExited(exit(0)),
            Event::ActivationExited(exit(2)),
            Event::Confirmed(confirm_result(exit(1))),
        ],
    );
    assert!(matches!(
        actions[4],
        Some(Action::Finish(ProtocolOutcome::Failed(DeployProfileError::SSHActivateExitError(
            Some(2)
        ))))
    ));
}

#[test]
fn events_out_of_place_change_nothing() {
    let (state, first) = Orchestrator::start(true);
    assert!(matches!(first, Action::SpawnActivation));
    let (state, action) = state.step(Event::WaitExited(exit(0)));
    assert!(action.is_none());
    assert!(matches!(state, Orchestrator::Spawning));
    let (state, action) = state.step(Event::Spawned(Ok(())));
    assert!(matches!(action, Some(Action::RunWait)));
    let (state, action) = state.step(Event::Confirmed(Ok(())));
    assert!(action.is_none());
    assert!(matches!(state, Orchestrator::Racing { activated: false }));

    let (state, _) = Orchestrator::start(false);
    let (state, action) = state.step(Event::Spawned(Ok(())));
    assert!(action.is_none());
    assert!(matches!(state, Orchestrator::Activating));
}
