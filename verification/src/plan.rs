//! From the settings of a deployment to what has to be run: the defaults,
//! the address of the target, the command lines and the arguments of the
//! remote shell.

use vstd::prelude::*;
use vstd::string::*;
use crate::command::{
    activate_command, build_activate_command, build_confirm_command, build_wait_command,
    confirm_command, wait_command, ActivateCommandData, ActivationOptions, WaitCommandData,
    WaitOptions,
};

verus! {

/// The confirmation timeout, in seconds, where the settings give none.
pub const DEFAULT_CONFIRM_TIMEOUT: u16 = 30;

/// The settings of a deployment that an operator may leave open.
pub struct Settings {
    /// Extra options for the remote shell, in the order in which they are
    /// handed to it.
    pub ssh_opts: Vec<String>,
    /// The directory for temporary files on the target; `/tmp` if none.
    pub temp_path: Option<String>,
    /// The seconds that the target waits for the confirmation; 30 if none.
    pub confirm_timeout: Option<u16>,
    /// Whether the activation has to be confirmed; it has if none.
    pub magic_rollback: Option<bool>,
    /// Whether the target rolls back when the activation fails; it does if
    /// none.
    pub auto_rollback: Option<bool>,
}

/// What is deployed, and where to.
pub struct DeployData {
    /// The name of the node, for diagnostics.
    pub node_name: String,
    /// The name of the profile, for diagnostics.
    pub profile_name: String,
    /// The hostname that the node declares.
    pub hostname: String,
    /// The hostname that the operator gave in its place, if any.
    pub hostname_override: Option<String>,
    /// The path of the profile's closure.
    pub closure: String,
    /// The settings, merged from all their sources.
    pub merged_settings: Settings,
    /// Whether the remote side logs in detail.
    pub debug_logs: bool,
    /// The directory that the remote side logs to, if any.
    pub log_dir: Option<String>,
}

/// As whom the profile is deployed.
pub struct DeployDefs {
    /// The user that the remote shell logs in as.
    pub ssh_user: String,
    /// The path of the profile on the target.
    pub profile_path: String,
    /// The privilege-escalation prefix, if any.
    pub sudo: Option<String>,
}

/// What the driver of a deployment runs.
pub struct DeployPlan {
    /// The address of the target: user, `@`, hostname.
    pub ssh_addr: String,
    /// The directory for temporary files on the target.
    pub temp_path: String,
    /// Whether the activation is raced against a wait and then confirmed.
    pub magic_rollback: bool,
    /// The command line that activates the profile.
    pub activate_command: String,
    /// The command line that waits for the confirmation; there is one
    /// exactly with magic rollback.
    pub wait_command: Option<String>,
}

/// The settings with their defaults filled in.
pub struct ResolvedSettings {
    pub temp_path: Seq<char>,
    pub confirm_timeout: u16,
    pub magic_rollback: bool,
    pub auto_rollback: bool,
}

/// The view of a deployment plan.
pub struct DeployPlanView {
    pub ssh_addr: Seq<char>,
    pub temp_path: Seq<char>,
    pub magic_rollback: bool,
    pub activate_command: Seq<char>,
    pub wait_command: Option<Seq<char>>,
}

impl View for DeployPlan {
    type V = DeployPlanView;

    open spec fn view(&self) -> DeployPlanView {
        DeployPlanView {
            ssh_addr: self.ssh_addr@,
            temp_path: self.temp_path@,
            magic_rollback: self.magic_rollback,
            activate_command: self.activate_command@,
            wait_command: self.wait_command.deep_view(),
        }
    }
}

impl Settings {
    /// The settings with `/tmp`, 30 seconds, magic rollback and auto
    /// rollback where they give nothing else.
    pub open spec fn resolved(&self) -> ResolvedSettings {
        ResolvedSettings {
            temp_path: match self.temp_path {
                Some(path) => path@,
                None => "/tmp"@,
            },
            confirm_timeout: match self.confirm_timeout {
                Some(seconds) => seconds,
                None => DEFAULT_CONFIRM_TIMEOUT,
            },
            magic_rollback: match self.magic_rollback {
                Some(enabled) => enabled,
                None => true,
            },
            auto_rollback: match self.auto_rollback {
                Some(enabled) => enabled,
                None => true,
            },
        }
    }

    /// The directory for temporary files: the one given, or `/tmp`.
    pub fn effective_temp_path(&self) -> (path: String)
        ensures
            path@ == self.resolved().temp_path,
    {
        match &self.temp_path {
            Some(path) => path.clone(),
            None => String::from_str("/tmp"),
        }
    }

    /// The confirmation timeout: the one given, or 30 seconds.
    pub fn effective_confirm_timeout(&self) -> (seconds: u16)
        ensures
            seconds == self.resolved().confirm_timeout,
    {
        match self.confirm_timeout {
            Some(seconds) => seconds,
            None => DEFAULT_CONFIRM_TIMEOUT,
        }
    }

    /// Whether the activation has to be confirmed: as given, or yes.
    pub fn effective_magic_rollback(&self) -> (enabled: bool)
        ensures
            enabled == self.resolved().magic_rollback,
    {
        match self.magic_rollback {
            Some(enabled) => enabled,
            None => true,
        }
    }

    /// Whether the target rolls back by itself: as given, or yes.
    pub fn effective_auto_rollback(&self) -> (enabled: bool)
        ensures
            enabled == self.resolved().auto_rollback,
    {
        match self.auto_rollback {
            Some(enabled) => enabled,
            None => true,
        }
    }
}

impl DeployData {
    /// The hostname of the target: the operator's, or else the node's own.
    pub open spec fn target_hostname(&self) -> Seq<char> {
        match self.hostname_override {
            Some(hostname) => hostname@,
            None => self.hostname@,
        }
    }

    /// The options of the activation command for this deployment.
    pub open spec fn activation_options(&self, defs: &DeployDefs) -> ActivationOptions {
        let settings = self.merged_settings.resolved();
        ActivationOptions {
            sudo: defs.sudo.deep_view(),
            profile_path: defs.profile_path@,
            closure: self.closure@,
            auto_rollback: settings.auto_rollback,
            temp_path: settings.temp_path,
            confirm_timeout: settings.confirm_timeout,
            magic_rollback: settings.magic_rollback,
            debug_logs: self.debug_logs,
            log_dir: self.log_dir.deep_view(),
        }
    }

    /// The options of the wait command for this deployment.
    pub open spec fn wait_options(&self, defs: &DeployDefs) -> WaitOptions {
        WaitOptions {
            sudo: defs.sudo.deep_view(),
            closure: self.closure@,
            temp_path: self.merged_settings.resolved().temp_path,
            debug_logs: self.debug_logs,
            log_dir: self.log_dir.deep_view(),
        }
    }
}

/// The address that the remote shell connects to.
pub open spec fn ssh_address(ssh_user: Seq<char>, hostname: Seq<char>) -> Seq<char> {
    ssh_user + "@"@ + hostname
}

/// What the remote shell is called with: the address, the options in their
/// order, then the command line as one argument.
pub open spec fn ssh_arguments(
    ssh_addr: Seq<char>,
    ssh_opts: Seq<Seq<char>>,
    command: Seq<char>,
) -> Seq<Seq<char>> {
    seq![ssh_addr] + ssh_opts + seq![command]
}

/// The plan of a deployment.
pub open spec fn deployment_plan(data: &DeployData, defs: &DeployDefs) -> DeployPlanView {
    let settings = data.merged_settings.resolved();
    DeployPlanView {
        ssh_addr: ssh_address(defs.ssh_user@, data.target_hostname()),
        temp_path: settings.temp_path,
        magic_rollback: settings.magic_rollback,
        activate_command: activate_command(data.activation_options(defs)),
        wait_command: if settings.magic_rollback {
            Some(wait_command(data.wait_options(defs)))
        } else {
            None
        },
    }
}

/// Builds the address of the target.
pub fn build_ssh_address(data: &DeployData, defs: &DeployDefs) -> (ssh_addr: String)
    ensures
        ssh_addr@ == ssh_address(defs.ssh_user@, data.target_hostname()),
{
    let mut ssh_addr = defs.ssh_user.clone();
    ssh_addr.append("@");
    match &data.hostname_override {
        Some(hostname) => ssh_addr.append(hostname.as_str()),
        None => ssh_addr.append(data.hostname.as_str()),
    }
    ssh_addr
}

/// Builds the arguments of one call of the remote shell.
pub fn build_ssh_arguments(ssh_addr: &str, ssh_opts: &Vec<String>, command: &str) -> (args: Vec<
    String,
>)
    ensures
        args.deep_view() == ssh_arguments(ssh_addr@, ssh_opts.deep_view(), command@),
{
    let mut args: Vec<String> = Vec::new();
    args.push(String::from_str(ssh_addr));
    let mut i: usize = 0;
    while i < ssh_opts.len()
        invariant
            i <= ssh_opts.len(),
            args@.len() == i + 1,
            args@[0]@ == ssh_addr@,
            forall|j: int| 0 <= j < i ==> (#[trigger] args@[j + 1])@ == ssh_opts@[j]@,
        decreases ssh_opts.len() - i,
    {
        args.push(ssh_opts[i].clone());
        i += 1;
    }
    args.push(String::from_str(command));
    assert(args.deep_view() =~= ssh_arguments(ssh_addr@, ssh_opts.deep_view(), command@)) by {
        let expected = ssh_arguments(ssh_addr@, ssh_opts.deep_view(), command@);
        assert(args.deep_view().len() == expected.len());
        assert forall|k: int| 0 <= k < expected.len() implies args.deep_view()[k] == expected[k] by {
            if 0 < k && k <= ssh_opts.len() {
                assert(args@[(k - 1) + 1]@ == ssh_opts@[k - 1]@);
            }
        }
    }
    args
}

/// Works out what a deployment has to run: fills in the defaults, and builds
/// the address and the command lines.
pub fn plan_deployment(data: &DeployData, defs: &DeployDefs) -> (plan: DeployPlan)
    ensures
        plan@ == deployment_plan(data, defs),
{
    let settings = &data.merged_settings;
    let temp_path = settings.effective_temp_path();
    let magic_rollback = settings.effective_magic_rollback();
    let log_dir = match &data.log_dir {
        Some(dir) => Some(dir.as_str()),
        None => None,
    };
    let activate_command = build_activate_command(
        ActivateCommandData {
            sudo: &defs.sudo,
            profile_path: defs.profile_path.as_str(),
            closure: data.closure.as_str(),
            auto_rollback: settings.effective_auto_rollback(),
            temp_path: temp_path.as_str(),
            confirm_timeout: settings.effective_confirm_timeout(),
            magic_rollback,
            debug_logs: data.debug_logs,
            log_dir,
        },
    );
    let wait_command = if magic_rollback {
        Some(
            build_wait_command(
                WaitCommandData {
                    sudo: &defs.sudo,
                    closure: data.closure.as_str(),
                    temp_path: temp_path.as_str(),
                    debug_logs: data.debug_logs,
                    log_dir,
                },
            ),
        )
    } else {
        None
    };
    DeployPlan {
        ssh_addr: build_ssh_address(data, defs),
        temp_path,
        magic_rollback,
        activate_command,
        wait_command,
    }
}

/// Builds the arguments of the call of the remote shell that confirms an
/// activation by removing the lock file at `lock_path`.
pub fn build_confirm_arguments(
    data: &DeployData,
    defs: &DeployDefs,
    lock_path: &str,
    ssh_addr: &str,
) -> (args: Vec<String>)
    ensures
        args.deep_view() == ssh_arguments(
            ssh_addr@,
            data.merged_settings.ssh_opts.deep_view(),
            confirm_command(defs.sudo.deep_view(), lock_path@),
        ),
{
    let command = build_confirm_command(&defs.sudo, lock_path);
    build_ssh_arguments(ssh_addr, &data.merged_settings.ssh_opts, command.as_str())
}

} // verus!
