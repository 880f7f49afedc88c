//! The remote command lines.
//!
//! Each command is the concatenation of a fixed series of segments. A segment
//! is either always there or stands for one option; the order of the segments
//! never changes. Arguments are put between single quotes as they are: a quote
//! inside a path is not escaped.

use vstd::prelude::*;
use vstd::string::*;
use vstd::utf8::encode_utf8;
use crate::text::{decimal, u16_to_decimal};

verus! {

/// What goes into the command line that activates a profile.
pub struct ActivateCommandData<'a> {
    pub sudo: &'a Option<String>,
    pub profile_path: &'a str,
    pub closure: &'a str,
    pub auto_rollback: bool,
    pub temp_path: &'a str,
    pub confirm_timeout: u16,
    pub magic_rollback: bool,
    pub debug_logs: bool,
    pub log_dir: Option<&'a str>,
}

/// The options of an activation, as plain character sequences.
pub struct ActivationOptions {
    pub sudo: Option<Seq<char>>,
    pub profile_path: Seq<char>,
    pub closure: Seq<char>,
    pub auto_rollback: bool,
    pub temp_path: Seq<char>,
    pub confirm_timeout: u16,
    pub magic_rollback: bool,
    pub debug_logs: bool,
    pub log_dir: Option<Seq<char>>,
}

/// What goes into the command line that waits for the confirmation.
pub struct WaitCommandData<'a> {
    pub sudo: &'a Option<String>,
    pub closure: &'a str,
    pub temp_path: &'a str,
    pub debug_logs: bool,
    pub log_dir: Option<&'a str>,
}

/// The options of a wait, as plain character sequences.
pub struct WaitOptions {
    pub sudo: Option<Seq<char>>,
    pub closure: Seq<char>,
    pub temp_path: Seq<char>,
    pub debug_logs: bool,
    pub log_dir: Option<Seq<char>>,
}

impl<'a> View for ActivateCommandData<'a> {
    type V = ActivationOptions;

    open spec fn view(&self) -> ActivationOptions {
        ActivationOptions {
            sudo: self.sudo.deep_view(),
            profile_path: self.profile_path@,
            closure: self.closure@,
            auto_rollback: self.auto_rollback,
            temp_path: self.temp_path@,
            confirm_timeout: self.confirm_timeout,
            magic_rollback: self.magic_rollback,
            debug_logs: self.debug_logs,
            log_dir: self.log_dir.deep_view(),
        }
    }
}

impl<'a> View for WaitCommandData<'a> {
    type V = WaitOptions;

    open spec fn view(&self) -> WaitOptions {
        WaitOptions {
            sudo: self.sudo.deep_view(),
            closure: self.closure@,
            temp_path: self.temp_path@,
            debug_logs: self.debug_logs,
            log_dir: self.log_dir.deep_view(),
        }
    }
}

/// A segment that is there only when `set` holds.
pub open spec fn flag(set: bool, text: Seq<char>) -> Seq<char> {
    if set {
        text
    } else {
        Seq::empty()
    }
}

/// The segment that names the log directory, empty when there is none.
pub open spec fn log_dir_segment(log_dir: Option<Seq<char>>) -> Seq<char> {
    match log_dir {
        Some(dir) => " --log-dir "@ + dir,
        None => Seq::empty(),
    }
}

/// `command` behind the privilege-escalation prefix and one space, or alone
/// when there is no prefix.
pub open spec fn with_prefix(sudo: Option<Seq<char>>, command: Seq<char>) -> Seq<char> {
    match sudo {
        Some(prefix) => prefix + " "@ + command,
        None => command,
    }
}

/// What every call of the remote activation binary starts with: the binary
/// inside the closure, then the logging options.
pub open spec fn program(closure: Seq<char>, debug_logs: bool, log_dir: Option<Seq<char>>) -> Seq<
    char,
> {
    closure + "/activate-rs"@ + flag(debug_logs, " --debug-logs"@) + log_dir_segment(log_dir)
}

/// The activation command without a prefix.
pub open spec fn bare_activate_command(o: ActivationOptions) -> Seq<char> {
    program(o.closure, o.debug_logs, o.log_dir) + " --temp-path '"@ + o.temp_path
        + "' activate '"@ + o.closure + "' '"@ + o.profile_path + "'"@ + " --confirm-timeout "@
        + decimal(o.confirm_timeout as nat) + flag(o.magic_rollback, " --magic-rollback"@) + flag(
        o.auto_rollback,
        " --auto-rollback"@,
    )
}

/// The activation command.
pub open spec fn activate_command(o: ActivationOptions) -> Seq<char> {
    with_prefix(o.sudo, bare_activate_command(o))
}

/// The wait command without a prefix.
pub open spec fn bare_wait_command(o: WaitOptions) -> Seq<char> {
    program(o.closure, o.debug_logs, o.log_dir) + " --temp-path '"@ + o.temp_path + "' wait '"@
        + o.closure + "'"@
}

/// The wait command.
pub open spec fn wait_command(o: WaitOptions) -> Seq<char> {
    with_prefix(o.sudo, bare_wait_command(o))
}

/// The command that removes the lock file, and so confirms the activation.
pub open spec fn confirm_command(sudo: Option<Seq<char>>, lock_path: Seq<char>) -> Seq<char> {
    with_prefix(sudo, "rm "@ + lock_path)
}

/// Starts a call of the remote activation binary.
fn build_program(closure: &str, debug_logs: bool, log_dir: Option<&str>) -> (command: String)
    ensures
        command@ == program(closure@, debug_logs, log_dir.deep_view()),
{
    let mut command = String::from_str(closure);
    command.append("/activate-rs");
    if debug_logs {
        command.append(" --debug-logs");
    }
    assert(command@ =~= closure@ + "/activate-rs"@ + flag(debug_logs, " --debug-logs"@));
    if let Some(dir) = log_dir {
        command.append(" --log-dir ");
        command.append(dir);
    }
    assert(command@ =~= program(closure@, debug_logs, log_dir.deep_view()));
    command
}

/// Puts the privilege-escalation prefix, if there is one, before `command`.
fn prepend_prefix(sudo: &Option<String>, command: String) -> (prefixed: String)
    ensures
        prefixed@ == with_prefix(sudo.deep_view(), command@),
{
    match sudo {
        Some(prefix) => {
            let mut prefixed = prefix.clone();
            prefixed.append(" ");
            prefixed.append(command.as_str());
            prefixed
        },
        None => command,
    }
}

/// Builds the command line that activates the profile on the remote host.
pub fn build_activate_command(data: ActivateCommandData) -> (command: String)
    ensures
        command@ == activate_command(data@),
{
    let mut command = build_program(data.closure, data.debug_logs, data.log_dir);
    command.append(" --temp-path '");
    command.append(data.temp_path);
    command.append("' activate '");
    command.append(data.closure);
    command.append("' '");
    command.append(data.profile_path);
    command.append("'");
    command.append(" --confirm-timeout ");
    let timeout = u16_to_decimal(data.confirm_timeout);
    command.append(timeout.as_str());
    let ghost required = command@;
    if data.magic_rollback {
        command.append(" --magic-rollback");
    }
    if data.auto_rollback {
        command.append(" --auto-rollback");
    }
    assert(command@ =~= required + flag(data.magic_rollback, " --magic-rollback"@) + flag(
        data.auto_rollback,
        " --auto-rollback"@,
    ));
    prepend_prefix(data.sudo, command)
}

/// Builds the command line that blocks on the remote host until the
/// activation is confirmed or has timed out.
pub fn build_wait_command(data: WaitCommandData) -> (command: String)
    ensures
        command@ == wait_command(data@),
{
    let mut command = build_program(data.closure, data.debug_logs, data.log_dir);
    command.append(" --temp-path '");
    command.append(data.temp_path);
    command.append("' wait '");
    command.append(data.closure);
    command.append("'");
    prepend_prefix(data.sudo, command)
}

/// Builds the command line that removes the lock file at `lock_path`.
pub fn build_confirm_command(sudo: &Option<String>, lock_path: &str) -> (command: String)
    ensures
        command@ == confirm_command(sudo.deep_view(), lock_path@),
{
    let mut command = String::from_str("rm ");
    command.append(lock_path);
    prepend_prefix(sudo, command)
}

/// With a prefix, the activation command is the prefix, exactly one space,
/// and the command as it is without a prefix.
pub proof fn lemma_activate_prefix_comes_first(o: ActivationOptions, prefix: Seq<char>)
    requires
        o.sudo == Some(prefix),
    ensures
        activate_command(o) == prefix + seq![' '] + activate_command(
            ActivationOptions { sudo: None, ..o },
        ),
{
    reveal_strlit(" ");
    assert(" "@ =~= seq![' ']);
    assert(bare_activate_command(o) == bare_activate_command(
        ActivationOptions { sudo: None, ..o },
    ));
}

/// With a prefix, the wait command is the prefix, exactly one space, and the
/// command as it is without a prefix.
pub proof fn lemma_wait_prefix_comes_first(o: WaitOptions, prefix: Seq<char>)
    requires
        o.sudo == Some(prefix),
    ensures
        wait_command(o) == prefix + seq![' '] + wait_command(WaitOptions { sudo: None, ..o }),
{
    reveal_strlit(" ");
    assert(" "@ =~= seq![' ']);
    assert(bare_wait_command(o) == bare_wait_command(WaitOptions { sudo: None, ..o }));
}

/// With a prefix, the confirmation command is the prefix, exactly one space,
/// and the removal of the lock file.
pub proof fn lemma_confirm_prefix_comes_first(prefix: Seq<char>, lock_path: Seq<char>)
    ensures
        confirm_command(Some(prefix), lock_path) == prefix + seq![' '] + confirm_command(
            None,
            lock_path,
        ),
{
    reveal_strlit(" ");
    assert(" "@ =~= seq![' ']);
}

/// Building the activation command again from options with the same
/// contents gives the same command, character for character and byte for
/// byte: nothing but the options goes into it.
pub proof fn lemma_activate_command_is_repeatable(
    a: ActivateCommandData,
    b: ActivateCommandData,
    first: String,
    second: String,
)
    requires
        a@ == b@,
        first@ == activate_command(a@),
        second@ == activate_command(b@),
    ensures
        first@ == second@,
        encode_utf8(first@) == encode_utf8(second@),
{
}

/// Building the wait command again from options with the same contents
/// gives the same command, character for character and byte for byte.
pub proof fn lemma_wait_command_is_repeatable(
    a: WaitCommandData,
    b: WaitCommandData,
    first: String,
    second: String,
)
    requires
        a@ == b@,
        first@ == wait_command(a@),
        second@ == wait_command(b@),
    ensures
        first@ == second@,
        encode_utf8(first@) == encode_utf8(second@),
{
}

} // verus!
