//! The failures of a deployment, and how a remote exit status becomes one.

use vstd::prelude::*;

verus! {

/// `std::io::Error`, as the remote-shell transport reports it. The library
/// never looks inside one: it only hands it on to the caller.
#[verifier::external_type_specification]
#[verifier::external_body]
pub struct ExIoError(std::io::Error);

/// How a remote process ended: its exit code, or none where it was
/// terminated without one (by a signal, say).
#[derive(Clone, Copy, Debug, PartialEq, Eq, Structural)]
pub struct RemoteExit {
    pub code: Option<i32>,
}

impl RemoteExit {
    /// Only the exit code 0 is a success; no code at all is a failure.
    pub open spec fn succeeded(self) -> bool {
        self.code == Some(0i32)
    }

    /// Tells whether the process ended with the exit code 0.
    pub fn is_success(&self) -> (yes: bool)
        ensures
            yes == self.succeeded(),
    {
        match self.code {
            Some(code) => code == 0,
            None => false,
        }
    }
}

/// Why the confirmation of an activation failed. After either failure the
/// remote side is expected to roll back by itself.
#[derive(Debug)]
pub enum ConfirmProfileError {
    /// The confirmation command could not be run over the transport.
    SSHConfirmError(std::io::Error),
    /// The confirmation command ran and did not exit with 0.
    SSHConfirmExitError(Option<i32>),
}

/// Why the deployment of a profile failed.
#[derive(Debug)]
pub enum DeployProfileError {
    /// The activation command could not be started in the background.
    SSHSpawnActivateError(std::io::Error),
    /// The activation command could not be run over the transport.
    SSHActivateError(std::io::Error),
    /// The activation command ran and did not exit with 0.
    SSHActivateExitError(Option<i32>),
    /// The wait command could not be run over the transport.
    SSHWaitError(std::io::Error),
    /// The wait command ran and did not exit with 0.
    SSHWaitExitError(Option<i32>),
    /// The activation went through and its confirmation failed.
    ConfirmError(ConfirmProfileError),
}

impl From<ConfirmProfileError> for DeployProfileError {
    /// A failed confirmation is a failed deployment.
    fn from(error: ConfirmProfileError) -> (wrapped: DeployProfileError) {
        DeployProfileError::ConfirmError(error)
    }
}

impl vstd::std_specs::convert::FromSpecImpl<ConfirmProfileError> for DeployProfileError {
    open spec fn obeys_from_spec() -> bool {
        true
    }

    open spec fn from_spec(error: ConfirmProfileError) -> DeployProfileError {
        DeployProfileError::ConfirmError(error)
    }
}

/// What the run of a remote command came to: its exit, or the transport's
/// error where the command could not be run at all.
pub type RemoteResult = Result<RemoteExit, std::io::Error>;

/// Whether a remote command ran and exited with 0.
pub open spec fn ran_well(status: RemoteResult) -> bool {
    status matches Ok(exit) && exit.succeeded()
}

/// The verdict on the activation command.
pub open spec fn activation_outcome(status: RemoteResult) -> Result<(), DeployProfileError> {
    match status {
        Ok(exit) => if exit.succeeded() {
            Ok(())
        } else {
            Err(DeployProfileError::SSHActivateExitError(exit.code))
        },
        Err(e) => Err(DeployProfileError::SSHActivateError(e)),
    }
}

/// The verdict on the wait command.
pub open spec fn wait_outcome(status: RemoteResult) -> Result<(), DeployProfileError> {
    match status {
        Ok(exit) => if exit.succeeded() {
            Ok(())
        } else {
            Err(DeployProfileError::SSHWaitExitError(exit.code))
        },
        Err(e) => Err(DeployProfileError::SSHWaitError(e)),
    }
}

/// The verdict on the confirmation command.
pub open spec fn confirm_outcome(status: RemoteResult) -> Result<(), ConfirmProfileError> {
    match status {
        Ok(exit) => if exit.succeeded() {
            Ok(())
        } else {
            Err(ConfirmProfileError::SSHConfirmExitError(exit.code))
        },
        Err(e) => Err(ConfirmProfileError::SSHConfirmError(e)),
    }
}

/// Judges the run of the activation command: a success only if it ran and
/// exited with 0.
pub fn activation_result(status: RemoteResult) -> (verdict: Result<(), DeployProfileError>)
    ensures
        verdict == activation_outcome(status),
{
    match status {
        Ok(exit) => if exit.is_success() {
            Ok(())
        } else {
            Err(DeployProfileError::SSHActivateExitError(exit.code))
        },
        Err(e) => Err(DeployProfileError::SSHActivateError(e)),
    }
}

/// Judges the run of the wait command: a success only if it ran and exited
/// with 0.
pub fn wait_result(status: RemoteResult) -> (verdict: Result<(), DeployProfileError>)
    ensures
        verdict == wait_outcome(status),
{
    match status {
        Ok(exit) => if exit.is_success() {
            Ok(())
        } else {
            Err(DeployProfileError::SSHWaitExitError(exit.code))
        },
        Err(e) => Err(DeployProfileError::SSHWaitError(e)),
    }
}

/// Judges the run of the confirmation command: a success only if it ran and
/// exited with 0.
pub fn confirm_result(status: RemoteResult) -> (verdict: Result<(), ConfirmProfileError>)
    ensures
        verdict == confirm_outcome(status),
{
    match status {
        Ok(exit) => if exit.is_success() {
            Ok(())
        } else {
            Err(ConfirmProfileError::SSHConfirmExitError(exit.code))
        },
        Err(e) => Err(ConfirmProfileError::SSHConfirmError(e)),
    }
}

} // verus!
