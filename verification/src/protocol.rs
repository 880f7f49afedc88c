//! The activation protocol: what to do next, given what has happened.
//!
//! The driver starts remote commands and waits for them; the orchestrator
//! decides. In simple mode the activation command is run to its end and its
//! exit is the outcome. With magic rollback the activation is started in the
//! background and raced against the wait command. A failed activation ends
//! the race at once. A failed wait is the outcome, a successful wait leads to
//! the confirmation; either way no outcome is given before the activation
//! itself has ended, and its failure comes before whatever the confirmation
//! came to.

use vstd::prelude::*;
use crate::error::{
    activation_outcome, activation_result, wait_outcome, wait_result, ConfirmProfileError,
    DeployProfileError, RemoteResult,
};

verus! {

/// How a deployment ended. There is no success in part.
#[derive(Debug)]
pub enum ProtocolOutcome {
    /// Simple mode: the activation command exited with 0.
    ActivatedSimple,
    /// Magic rollback: activation, wait and confirmation all went through.
    ActivatedAndConfirmed,
    /// The deployment failed, for this reason.
    Failed(DeployProfileError),
}

impl ProtocolOutcome {
    /// The outcome as a result: both kinds of success are `Ok`.
    pub open spec fn result(self) -> Result<(), DeployProfileError> {
        match self {
            ProtocolOutcome::ActivatedSimple => Ok(()),
            ProtocolOutcome::ActivatedAndConfirmed => Ok(()),
            ProtocolOutcome::Failed(error) => Err(error),
        }
    }

    /// Turns the outcome into a result.
    pub fn into_result(self) -> (result: Result<(), DeployProfileError>)
        ensures
            result == self.result(),
    {
        match self {
            ProtocolOutcome::ActivatedSimple => Ok(()),
            ProtocolOutcome::ActivatedAndConfirmed => Ok(()),
            ProtocolOutcome::Failed(error) => Err(error),
        }
    }
}

/// Something that happened on the driver's side.
#[derive(Debug)]
pub enum Event {
    /// The activation command was started in the background, or could not be.
    Spawned(Result<(), std::io::Error>),
    /// The activation command has ended.
    ActivationExited(RemoteResult),
    /// The wait command has ended.
    WaitExited(RemoteResult),
    /// The confirmation handshake has ended.
    Confirmed(Result<(), ConfirmProfileError>),
}

/// What the driver has to do next.
#[derive(Debug)]
pub enum Action {
    /// Run the activation command and report its end.
    RunActivation,
    /// Start the activation command in the background and report whether
    /// that worked.
    SpawnActivation,
    /// Start the wait command, then report whatever ends first.
    RunWait,
    /// Run the confirmation handshake, then report whatever ends first.
    Confirm,
    /// Start nothing; report whatever ends next.
    Await,
    /// Stop: this is the outcome.
    Finish(ProtocolOutcome),
}

/// Where a deployment stands.
#[derive(Debug)]
pub enum Orchestrator {
    /// Simple mode: the activation command is running.
    Activating,
    /// The activation command is being started in the background.
    Spawning,
    /// The wait command is running. `activated` tells whether the activation
    /// has already ended, with success.
    Racing { activated: bool },
    /// The wait command succeeded and the handshake is running. `activation`
    /// holds the verdict on the activation once it has ended.
    Confirming { activation: Option<Result<(), DeployProfileError>> },
    /// The handshake has ended and only the activation is still running;
    /// `verdict` is what the confirmation came to.
    Draining { verdict: Result<(), DeployProfileError> },
    /// The wait command has failed and only the activation is still running;
    /// `error` will be the outcome, however the activation ends.
    Failing { error: DeployProfileError },
    /// The outcome was given.
    Finished,
}

/// The outcome of simple mode.
pub open spec fn simple_conclusion(activation: Result<(), DeployProfileError>) -> ProtocolOutcome {
    match activation {
        Ok(()) => ProtocolOutcome::ActivatedSimple,
        Err(error) => ProtocolOutcome::Failed(error),
    }
}

/// A failed confirmation as a failed deployment.
pub open spec fn confirmation_verdict(confirmation: Result<(), ConfirmProfileError>) -> Result<
    (),
    DeployProfileError,
> {
    match confirmation {
        Ok(()) => Ok(()),
        Err(error) => Err(DeployProfileError::ConfirmError(error)),
    }
}

/// The outcome after a successful wait, once the activation has ended: its
/// failure comes before whatever the confirmation came to.
pub open spec fn conclusion(
    activation: Result<(), DeployProfileError>,
    verdict: Result<(), DeployProfileError>,
) -> ProtocolOutcome {
    match activation {
        Err(error) => ProtocolOutcome::Failed(error),
        Ok(()) => match verdict {
            Ok(()) => ProtocolOutcome::ActivatedAndConfirmed,
            Err(error) => ProtocolOutcome::Failed(error),
        },
    }
}

impl Orchestrator {
    /// The state in which a deployment starts.
    pub open spec fn initial(magic_rollback: bool) -> Orchestrator {
        if magic_rollback {
            Orchestrator::Spawning
        } else {
            Orchestrator::Activating
        }
    }

    /// The first thing to do.
    pub open spec fn first_action(magic_rollback: bool) -> Action {
        if magic_rollback {
            Action::SpawnActivation
        } else {
            Action::RunActivation
        }
    }

    /// The transition function: the state after `event`, and what to do then.
    /// An event that cannot happen in this state changes nothing and calls
    /// for no action.
    pub open spec fn step_spec(self, event: Event) -> (Orchestrator, Option<Action>) {
        match (self, event) {
            (Orchestrator::Activating, Event::ActivationExited(status)) => (
                Orchestrator::Finished,
                Some(Action::Finish(simple_conclusion(activation_outcome(status)))),
            ),
            (Orchestrator::Spawning, Event::Spawned(Ok(()))) => (
                Orchestrator::Racing { activated: false },
                Some(Action::RunWait),
            ),
            (Orchestrator::Spawning, Event::Spawned(Err(error))) => (
                Orchestrator::Finished,
                Some(
                    Action::Finish(
                        ProtocolOutcome::Failed(DeployProfileError::SSHSpawnActivateError(error)),
                    ),
                ),
            ),
            (Orchestrator::Racing { activated: false }, Event::ActivationExited(status)) => {
                match activation_outcome(status) {
                    Ok(()) => (Orchestrator::Racing { activated: true }, Some(Action::Await)),
                    Err(error) => (
                        Orchestrator::Finished,
                        Some(Action::Finish(ProtocolOutcome::Failed(error))),
                    ),
                }
            },
            (Orchestrator::Racing { activated }, Event::WaitExited(status)) => {
                match wait_outcome(status) {
                    Ok(()) => (
                        Orchestrator::Confirming {
                            activation: if activated {
                                Some(Ok(()))
                            } else {
                                None
                            },
                        },
                        Some(Action::Confirm),
                    ),
                    Err(error) => if activated {
                        (
                            Orchestrator::Finished,
                            Some(Action::Finish(ProtocolOutcome::Failed(error))),
                        )
                    } else {
                        (Orchestrator::Failing { error }, Some(Action::Await))
                    },
                }
            },
            (Orchestrator::Confirming { activation: None }, Event::ActivationExited(status)) => (
                Orchestrator::Confirming { activation: Some(activation_outcome(status)) },
                Some(Action::Await),
            ),
            (Orchestrator::Confirming { activation }, Event::Confirmed(confirmation)) => {
                match activation {
                    Some(activation) => (
                        Orchestrator::Finished,
                        Some(
                            Action::Finish(
                                conclusion(activation, confirmation_verdict(confirmation)),
                            ),
                        ),
                    ),
                    None => (
                        Orchestrator::Draining { verdict: confirmation_verdict(confirmation) },
                        Some(Action::Await),
                    ),
                }
            },
            (Orchestrator::Draining { verdict }, Event::ActivationExited(status)) => (
                Orchestrator::Finished,
                Some(Action::Finish(conclusion(activation_outcome(status), verdict))),
            ),
            (Orchestrator::Failing { error }, Event::ActivationExited(_)) => (
                Orchestrator::Finished,
                Some(Action::Finish(ProtocolOutcome::Failed(error))),
            ),
            _ => (self, None),
        }
    }

    /// Whether `event` can happen in this state.
    pub open spec fn accepts(self, event: Event) -> bool {
        self.step_spec(event).1 is Some
    }

    /// Starts a deployment, with or without magic rollback.
    pub fn start(magic_rollback: bool) -> (first: (Orchestrator, Action))
        ensures
            first.0 == Orchestrator::initial(magic_rollback),
            first.1 == Orchestrator::first_action(magic_rollback),
    {
        if magic_rollback {
            (Orchestrator::Spawning, Action::SpawnActivation)
        } else {
            (Orchestrator::Activating, Action::RunActivation)
        }
    }

    /// Takes in one event. Returns the next state and what to do, or the
    /// same state and no action where the event cannot happen in it.
    pub fn step(self, event: Event) -> (next: (Orchestrator, Option<Action>))
        ensures
            next == self.step_spec(event),
    {
        match self {
            Orchestrator::Activating => match event {
                Event::ActivationExited(status) => {
                    let outcome = match activation_result(status) {
                        Ok(()) => ProtocolOutcome::ActivatedSimple,
                        Err(error) => ProtocolOutcome::Failed(error),
                    };
                    (Orchestrator::Finished, Some(Action::Finish(outcome)))
                },
                _ => (Orchestrator::Activating, None),
            },
            Orchestrator::Spawning => match event {
                Event::Spawned(Ok(())) => (
                    Orchestrator::Racing { activated: false },
                    Some(Action::RunWait),
                ),
                Event::Spawned(Err(error)) => (
                    Orchestrator::Finished,
                    Some(
                        Action::Finish(
                            ProtocolOutcome::Failed(
                                DeployProfileError::SSHSpawnActivateError(error),
                            ),
                        ),
                    ),
                ),
                _ => (Orchestrator::Spawning, None),
            },
            Orchestrator::Racing { activated } => match event {
                Event::ActivationExited(status) => {
                    if activated {
                        (Orchestrator::Racing { activated }, None)
                    } else {
                        match activation_result(status) {
                            Ok(()) => (
                                Orchestrator::Racing { activated: true },
                                Some(Action::Await),
                            ),
                            Err(error) => (
                                Orchestrator::Finished,
                                Some(Action::Finish(ProtocolOutcome::Failed(error))),
                            ),
                        }
                    }
                },
                Event::WaitExited(status) => match wait_result(status) {
                    Ok(()) => {
                        let activation = if activated {
                            Some(Ok(()))
                        } else {
                            None
                        };
                        (Orchestrator::Confirming { activation }, Some(Action::Confirm))
                    },
                    Err(error) => if activated {
                        (
                            Orchestrator::Finished,
                            Some(Action::Finish(ProtocolOutcome::Failed(error))),
                        )
                    } else {
                        (Orchestrator::Failing { error }, Some(Action::Await))
                    },
                },
                _ => (Orchestrator::Racing { activated }, None),
            },
            Orchestrator::Confirming { activation } => match event {
                Event::ActivationExited(status) => match activation {
                    None => (
                        Orchestrator::Confirming { activation: Some(activation_result(status)) },
                        Some(Action::Await),
                    ),
                    Some(known) => (Orchestrator::Confirming { activation: Some(known) }, None),
                },
                Event::Confirmed(confirmation) => {
                    let verdict = match confirmation {
                        Ok(()) => Ok(()),
                        Err(error) => Err(DeployProfileError::ConfirmError(error)),
                    };
                    match activation {
                        Some(activation) => (
                            Orchestrator::Finished,
                            Some(Action::Finish(conclude(activation, verdict))),
                        ),
                        None => (Orchestrator::Draining { verdict }, Some(Action::Await)),
                    }
                },
                _ => (Orchestrator::Confirming { activation }, None),
            },
            Orchestrator::Draining { verdict } => match event {
                Event::ActivationExited(status) => (
                    Orchestrator::Finished,
                    Some(Action::Finish(conclude(activation_result(status), verdict))),
                ),
                _ => (Orchestrator::Draining { verdict }, None),
            },
            Orchestrator::Failing { error } => match event {
                Event::ActivationExited(_) => (
                    Orchestrator::Finished,
                    Some(Action::Finish(ProtocolOutcome::Failed(error))),
                ),
                _ => (Orchestrator::Failing { error }, None),
            },
            Orchestrator::Finished => (Orchestrator::Finished, None),
        }
    }
}

/// Gives the outcome after a successful wait, once the activation has ended.
fn conclude(
    activation: Result<(), DeployProfileError>,
    verdict: Result<(), DeployProfileError>,
) -> (outcome: ProtocolOutcome)
    ensures
        outcome == conclusion(activation, verdict),
{
    match activation {
        Err(error) => ProtocolOutcome::Failed(error),
        Ok(()) => match verdict {
            Ok(()) => ProtocolOutcome::ActivatedAndConfirmed,
            Err(error) => ProtocolOutcome::Failed(error),
        },
    }
}

} // verus!
