//! Runs of the activation protocol, and what holds of every one of them.
//!
//! A run is a series of events, each of which the orchestrator accepts in the
//! state that the events before it have led to. The theorems below speak of
//! all runs, and so of every order in which the remote commands may end.

use vstd::prelude::*;
use crate::error::{
    activation_outcome, ran_well, wait_outcome, ConfirmProfileError, DeployProfileError,
    RemoteResult,
};
use crate::protocol::{Action, Event, Orchestrator, ProtocolOutcome};

verus! {

/// The state that the first `n` of `events` lead to, from the state `from`.
pub open spec fn state_after(from: Orchestrator, events: Seq<Event>, n: nat) -> Orchestrator
    decreases n,
{
    if n == 0 {
        from
    } else {
        state_after(from, events, (n - 1) as nat).step_spec(events[n - 1]).0
    }
}

/// What the orchestrator answers to the event at `i`.
pub open spec fn action_at(from: Orchestrator, events: Seq<Event>, i: int) -> Option<Action> {
    state_after(from, events, i as nat).step_spec(events[i]).1
}

/// Whether `events` is a run from the state `from`: each event is accepted
/// where it comes.
pub open spec fn is_run(from: Orchestrator, events: Seq<Event>) -> bool {
    forall|i: int| 0 <= i < events.len() ==> (#[trigger] action_at(from, events, i)) is Some
}

/// Whether a run has come to its outcome.
pub open spec fn is_complete(from: Orchestrator, events: Seq<Event>) -> bool {
    state_after(from, events, events.len()) == Orchestrator::Finished
}

/// How many events a state can still take in, at most.
pub open spec fn events_left(state: Orchestrator) -> nat {
    match state {
        Orchestrator::Activating => 1,
        Orchestrator::Spawning => 4,
        Orchestrator::Racing { activated: false } => 3,
        Orchestrator::Racing { activated: true } => 2,
        Orchestrator::Confirming { activation: None } => 2,
        Orchestrator::Confirming { activation: Some(_) } => 1,
        Orchestrator::Draining { .. } => 1,
        Orchestrator::Failing { .. } => 1,
        Orchestrator::Finished => 0,
    }
}

/// Each accepted event brings the outcome nearer.
pub proof fn lemma_step_makes_progress(state: Orchestrator, event: Event)
    requires
        state.accepts(event),
    ensures
        events_left(state.step_spec(event).0) < events_left(state),
{
}

/// An outcome is given exactly when the state becomes `Finished`, and a
/// finished orchestrator accepts nothing more.
pub proof fn lemma_finish_is_final(state: Orchestrator, event: Event)
    ensures
        state.accepts(event) ==> (state.step_spec(event).0 == Orchestrator::Finished
            <==> state.step_spec(event).1->0 is Finish),
        !Orchestrator::Finished.accepts(event),
{
}

/// No run is longer than the number of events its first state can take in:
/// four with magic rollback, one without.
pub proof fn lemma_runs_are_bounded(from: Orchestrator, events: Seq<Event>, n: nat)
    requires
        is_run(from, events),
        n <= events.len(),
    ensures
        events_left(state_after(from, events, n)) + n <= events_left(from),
    decreases n,
{
    if n > 0 {
        lemma_runs_are_bounded(from, events, (n - 1) as nat);
        assert(action_at(from, events, n - 1) is Some);
        lemma_step_makes_progress(state_after(from, events, (n - 1) as nat), events[n - 1]);
    }
}

/// The outcome that a run has come to, if it has come to one.
pub open spec fn outcome_of(from: Orchestrator, events: Seq<Event>) -> Option<ProtocolOutcome> {
    if events.len() > 0 {
        match action_at(from, events, events.len() - 1) {
            Some(Action::Finish(outcome)) => Some(outcome),
            _ => None,
        }
    } else {
        None
    }
}

/// A run with magic rollback.
pub open spec fn is_magic_run(events: Seq<Event>) -> bool {
    is_run(Orchestrator::initial(true), events)
}

/// What the orchestrator answers to the event at `i` of a run with magic
/// rollback.
pub open spec fn magic_action_at(events: Seq<Event>, i: int) -> Option<Action> {
    action_at(Orchestrator::initial(true), events, i)
}

/// The outcome of a run with magic rollback, if it has come to one.
pub open spec fn magic_outcome(events: Seq<Event>) -> Option<ProtocolOutcome> {
    outcome_of(Orchestrator::initial(true), events)
}

/// Unfolds a run with magic rollback: it has at most four events, and each
/// of them is accepted.
proof fn lemma_magic_run_unfolds(events: Seq<Event>)
    requires
        is_magic_run(events),
    ensures
        events.len() <= 4,
        events.len() > 0 ==> magic_action_at(events, 0) is Some,
        events.len() > 1 ==> magic_action_at(events, 1) is Some,
        events.len() > 2 ==> magic_action_at(events, 2) is Some,
        events.len() > 3 ==> magic_action_at(events, 3) is Some,
{
    lemma_runs_are_bounded(Orchestrator::initial(true), events, events.len());
}

/// A failed activation ends the race. If the activation command fails before
/// the wait command has ended, the run ends there, its outcome is that
/// failure, and the confirmation is never asked for.
pub proof fn lemma_failed_activation_preempts(events: Seq<Event>, i: int, status: RemoteResult)
    requires
        is_magic_run(events),
        0 <= i < events.len(),
        events[i] == Event::ActivationExited(status),
        !ran_well(status),
        forall|j: int| 0 <= j < i ==> !(#[trigger] events[j] is WaitExited),
    ensures
        i == events.len() - 1,
        activation_outcome(status) is Err,
        magic_outcome(events) == Some(ProtocolOutcome::Failed(activation_outcome(status)->Err_0)),
        forall|k: int|
            0 <= k < events.len() ==> #[trigger] magic_action_at(events, k) != Some(Action::Confirm),
{
    reveal_with_fuel(state_after, 5);
    lemma_magic_run_unfolds(events);
}

/// The confirmation is asked for exactly once, in answer to the successful
/// wait, whether the activation has ended by then or ends later.
pub proof fn lemma_confirmation_is_asked_once(events: Seq<Event>, i: int, status: RemoteResult)
    requires
        is_magic_run(events),
        0 <= i < events.len(),
        events[i] == Event::WaitExited(status),
        ran_well(status),
    ensures
        magic_action_at(events, i) == Some(Action::Confirm),
        forall|k: int|
            0 <= k < events.len() && k != i ==> #[trigger] magic_action_at(events, k) != Some(
                Action::Confirm,
            ),
{
    reveal_with_fuel(state_after, 5);
    lemma_magic_run_unfolds(events);
}

/// The confirmation is asked for only in answer to a successful wait.
pub proof fn lemma_confirmation_follows_wait(events: Seq<Event>, k: int)
    requires
        is_magic_run(events),
        0 <= k < events.len(),
        magic_action_at(events, k) == Some(Action::Confirm),
    ensures
        events[k] matches Event::WaitExited(status) && ran_well(status),
{
    reveal_with_fuel(state_after, 5);
    lemma_magic_run_unfolds(events);
}

/// A failed confirmation is the outcome where activation and wait both went
/// through, in whatever order the three have ended.
pub proof fn lemma_failed_confirmation_surfaces(
    events: Seq<Event>,
    a: int,
    w: int,
    c: int,
    activation: RemoteResult,
    wait: RemoteResult,
    error: ConfirmProfileError,
)
    requires
        is_magic_run(events),
        0 <= a < events.len(),
        0 <= w < events.len(),
        0 <= c < events.len(),
        events[a] == Event::ActivationExited(activation),
        events[w] == Event::WaitExited(wait),
        events[c] == Event::Confirmed(Err(error)),
        ran_well(activation),
        ran_well(wait),
    ensures
        is_complete(Orchestrator::initial(true), events),
        magic_outcome(events) == Some(
            ProtocolOutcome::Failed(DeployProfileError::ConfirmError(error)),
        ),
{
    reveal_with_fuel(state_after, 5);
    lemma_magic_run_unfolds(events);
}

/// A failed activation is the outcome of every complete run in which the
/// wait command has not failed, also where the wait and the confirmation
/// had gone through before the activation ended.
pub proof fn lemma_failed_activation_surfaces(events: Seq<Event>, i: int, status: RemoteResult)
    requires
        is_magic_run(events),
        is_complete(Orchestrator::initial(true), events),
        0 <= i < events.len(),
        events[i] == Event::ActivationExited(status),
        !ran_well(status),
        forall|j: int|
            0 <= j < events.len() ==> !(#[trigger] events[j] matches Event::WaitExited(wait)
                && !ran_well(wait)),
    ensures
        activation_outcome(status) is Err,
        magic_outcome(events) == Some(ProtocolOutcome::Failed(activation_outcome(status)->Err_0)),
{
    reveal_with_fuel(state_after, 5);
    lemma_magic_run_unfolds(events);
    assert(!(events[1] matches Event::WaitExited(wait) && !ran_well(wait)));
}

/// A failed wait is the outcome of every complete run in which it occurs,
/// however the activation ends. The confirmation is then never asked for.
pub proof fn lemma_failed_wait_surfaces(events: Seq<Event>, i: int, status: RemoteResult)
    requires
        is_magic_run(events),
        is_complete(Orchestrator::initial(true), events),
        0 <= i < events.len(),
        events[i] == Event::WaitExited(status),
        !ran_well(status),
    ensures
        wait_outcome(status) is Err,
        magic_outcome(events) == Some(ProtocolOutcome::Failed(wait_outcome(status)->Err_0)),
        forall|k: int|
            0 <= k < events.len() ==> #[trigger] magic_action_at(events, k) != Some(Action::Confirm),
{
    reveal_with_fuel(state_after, 5);
    lemma_magic_run_unfolds(events);
}

/// No outcome is given while the activation is running: a complete run in
/// which the activation was started holds the end of the activation.
pub proof fn lemma_activation_is_awaited(events: Seq<Event>)
    requires
        is_magic_run(events),
        is_complete(Orchestrator::initial(true), events),
        events.len() > 0,
        events[0] matches Event::Spawned(Ok(_)),
    ensures
        exists|i: int| 0 <= i < events.len() && #[trigger] events[i] is ActivationExited,
{
    reveal_with_fuel(state_after, 5);
    lemma_magic_run_unfolds(events);
    if events.len() > 1 && !(events[1] is ActivationExited) {
        if !(events[2] is ActivationExited) {
            assert(events[3] is ActivationExited);
        }
    }
}

/// Success is whole. With magic rollback a run ends well only as activated
/// and confirmed, and only if the activation, the wait and the confirmation
/// have each ended well.
pub proof fn lemma_success_is_whole(events: Seq<Event>)
    requires
        is_magic_run(events),
        magic_outcome(events) matches Some(outcome) && outcome.result() is Ok,
    ensures
        magic_outcome(events) == Some(ProtocolOutcome::ActivatedAndConfirmed),
        events.len() == 4,
        exists|a: int|
            0 <= a < 4 && (#[trigger] events[a] matches Event::ActivationExited(status)
                && ran_well(status)),
        exists|w: int|
            0 <= w < 4 && (#[trigger] events[w] matches Event::WaitExited(status) && ran_well(
                status,
            )),
        exists|c: int| 0 <= c < 4 && (#[trigger] events[c] matches Event::Confirmed(Ok(_))),
{
    reveal_with_fuel(state_after, 5);
    lemma_magic_run_unfolds(events);
    assert(events[0] matches Event::Spawned(Ok(_)));
    if events[1] is ActivationExited {
        assert(events[1] matches Event::ActivationExited(status) && ran_well(status));
        assert(events[2] matches Event::WaitExited(status) && ran_well(status));
        assert(events[3] matches Event::Confirmed(Ok(_)));
    } else {
        assert(events[1] matches Event::WaitExited(status) && ran_well(status));
        if events[2] is ActivationExited {
            assert(events[2] matches Event::ActivationExited(status) && ran_well(status));
            assert(events[3] matches Event::Confirmed(Ok(_)));
        } else {
            assert(events[2] matches Event::Confirmed(Ok(_)));
            assert(events[3] matches Event::ActivationExited(status) && ran_well(status));
        }
    }
}

/// Where the activation, the wait and the confirmation have each ended well,
/// the outcome is activated and confirmed.
pub proof fn lemma_all_well_is_success(
    events: Seq<Event>,
    a: int,
    w: int,
    c: int,
    activation: RemoteResult,
    wait: RemoteResult,
)
    requires
        is_magic_run(events),
        0 <= a < events.len(),
        0 <= w < events.len(),
        0 <= c < events.len(),
        events[a] == Event::ActivationExited(activation),
        events[w] == Event::WaitExited(wait),
        events[c] matches Event::Confirmed(Ok(_)),
        ran_well(activation),
        ran_well(wait),
    ensures
        magic_outcome(events) == Some(ProtocolOutcome::ActivatedAndConfirmed),
{
    reveal_with_fuel(state_after, 5);
    lemma_magic_run_unfolds(events);
}

/// Without magic rollback a run is the end of the activation command and
/// nothing else: its exit is the outcome, and neither wait nor confirmation
/// is ever asked for.
pub proof fn lemma_simple_run(events: Seq<Event>)
    requires
        is_run(Orchestrator::initial(false), events),
        events.len() > 0,
    ensures
        events.len() == 1,
        events[0] is ActivationExited,
        outcome_of(Orchestrator::initial(false), events) == Some(
            crate::protocol::simple_conclusion(activation_outcome(events[0]->ActivationExited_0)),
        ),
{
    reveal_with_fuel(state_after, 2);
    lemma_runs_are_bounded(Orchestrator::initial(false), events, events.len());
    assert(action_at(Orchestrator::initial(false), events, 0) is Some);
}

} // verus!
