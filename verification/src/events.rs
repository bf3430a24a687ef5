//! Peripheral event loop decisions: what the status-serving task does with
//! each outcome of waiting for a hardware-signaled access.
//!
//! The loop itself lives with the peripheral driver (it owns the handle and
//! the only suspension point); the decision of how to answer each outcome is
//! pure and verified here. A channel-0 access must be completed so the host
//! can release the stalled bus cycle; a wait failure is absorbed and the
//! loop re-enters waiting, since losing one event must not take down the
//! status-serving path.

use vstd::prelude::*;

verus! {

/// A host access through one indexed channel: direction of the transfer,
/// its length and its offset inside the shared region.
#[derive(Clone, Copy, PartialEq, Eq, Structural, Debug)]
pub struct AccessEvent {
    /// True for a host write into the region, false for a host read.
    pub write: bool,
    /// Length of the access in bytes.
    pub length: usize,
    /// Offset of the access inside the shared region.
    pub offset: usize,
}

/// Everything the peripheral driver can report from one wait.
#[derive(Clone, Copy, PartialEq, Eq, Structural, Debug)]
pub enum EspiEvent {
    /// Access on channel 0: the one channel this design must complete.
    Channel0(AccessEvent),
    /// Access on channel 1: observed, completion is staged future work.
    Channel1(AccessEvent),
    /// Access on channel 2: observed, completion is staged future work.
    Channel2(AccessEvent),
    /// Access on channel 3: observed, completion is staged future work.
    Channel3(AccessEvent),
    /// Access on channel 4: observed, completion is staged future work.
    Channel4(AccessEvent),
    /// A write to the fixed diagnostic port.
    DiagnosticPort,
    /// A side-band signal changed state.
    WireChange,
}

/// The peripheral wait call failed; the event, if any, is lost.
#[derive(Clone, Copy, PartialEq, Eq, Structural, Debug)]
pub struct WaitError;

/// What the loop does before re-entering waiting.
#[derive(Clone, Copy, PartialEq, Eq, Structural, Debug)]
pub enum EventAction {
    /// Acknowledge the pending transaction on the carried channel so the
    /// peripheral can release the host-side bus cycle.
    Complete(usize),
    /// Note the event and take no further action; the non-zero channels,
    /// the diagnostic port and side-band changes are not yet projected into
    /// the shared store.
    Observe,
    /// Absorb a wait failure without mutating anything; the loop stays
    /// alive and waits again.
    Recover,
}

/// The action owed for one wait outcome.
pub open spec fn action_for(outcome: Result<EspiEvent, WaitError>) -> EventAction {
    match outcome {
        Ok(EspiEvent::Channel0(_)) => EventAction::Complete(0),
        Ok(_) => EventAction::Observe,
        Err(_) => EventAction::Recover,
    }
}

/// Decide how to answer one wait outcome. Exactly a channel-0 access yields
/// a completion, and it completes channel 0; every other event is observed
/// only, and a failed wait is absorbed. The loop then always returns to
/// waiting, so each channel-0 access is acknowledged exactly once.
pub fn service_event(outcome: &Result<EspiEvent, WaitError>) -> (a: EventAction)
    ensures
        a == action_for(*outcome),
        a is Complete <==> (*outcome matches Ok(e) && e is Channel0),
        a is Complete ==> a->0 == 0,
        *outcome is Err ==> a is Recover,
{
    match outcome {
        Ok(EspiEvent::Channel0(_)) => EventAction::Complete(0),
        Ok(_) => EventAction::Observe,
        Err(_) => EventAction::Recover,
    }
}

/// How many completions a run of wait outcomes owes, served one at a time
/// in arrival order.
pub open spec fn completions_owed(outcomes: Seq<Result<EspiEvent, WaitError>>) -> nat
    decreases outcomes.len(),
{
    if outcomes.len() == 0 {
        0
    } else {
        completions_owed(outcomes.drop_last()) + (if action_for(outcomes.last())
            is Complete {
            1nat
        } else {
            0nat
        })
    }
}

/// How many channel-0 accesses a run of wait outcomes holds.
pub open spec fn channel0_accesses(outcomes: Seq<Result<EspiEvent, WaitError>>) -> nat
    decreases outcomes.len(),
{
    if outcomes.len() == 0 {
        0
    } else {
        channel0_accesses(outcomes.drop_last()) + (if outcomes.last() matches Ok(e) && e
            is Channel0 {
            1nat
        } else {
            0nat
        })
    }
}

/// Over any run of wait outcomes, the loop issues exactly one acknowledgment
/// per channel-0 access: no access is left stalling the host and none is
/// completed twice.
pub proof fn lemma_one_completion_per_access(outcomes: Seq<Result<EspiEvent, WaitError>>)
    ensures
        completions_owed(outcomes) == channel0_accesses(outcomes),
    decreases outcomes.len(),
{
    if outcomes.len() > 0 {
        lemma_one_completion_per_access(outcomes.drop_last());
    }
}

} // verus!
