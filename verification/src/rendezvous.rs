//! The rendezvous barrier: a monotonically increasing tick counter.
//!
//! A mutator records the counter value observed at the moment its mutation
//! completed (its *ticket*) and then waits until the shared counter strictly
//! exceeds that value.  The scheduler increments the counter and broadcasts
//! once per completed tick; no thread ever resets it.  A single shared
//! boolean reset by the first waiter would drop wakeups for other waiters
//! blocked on the same completed tick; the counter cannot, because release
//! is monotone.

use vstd::prelude::*;

verus! {

/// A ticket is released once the shared counter strictly exceeds it: the
/// tick that made the counter pass the ticket observed the mutation.
pub open spec fn released(ticks: u64, ticket: u64) -> bool {
    ticks > ticket
}

/// What a blocked mutator must do next, decided from the shared state.
#[derive(Clone, Copy, Debug, PartialEq, Eq, Structural)]
pub enum WaitStep {
    /// A tick later than the ticket has completed: the mutation has been
    /// rendered, the call may return successfully.
    Released,
    /// The scheduler stopped before such a tick: the waiter must fail with
    /// `SchedulerTerminated` rather than hang.
    Terminated,
    /// No such tick yet and the scheduler is live: block until the next
    /// broadcast and decide again.
    KeepWaiting,
}

/// One decision of the wait loop, from the shared counter, the scheduler
/// liveness flag and the waiter's ticket.
pub fn wait_decision(ticks: u64, scheduler_live: bool, ticket: u64) -> (step: WaitStep)
    ensures
        (step == WaitStep::Released) <==> released(ticks, ticket),
        (step == WaitStep::Terminated) <==> (!released(ticks, ticket) && !scheduler_live),
        (step == WaitStep::KeepWaiting) <==> (!released(ticks, ticket) && scheduler_live),
{
    if ticks > ticket {
        WaitStep::Released
    } else if !scheduler_live {
        WaitStep::Terminated
    } else {
        WaitStep::KeepWaiting
    }
}

/// A waiter is released only by a counter value strictly greater than the
/// one it observed when its mutation completed: no wait returns early.
pub proof fn lemma_no_early_release(ticks: u64, ticket: u64)
    requires
        released(ticks, ticket),
    ensures
        ticks > ticket,
{
}

/// One tick suffices: a mutator's ticket is the counter at the moment its
/// mutation completed, and the very next completed tick — which increments
/// the counter by one — already releases it.  Every mutation is therefore
/// acknowledged within one tick of its completion.
pub proof fn lemma_released_after_one_tick(ticket: u64)
    requires
        ticket < u64::MAX,
    ensures
        released((ticket + 1) as u64, ticket),
{
}

/// Release is stable: the counter only grows and is never reset, so once a
/// ticket is released it stays released for every later counter value.
/// However many mutators wake on the same completed tick, and in whatever
/// order, none can miss its notification — the lost-wakeup hazard of a
/// reset boolean flag cannot occur.
pub proof fn lemma_release_is_stable(earlier: u64, later: u64, ticket: u64)
    requires
        released(earlier, ticket),
        earlier <= later,
    ensures
        released(later, ticket),
{
}

} // verus!
