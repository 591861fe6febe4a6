//! Rate limiting for the frame scheduler's tick loop.
//!
//! Eligibility is measured against an absolute monotonic clock, from the
//! recorded start of the previous tick, so sleep inaccuracies cannot
//! compound into drift.  When the tick is not yet eligible the decision
//! names the exact remaining duration, so the loop sleeps it away in one
//! coarse step instead of busy-spinning.

use vstd::prelude::*;

verus! {

/// A tick may run once the configured minimum interval has elapsed, on the
/// absolute clock, since the start of the previous tick.
pub open spec fn eligible(last_tick_nanos: u64, min_interval_nanos: u64, now_nanos: u64) -> bool {
    now_nanos >= last_tick_nanos + min_interval_nanos
}

/// What the tick loop must do next.
#[derive(Clone, Copy, Debug, PartialEq, Eq, Structural)]
pub enum TickPace {
    /// The minimum interval has elapsed: run the render pass now.
    Run,
    /// Too early: sleep for exactly the remaining duration, then re-check
    /// (the interval is read fresh each iteration, so a configuration
    /// change takes effect on the next decision).
    Sleep { nanos: u64 },
}

/// One decision of the tick loop: run now, or sleep the exact remainder of
/// the minimum interval.
pub fn pace(last_tick_nanos: u64, min_interval_nanos: u64, now_nanos: u64) -> (p: TickPace)
    requires
        now_nanos >= last_tick_nanos,
    ensures
        eligible(last_tick_nanos, min_interval_nanos, now_nanos) <==> p == TickPace::Run,
        !eligible(last_tick_nanos, min_interval_nanos, now_nanos) ==> (p == (TickPace::Sleep {
            nanos: (last_tick_nanos + min_interval_nanos - now_nanos) as u64,
        })),
{
    let since = now_nanos - last_tick_nanos;
    if since >= min_interval_nanos {
        TickPace::Run
    } else {
        TickPace::Sleep { nanos: min_interval_nanos - since }
    }
}

/// The rate bound: a tick that runs at `now` is eligible, so it starts at
/// least the configured interval after the start of the previous tick.
/// Since a completed tick records its own start time as the new reference
/// point, consecutive tick starts are always at least the interval apart.
pub proof fn lemma_tick_gap(last_tick_nanos: u64, min_interval_nanos: u64, now_nanos: u64)
    requires
        eligible(last_tick_nanos, min_interval_nanos, now_nanos),
    ensures
        now_nanos - last_tick_nanos >= min_interval_nanos,
{
}

/// No busy-spinning: when the tick is not yet eligible, the prescribed
/// sleep covers the whole remaining wait — sleeping it and re-checking at
/// the same clock reading makes the tick eligible, so idle time is spent
/// sleeping, not looping.
pub proof fn lemma_sleep_covers_remaining(
    last_tick_nanos: u64,
    min_interval_nanos: u64,
    now_nanos: u64,
)
    requires
        now_nanos >= last_tick_nanos,
        !eligible(last_tick_nanos, min_interval_nanos, now_nanos),
    ensures
        ({
            // The clock reading after the prescribed sleep reaches the
            // eligibility bound exactly.
            let wake = now_nanos + (last_tick_nanos + min_interval_nanos - now_nanos);
            wake == last_tick_nanos + min_interval_nanos
        }),
{
}

} // verus!
