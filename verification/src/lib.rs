//! Synchronization core of a multi-threaded turtle-graphics engine.
//!
//! Any number of worker threads each drive one animated agent (position,
//! heading, color, size, trail) while a single consumer thread renders all
//! agents once per display tick at a bounded, configurable rate.  This crate
//! holds the verified core of that design: the agent registry with dense
//! integer handles, the bounded per-agent trail history, the monotonic
//! tick-counter rendezvous that gives mutators a synchronous "my change has
//! been rendered" acknowledgement, and the rate-limited tick step.
//!
//! Everything here works on plain integer values.  Angles are kept in
//! thousandths of a degree, coordinates and sizes in thousandths of a unit;
//! the surrounding (unverified) program converts to and from floating point,
//! runs the render loop, and blocks threads on the rendezvous.

use vstd::prelude::*;

pub mod angle;
pub mod registry;
pub mod rendezvous;
pub mod scheduler;
pub mod session;
pub mod trail;
pub mod turtle;

verus! {

/// A full turn (360 degrees) in thousandths of a degree.
pub const FULL_TURN_MDEG: i64 = 360_000;

/// A quarter turn (90 degrees) in thousandths of a degree; the default
/// visual rotation offset of a freshly created agent.
pub const QUARTER_TURN_MDEG: i64 = 90_000;

/// Default bound on the number of buffered trail operations per agent.
pub const DEFAULT_MAX_HISTORY: usize = 10;

/// Default edge length of a freshly created agent, in thousandths of a unit.
pub const DEFAULT_SIZE_MILLI: i64 = 48_000;

/// Default minimum interval between two render ticks, in nanoseconds
/// (one millisecond).
pub const DEFAULT_MIN_INTERVAL_NANOS: u64 = 1_000_000;

/// Nanoseconds in one second; used to turn a frame rate into an interval.
pub const NANOS_PER_SEC: u64 = 1_000_000_000;

/// Everything that can go wrong inside the synchronization core.
#[derive(Clone, Copy, Debug, PartialEq, Eq, Structural)]
pub enum TurtError {
    /// A handle that this registry never issued was used.
    UnknownHandle,
    /// The scheduler has stopped (for example after a render failure);
    /// no future tick will acknowledge a mutation.
    SchedulerTerminated,
}

} // verus!
