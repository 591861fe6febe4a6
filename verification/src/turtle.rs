//! The public agent handle: an opaque index into the session's registry.
//!
//! A `Turtle` is issued by [`Turtle::new`] and stays valid for the life of
//! the session — handles are dense, assigned in creation order, never
//! reused and never removed.  Each geometry or state method performs the
//! mutation half of the mutate-and-wait protocol: it applies a pure,
//! tagged mutation to this agent's record and hands back the rendezvous
//! ticket; the caller then blocks on [`crate::session::Session::wait_step`]
//! until the next completed render tick acknowledges the change.
//!
//! Angles are taken in thousandths of a degree, coordinates and sizes in
//! thousandths of a unit.  Moving forward needs the displacement along the
//! heading, which is trigonometry — the job of the geometry collaborator
//! outside this core — so [`Turtle::forward`] takes the resolved
//! displacement and captures the trail segment exactly like an absolute
//! jump does.

use vstd::prelude::*;

use crate::registry::{AgentRecord, Mutation};
use crate::session::{mutation_outcome, Session, SessionModel};
use crate::trail::ColorRgba;
use crate::TurtError;

verus! {

/// A stable handle to one agent of a session.
#[derive(Clone, Copy, Debug, PartialEq, Eq, Structural)]
pub struct Turtle {
    id: usize,
}

impl View for Turtle {
    type V = usize;

    closed spec fn view(&self) -> usize {
        self.id
    }
}

impl Turtle {
    /// Register a fresh agent and hand out its handle: the number of
    /// agents registered before the call, so concurrent creations receive
    /// dense, distinct handles in creation order.
    pub fn new(session: &mut Session) -> (turtle: Turtle)
        requires
            old(session).wf(),
        ensures
            final(session).wf(),
            turtle@ == old(session)@.agents.len(),
            final(session)@ == (SessionModel {
                agents: old(session)@.agents.push(AgentRecord::default_model()),
                ..old(session)@
            }),
    {
        Turtle { id: session.create_agent() }
    }

    /// The handle's index into the registry.
    pub fn id(&self) -> (id: usize)
        ensures
            id == self@,
    {
        self.id
    }

    /// Jump to the absolute position `(x, y)` (thousandths of a unit),
    /// capturing the segment from the old to the new position in the
    /// current color.
    pub fn set_pos(&self, session: &mut Session, x: i64, y: i64) -> (outcome: Result<
        u64,
        TurtError,
    >)
        requires
            old(session).wf(),
        ensures
            final(session).wf(),
            mutation_outcome(
                old(session)@,
                final(session)@,
                self@,
                (Mutation::SetPos { x, y }),
                outcome,
            ),
    {
        session.mutate(self.id, Mutation::SetPos { x, y })
    }

    /// Move by the displacement `(dx, dy)` that the geometry collaborator
    /// resolved along the current heading, clipped at the representable
    /// range, capturing the segment from the old to the new position in
    /// the current color.
    pub fn forward(&self, session: &mut Session, dx: i64, dy: i64) -> (outcome: Result<
        u64,
        TurtError,
    >)
        requires
            old(session).wf(),
        ensures
            final(session).wf(),
            mutation_outcome(
                old(session)@,
                final(session)@,
                self@,
                (Mutation::Translate { dx, dy }),
                outcome,
            ),
    {
        session.mutate(self.id, Mutation::Translate { dx, dy })
    }

    /// Turn counter-clockwise by `mdeg` thousandths of a degree; the
    /// heading stays normalized into a full turn, however large the
    /// operand.
    pub fn left(&self, session: &mut Session, mdeg: i64) -> (outcome: Result<u64, TurtError>)
        requires
            old(session).wf(),
        ensures
            final(session).wf(),
            mutation_outcome(
                old(session)@,
                final(session)@,
                self@,
                (Mutation::TurnLeft { mdeg }),
                outcome,
            ),
    {
        session.mutate(self.id, Mutation::TurnLeft { mdeg })
    }

    /// Turn clockwise by `mdeg` thousandths of a degree; the heading stays
    /// normalized into a full turn, however large the operand.
    pub fn right(&self, session: &mut Session, mdeg: i64) -> (outcome: Result<u64, TurtError>)
        requires
            old(session).wf(),
        ensures
            final(session).wf(),
            mutation_outcome(
                old(session)@,
                final(session)@,
                self@,
                (Mutation::TurnRight { mdeg }),
                outcome,
            ),
    {
        session.mutate(self.id, Mutation::TurnRight { mdeg })
    }

    /// Overwrite the drawing color; no trail segment is captured.
    pub fn set_color(&self, session: &mut Session, r: u8, g: u8, b: u8, a: u8) -> (outcome: Result<
        u64,
        TurtError,
    >)
        requires
            old(session).wf(),
        ensures
            final(session).wf(),
            mutation_outcome(
                old(session)@,
                final(session)@,
                self@,
                (Mutation::SetColor { color: ColorRgba { r, g, b, a } }),
                outcome,
            ),
    {
        session.mutate(self.id, Mutation::SetColor { color: ColorRgba { r, g, b, a } })
    }

    /// Overwrite the sprite size (thousandths of a unit); no trail segment
    /// is captured.
    pub fn set_size(&self, session: &mut Session, width: i64, height: i64) -> (outcome: Result<
        u64,
        TurtError,
    >)
        requires
            old(session).wf(),
        ensures
            final(session).wf(),
            mutation_outcome(
                old(session)@,
                final(session)@,
                self@,
                (Mutation::SetSize { width, height }),
                outcome,
            ),
    {
        session.mutate(self.id, Mutation::SetSize { width, height })
    }

    /// Bound this agent's trail history to `max_depth` buffered
    /// operations.  Takes effect on the next push: shrinking the bound
    /// does not retroactively evict entries already buffered.
    pub fn max_hist(&self, session: &mut Session, max_depth: usize) -> (outcome: Result<
        u64,
        TurtError,
    >)
        requires
            old(session).wf(),
        ensures
            final(session).wf(),
            mutation_outcome(
                old(session)@,
                final(session)@,
                self@,
                (Mutation::SetMaxHistory { max_depth }),
                outcome,
            ),
    {
        session.mutate(self.id, Mutation::SetMaxHistory { max_depth })
    }

    /// Bound the whole session's tick rate to at most `fps` ticks per
    /// second, from the next tick decision onward.
    pub fn set_max_fps(session: &mut Session, fps: u32)
        requires
            fps >= 1,
        ensures
            final(session)@ == (SessionModel {
                min_interval_nanos: (crate::NANOS_PER_SEC as int / fps as int) as u64,
                ..old(session)@
            }),
            old(session).wf() ==> final(session).wf(),
    {
        session.set_max_tick_rate(fps);
    }
}

} // verus!
