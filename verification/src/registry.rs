//! The agent registry: the canonical ordered collection of agent records.
//!
//! The registry owns every record and assigns stable, dense integer handles
//! in creation order; records are never removed, so a handle stays valid for
//! the life of the session.  Mutations are expressed as tagged [`Mutation`]
//! values applied to exactly one record; the render side takes a consistent
//! snapshot of all records and drains their trail histories once per tick.

use vstd::prelude::*;

use crate::angle::{is_normalized, norm_mdeg};
use crate::trail::{push_spec, ColorRgba, HistoryLog, TrailOp};
use crate::{DEFAULT_MAX_HISTORY, DEFAULT_SIZE_MILLI, QUARTER_TURN_MDEG};
use crate::TurtError;

verus! {

/// The mathematical value of one agent record.
#[verifier::ext_equal]
pub ghost struct AgentModel {
    /// Position, in thousandths of a unit.
    pub x: i64,
    pub y: i64,
    /// Heading, in thousandths of a degree, normalized into a full turn.
    pub heading_mdeg: i64,
    /// Constant visual bias added to the heading when drawing the sprite.
    pub visual_rotation_offset_mdeg: i64,
    /// Current drawing color.
    pub color: ColorRgba,
    /// Sprite size, in thousandths of a unit.
    pub width: i64,
    pub height: i64,
    /// Buffered trail operations, oldest first.
    pub trail: Seq<TrailOp>,
    /// Bound on the trail buffer, enforced at each push.
    pub max_depth: nat,
}

impl AgentModel {
    /// A record is well formed when its heading is normalized.
    pub open spec fn wf(self) -> bool {
        is_normalized(self.heading_mdeg as int)
    }
}

/// One live agent: position, heading, visual rotation bias, color, size and
/// the bounded history of pending trail operations.
#[derive(Debug)]
pub struct AgentRecord {
    pub x: i64,
    pub y: i64,
    pub heading_mdeg: i64,
    pub visual_rotation_offset_mdeg: i64,
    pub color: ColorRgba,
    pub width: i64,
    pub height: i64,
    pub history: HistoryLog,
}

impl View for AgentRecord {
    type V = AgentModel;

    open spec fn view(&self) -> AgentModel {
        AgentModel {
            x: self.x,
            y: self.y,
            heading_mdeg: self.heading_mdeg,
            visual_rotation_offset_mdeg: self.visual_rotation_offset_mdeg,
            color: self.color,
            width: self.width,
            height: self.height,
            trail: self.history.ops@,
            max_depth: self.history.max_depth as nat,
        }
    }
}

impl AgentRecord {
    /// The documented defaults of a freshly created agent: the origin,
    /// heading zero, a quarter-turn visual bias, opaque black, the default
    /// size, an empty history with the default bound.
    pub open spec fn default_model() -> AgentModel {
        AgentModel {
            x: 0,
            y: 0,
            heading_mdeg: 0,
            visual_rotation_offset_mdeg: QUARTER_TURN_MDEG,
            color: ColorRgba::black_spec(),
            width: DEFAULT_SIZE_MILLI,
            height: DEFAULT_SIZE_MILLI,
            trail: Seq::<TrailOp>::empty(),
            max_depth: DEFAULT_MAX_HISTORY as nat,
        }
    }

    /// A fresh agent record with the documented defaults.
    pub fn new() -> (rec: AgentRecord)
        ensures
            rec@ == AgentRecord::default_model(),
            rec@.wf(),
    {
        let rec = AgentRecord {
            x: 0,
            y: 0,
            heading_mdeg: 0,
            visual_rotation_offset_mdeg: QUARTER_TURN_MDEG,
            color: ColorRgba::black(),
            width: DEFAULT_SIZE_MILLI,
            height: DEFAULT_SIZE_MILLI,
            history: HistoryLog::new(DEFAULT_MAX_HISTORY),
        };
        proof {
            assert(rec@ =~= AgentRecord::default_model());
        }
        rec
    }

    /// Apply one mutation, capturing a trail segment where the mutation
    /// moves the agent.
    pub fn apply(&mut self, mu: Mutation)
        requires
            old(self)@.wf(),
        ensures
            final(self)@ == apply_spec(old(self)@, mu),
            final(self)@.wf(),
    {
        match mu {
            Mutation::SetPos { x, y } => {
                let op = TrailOp {
                    from_x: self.x,
                    from_y: self.y,
                    to_x: x,
                    to_y: y,
                    color: self.color,
                };
                self.history.push(op);
                self.x = x;
                self.y = y;
            },
            Mutation::Translate { dx, dy } => {
                let nx = sat_add_i64(self.x, dx);
                let ny = sat_add_i64(self.y, dy);
                let op = TrailOp {
                    from_x: self.x,
                    from_y: self.y,
                    to_x: nx,
                    to_y: ny,
                    color: self.color,
                };
                self.history.push(op);
                self.x = nx;
                self.y = ny;
            },
            Mutation::TurnLeft { mdeg } => {
                self.heading_mdeg = crate::angle::turn_left_mdeg(self.heading_mdeg, mdeg);
            },
            Mutation::TurnRight { mdeg } => {
                self.heading_mdeg = crate::angle::turn_right_mdeg(self.heading_mdeg, mdeg);
            },
            Mutation::SetColor { color } => {
                self.color = color;
            },
            Mutation::SetSize { width, height } => {
                self.width = width;
                self.height = height;
            },
            Mutation::SetMaxHistory { max_depth } => {
                self.history.set_max_depth(max_depth);
            },
        }
        proof {
            assert(self@ =~= apply_spec(old(self)@, mu));
        }
    }
}

impl Clone for AgentRecord {
    /// A clone carries the same mathematical value, trail included.
    fn clone(&self) -> (res: AgentRecord)
        ensures
            res@ == self@,
    {
        let res = AgentRecord {
            x: self.x,
            y: self.y,
            heading_mdeg: self.heading_mdeg,
            visual_rotation_offset_mdeg: self.visual_rotation_offset_mdeg,
            color: self.color,
            width: self.width,
            height: self.height,
            history: self.history.clone(),
        };
        proof {
            assert(res@ =~= self@);
        }
        res
    }
}

/// A caller-requested change to exactly one agent record.
///
/// Closures are deliberately not used here: every mutation the public
/// surface needs is one of these tagged variants, which keeps the trail
/// history replayable and testable.
#[derive(Clone, Copy, Debug, PartialEq, Eq, Structural)]
pub enum Mutation {
    /// Jump to an absolute position, capturing a trail segment.
    SetPos { x: i64, y: i64 },
    /// Move by a displacement already resolved along the heading by the
    /// geometry collaborator, capturing a trail segment.
    Translate { dx: i64, dy: i64 },
    /// Turn counter-clockwise by thousandths of a degree.
    TurnLeft { mdeg: i64 },
    /// Turn clockwise by thousandths of a degree.
    TurnRight { mdeg: i64 },
    /// Overwrite the drawing color; no trail segment.
    SetColor { color: ColorRgba },
    /// Overwrite the sprite size; no trail segment.
    SetSize { width: i64, height: i64 },
    /// Change the trail history bound, effective on the next push.
    SetMaxHistory { max_depth: usize },
}

/// Addition on coordinates, clipped at the representable range.
pub open spec fn sat_add_i64_spec(a: i64, b: i64) -> i64 {
    if a + b > i64::MAX {
        i64::MAX
    } else if a + b < i64::MIN {
        i64::MIN
    } else {
        (a + b) as i64
    }
}

fn sat_add_i64(a: i64, b: i64) -> (r: i64)
    ensures
        r == sat_add_i64_spec(a, b),
{
    match a.checked_add(b) {
        Some(v) => v,
        None => if b > 0 {
            i64::MAX
        } else {
            i64::MIN
        },
    }
}

/// The trail segment captured when an agent moves from its current
/// position to `(to_x, to_y)`.
pub open spec fn segment_spec(m: AgentModel, to_x: i64, to_y: i64) -> TrailOp {
    TrailOp { from_x: m.x, from_y: m.y, to_x, to_y, color: m.color }
}

/// What each mutation does to a record: movement overwrites the position
/// and buffers the captured segment; turns update the normalized heading;
/// the remaining variants overwrite their field.
pub open spec fn apply_spec(m: AgentModel, mu: Mutation) -> AgentModel {
    match mu {
        Mutation::SetPos { x, y } => (AgentModel {
            x,
            y,
            trail: push_spec(m.trail, m.max_depth, segment_spec(m, x, y)),
            ..m
        }),
        Mutation::Translate { dx, dy } => {
            let nx = sat_add_i64_spec(m.x, dx);
            let ny = sat_add_i64_spec(m.y, dy);
            AgentModel {
                x: nx,
                y: ny,
                trail: push_spec(m.trail, m.max_depth, segment_spec(m, nx, ny)),
                ..m
            }
        },
        Mutation::TurnLeft { mdeg } => (AgentModel {
            heading_mdeg: norm_mdeg(m.heading_mdeg - mdeg) as i64,
            ..m
        }),
        Mutation::TurnRight { mdeg } => (AgentModel {
            heading_mdeg: norm_mdeg(m.heading_mdeg + mdeg) as i64,
            ..m
        }),
        Mutation::SetColor { color } => (AgentModel { color, ..m }),
        Mutation::SetSize { width, height } => (AgentModel { width, height, ..m }),
        Mutation::SetMaxHistory { max_depth } => (AgentModel {
            max_depth: max_depth as nat,
            ..m
        }),
    }
}

/// The canonical ordered collection of agent records.
#[derive(Debug)]
pub struct Registry {
    pub agents: Vec<AgentRecord>,
}

impl View for Registry {
    type V = Seq<AgentModel>;

    open spec fn view(&self) -> Seq<AgentModel> {
        Seq::new(self.agents@.len(), |i: int| self.agents@[i]@)
    }
}

impl Registry {
    /// Every registered record is well formed.
    pub open spec fn wf(self) -> bool {
        forall|i: int| 0 <= i < self@.len() ==> (#[trigger] self@[i]).wf()
    }

    /// An empty registry.
    pub fn new() -> (reg: Registry)
        ensures
            reg@ == Seq::<AgentModel>::empty(),
            reg.wf(),
    {
        let reg = Registry { agents: Vec::new() };
        proof {
            assert(reg@ =~= Seq::<AgentModel>::empty());
        }
        reg
    }

    /// Append a fresh default record and hand out its index.  Handles are
    /// exactly the number of agents registered before the call, so they are
    /// dense, assigned in creation order, and never reused.
    pub fn create(&mut self) -> (handle: usize)
        requires
            old(self).wf(),
        ensures
            handle == old(self)@.len(),
            final(self)@ == old(self)@.push(AgentRecord::default_model()),
            final(self).wf(),
    {
        let handle = self.agents.len();
        self.agents.push(AgentRecord::new());
        proof {
            assert(self@ =~= old(self)@.push(AgentRecord::default_model()));
        }
        handle
    }

    /// Apply one mutation to exactly one record; every other record is
    /// untouched.  A handle this registry never issued is reported as
    /// `UnknownHandle` and nothing changes.
    pub fn mutate(&mut self, handle: usize, mu: Mutation) -> (result: Result<(), TurtError>)
        requires
            old(self).wf(),
        ensures
            final(self).wf(),
            match result {
                Ok(()) => handle < old(self)@.len() && final(self)@ == old(self)@.update(
                    handle as int,
                    apply_spec(old(self)@[handle as int], mu),
                ),
                Err(e) => {
                    &&& e == TurtError::UnknownHandle
                    &&& handle >= old(self)@.len()
                    &&& final(self)@ == old(self)@
                },
            },
    {
        if handle >= self.agents.len() {
            return Err(TurtError::UnknownHandle);
        }
        proof {
            assert(old(self)@[handle as int].wf());
        }
        let rec = &mut self.agents[handle];
        proof {
            assert(rec@ == old(self)@[handle as int]);
        }
        rec.apply(mu);
        proof {
            assert(self@ =~= old(self)@.update(
                handle as int,
                apply_spec(old(self)@[handle as int], mu),
            ));
        }
        Ok(())
    }

    /// A consistent point-in-time copy of every record, trail included,
    /// usable by the renderer without holding any lock.
    pub fn snapshot(&self) -> (snap: Vec<AgentRecord>)
        ensures
            snap@.len() == self@.len(),
            forall|i: int| 0 <= i < self@.len() ==> (#[trigger] snap@[i])@ == self@[i],
    {
        let mut snap: Vec<AgentRecord> = Vec::new();
        let mut i: usize = 0;
        while i < self.agents.len()
            invariant
                i <= self.agents@.len(),
                snap@.len() == i,
                forall|j: int| 0 <= j < i ==> (#[trigger] snap@[j])@ == self@[j],
            decreases self.agents@.len() - i,
        {
            snap.push(self.agents[i].clone());
            i = i + 1;
        }
        snap
    }

    /// Empty every record's trail history, leaving all other fields as they
    /// are; the scheduler calls this once per tick after taking a snapshot.
    pub fn drain_all(&mut self)
        requires
            old(self).wf(),
        ensures
            final(self)@.len() == old(self)@.len(),
            forall|i: int|
                0 <= i < old(self)@.len() ==> final(self)@[i] == drained_model(
                    #[trigger] old(self)@[i],
                ),
            final(self).wf(),
    {
        let n = self.agents.len();
        let mut i: usize = 0;
        while i < n
            invariant
                i <= n,
                n == self.agents@.len(),
                self.agents@.len() == old(self).agents@.len(),
                forall|j: int| 0 <= j < i ==> self@[j] == drained_model(#[trigger] old(self)@[j]),
                forall|j: int| i <= j < n ==> self.agents@[j] == old(self).agents@[j],
            decreases n - i,
        {
            let rec = &mut self.agents[i];
            rec.history.ops.clear();
            proof {
                assert(self@[i as int] =~= drained_model(old(self)@[i as int]));
            }
            i = i + 1;
        }
        proof {
            assert forall|k: int| 0 <= k < self@.len() implies (#[trigger] self@[k]).wf() by {
                assert(self@[k] == drained_model(old(self)@[k]));
                assert(old(self)@[k].wf());
            }
        }
    }
}

/// A record after its trail history was drained: everything else as before,
/// the buffer empty.
pub open spec fn drained_model(m: AgentModel) -> AgentModel {
    AgentModel { trail: Seq::<TrailOp>::empty(), ..m }
}

/// The registry contents after `n` consecutive creations, each of which
/// appends one default record (exactly what `create` is specified to do).
pub open spec fn after_creates(agents: Seq<AgentModel>, n: nat) -> Seq<AgentModel>
    decreases n,
{
    if n == 0 {
        agents
    } else {
        after_creates(agents, (n - 1) as nat).push(AgentRecord::default_model())
    }
}

/// Handles are dense, with no duplicates and no gaps: the i-th of `n`
/// consecutive creations runs on a registry holding `agents.len() + i`
/// records, so (by `create`'s contract) it returns the handle
/// `agents.len() + i`; together the `n` creations return exactly the
/// handles from `agents.len()` up to `agents.len() + n - 1`, regardless of
/// which caller issued which creation.
pub proof fn lemma_creation_handles_dense(agents: Seq<AgentModel>, n: nat)
    ensures
        after_creates(agents, n).len() == agents.len() + n,
        forall|i: nat|
            i < n ==> #[trigger] after_creates(agents, i).len() == agents.len() + i,
    decreases n,
{
    if n > 0 {
        lemma_creation_handles_dense(agents, (n - 1) as nat);
    }
}

} // verus!
