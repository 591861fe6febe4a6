//! One graphics session: the shared state that workers and the scheduler
//! agree on.
//!
//! A session bundles the agent registry, the rendezvous tick counter, the
//! scheduler configuration and the scheduler liveness flag into a single
//! explicitly constructed value — one instance per process, created before
//! the first agent and shared (behind the caller's lock) between all worker
//! threads and the one scheduler thread.  Every operation here is a single
//! step of the protocol: the surrounding program serializes the steps,
//! blocks between them, performs the drawing and reads the clock.

use vstd::prelude::*;

use crate::registry::{
    apply_spec, drained_model, AgentModel, AgentRecord, Mutation, Registry,
};
use crate::rendezvous::{released, wait_decision, WaitStep};
use crate::scheduler::{eligible, pace, TickPace};
use crate::TurtError;
use crate::{DEFAULT_MIN_INTERVAL_NANOS, NANOS_PER_SEC};

verus! {

/// The mathematical value of a session.
#[verifier::ext_equal]
pub ghost struct SessionModel {
    /// The registered agents, in creation order.
    pub agents: Seq<AgentModel>,
    /// Completed render ticks; the rendezvous counter.
    pub ticks: u64,
    /// Minimum interval between two tick starts, in nanoseconds.
    pub min_interval_nanos: u64,
    /// Absolute clock reading at the start of the previous tick.
    pub last_tick_nanos: u64,
    /// Whether the scheduler is still running; cleared by a fatal render
    /// failure, after which waiters fail instead of hanging.
    pub scheduler_live: bool,
}

impl SessionModel {
    /// The state of a freshly started session: no agents, no completed
    /// tick, the default tick rate, a live scheduler.
    pub open spec fn initial() -> SessionModel {
        SessionModel {
            agents: Seq::<AgentModel>::empty(),
            ticks: 0,
            min_interval_nanos: DEFAULT_MIN_INTERVAL_NANOS,
            last_tick_nanos: 0,
            scheduler_live: true,
        }
    }
}

/// What a completed `mutate` call reports, relating the session before and
/// after: on success the ticket is the tick counter observed at the moment
/// the mutation completed, exactly one record has the mutation applied, and
/// nothing else moved; after the scheduler has stopped, or for a handle the
/// registry never issued, the session is unchanged and the error says which
/// condition held.
pub open spec fn mutation_outcome(
    pre: SessionModel,
    post: SessionModel,
    handle: usize,
    mu: Mutation,
    outcome: Result<u64, TurtError>,
) -> bool {
    match outcome {
        Ok(ticket) => {
            &&& pre.scheduler_live
            &&& handle < pre.agents.len()
            &&& ticket == pre.ticks
            &&& post == (SessionModel {
                agents: pre.agents.update(handle as int, apply_spec(pre.agents[handle as int], mu)),
                ..pre
            })
        },
        Err(TurtError::SchedulerTerminated) => {
            &&& !pre.scheduler_live
            &&& post == pre
        },
        Err(TurtError::UnknownHandle) => {
            &&& pre.scheduler_live
            &&& handle >= pre.agents.len()
            &&& post == pre
        },
    }
}

/// One graphics session; see the module documentation.
#[derive(Debug)]
pub struct Session {
    /// The canonical agent records.
    pub registry: Registry,
    /// Completed render ticks; the rendezvous counter.
    pub ticks: u64,
    /// Minimum interval between two tick starts, in nanoseconds.
    pub min_interval_nanos: u64,
    /// Absolute clock reading at the start of the previous tick.
    pub last_tick_nanos: u64,
    /// Whether the scheduler thread is still running.
    pub scheduler_live: bool,
}

impl View for Session {
    type V = SessionModel;

    open spec fn view(&self) -> SessionModel {
        SessionModel {
            agents: self.registry@,
            ticks: self.ticks,
            min_interval_nanos: self.min_interval_nanos,
            last_tick_nanos: self.last_tick_nanos,
            scheduler_live: self.scheduler_live,
        }
    }
}

/// What the scheduler's tick loop does at one clock reading.
#[derive(Debug)]
pub enum TickStep {
    /// The minimum interval has not yet elapsed: sleep exactly this long,
    /// then decide again.
    Sleep { nanos: u64 },
    /// A tick ran: render these consistent record copies (their trail
    /// buffers hold the operations drained by this tick, oldest first),
    /// then broadcast to the waiters.
    Frame { snapshot: Vec<AgentRecord> },
}

impl Session {
    /// Every registered agent is well formed.
    pub open spec fn wf(self) -> bool {
        self.registry.wf()
    }

    /// Start a session: no agents, no completed tick, the default tick
    /// rate, a live scheduler.
    pub fn new() -> (session: Session)
        ensures
            session@ == SessionModel::initial(),
            session.wf(),
    {
        let session = Session {
            registry: Registry::new(),
            ticks: 0,
            min_interval_nanos: DEFAULT_MIN_INTERVAL_NANOS,
            last_tick_nanos: 0,
            scheduler_live: true,
        };
        proof {
            assert(session@ =~= SessionModel::initial());
        }
        session
    }

    /// Register a fresh agent with the documented defaults and hand out its
    /// handle: the number of agents registered before the call.
    pub fn create_agent(&mut self) -> (handle: usize)
        requires
            old(self).wf(),
        ensures
            final(self).wf(),
            handle == old(self)@.agents.len(),
            final(self)@ == (SessionModel {
                agents: old(self)@.agents.push(AgentRecord::default_model()),
                ..old(self)@
            }),
    {
        let handle = self.registry.create();
        proof {
            assert(self@ =~= (SessionModel {
                agents: old(self)@.agents.push(AgentRecord::default_model()),
                ..old(self)@
            }));
        }
        handle
    }

    /// Apply one mutation to one agent and hand back the rendezvous ticket:
    /// the tick counter observed at the moment the mutation completed.  The
    /// caller then blocks until `wait_step` on that ticket says `Released`
    /// — by which time a render tick has observed the change — or fails
    /// with the error `wait_step` reports.  After the scheduler has stopped
    /// the mutation is refused outright, so no caller starts a wait that
    /// could never end.
    pub fn mutate(&mut self, handle: usize, mu: Mutation) -> (outcome: Result<u64, TurtError>)
        requires
            old(self).wf(),
        ensures
            final(self).wf(),
            mutation_outcome(old(self)@, final(self)@, handle, mu, outcome),
    {
        if !self.scheduler_live {
            return Err(TurtError::SchedulerTerminated);
        }
        let ticket = self.ticks;
        match self.registry.mutate(handle, mu) {
            Ok(()) => {
                proof {
                    assert(self@ =~= (SessionModel {
                        agents: old(self)@.agents.update(
                            handle as int,
                            apply_spec(old(self)@.agents[handle as int], mu),
                        ),
                        ..old(self)@
                    }));
                }
                Ok(ticket)
            },
            Err(e) => Err(e),
        }
    }

    /// One decision of a blocked mutator, from the ticket `mutate` handed
    /// out: released once a strictly later tick has completed, failed once
    /// the scheduler has stopped first, otherwise keep waiting for the next
    /// broadcast.
    pub fn wait_step(&self, ticket: u64) -> (step: WaitStep)
        ensures
            (step == WaitStep::Released) <==> released(self@.ticks, ticket),
            (step == WaitStep::Terminated) <==> (!released(self@.ticks, ticket)
                && !self@.scheduler_live),
            (step == WaitStep::KeepWaiting) <==> (!released(self@.ticks, ticket)
                && self@.scheduler_live),
    {
        wait_decision(self.ticks, self.scheduler_live, ticket)
    }

    /// One iteration of the scheduler's tick loop at the given reading of
    /// the absolute monotonic clock.  Too early: the step names the exact
    /// remaining sleep and nothing changes.  Otherwise the tick runs: a
    /// consistent snapshot is taken, every agent's trail history is drained
    /// into it (oldest first), the tick counter increments — releasing
    /// every waiter with an earlier ticket — and the tick start time is
    /// reset to `now_nanos`, measured absolutely so sleep inaccuracies do
    /// not drift.
    pub fn run_tick(&mut self, now_nanos: u64) -> (step: TickStep)
        requires
            old(self).wf(),
            now_nanos >= old(self)@.last_tick_nanos,
            old(self)@.ticks < u64::MAX,
        ensures
            final(self).wf(),
            !eligible(old(self)@.last_tick_nanos, old(self)@.min_interval_nanos, now_nanos)
                ==> ({
                &&& step matches TickStep::Sleep { nanos }
                &&& nanos == old(self)@.last_tick_nanos + old(self)@.min_interval_nanos
                    - now_nanos
                &&& final(self)@ == old(self)@
            }),
            eligible(old(self)@.last_tick_nanos, old(self)@.min_interval_nanos, now_nanos) ==> ({
                &&& step matches TickStep::Frame { snapshot }
                &&& snapshot@.len() == old(self)@.agents.len()
                &&& forall|i: int|
                    0 <= i < old(self)@.agents.len() ==> (#[trigger] snapshot@[i])@ == old(
                        self,
                    )@.agents[i]
                &&& final(self)@.agents.len() == old(self)@.agents.len()
                &&& forall|i: int|
                    0 <= i < old(self)@.agents.len() ==> final(self)@.agents[i] == drained_model(
                        #[trigger] old(self)@.agents[i],
                    )
                &&& final(self)@.ticks == old(self)@.ticks + 1
                &&& final(self)@.last_tick_nanos == now_nanos
                &&& final(self)@.min_interval_nanos == old(self)@.min_interval_nanos
                &&& final(self)@.scheduler_live == old(self)@.scheduler_live
            }),
    {
        match pace(self.last_tick_nanos, self.min_interval_nanos, now_nanos) {
            TickPace::Sleep { nanos } => TickStep::Sleep { nanos },
            TickPace::Run => {
                let snapshot = self.registry.snapshot();
                self.registry.drain_all();
                self.ticks = self.ticks + 1;
                self.last_tick_nanos = now_nanos;
                TickStep::Frame { snapshot }
            },
        }
    }

    /// Bound the tick rate: at most `fps` ticks per second, stored as the
    /// minimum inter-tick interval.  Takes effect from the next tick
    /// decision onward; a tick already in progress is unaffected.
    pub fn set_max_tick_rate(&mut self, fps: u32)
        requires
            fps >= 1,
        ensures
            final(self)@ == (SessionModel {
                min_interval_nanos: (NANOS_PER_SEC as int / fps as int) as u64,
                ..old(self)@
            }),
            old(self).wf() ==> final(self).wf(),
    {
        self.min_interval_nanos = NANOS_PER_SEC / (fps as u64);
        proof {
            assert(self@ =~= (SessionModel {
                min_interval_nanos: (NANOS_PER_SEC as int / fps as int) as u64,
                ..old(self)@
            }));
        }
    }

    /// Record that the scheduler thread has exited — after a fatal render
    /// failure, the one unrecoverable error of this core.  Current and
    /// future waiters then observe `Terminated` instead of hanging, and
    /// future mutations are refused with `SchedulerTerminated`.
    pub fn mark_scheduler_stopped(&mut self)
        ensures
            final(self)@ == (SessionModel { scheduler_live: false, ..old(self)@ }),
            old(self).wf() ==> final(self).wf(),
    {
        self.scheduler_live = false;
        proof {
            assert(self@ =~= (SessionModel { scheduler_live: false, ..old(self)@ }));
        }
    }
}

/// The mutate-and-wait guarantee, end to end: the ticket handed out by
/// `mutate` is the counter at the moment the mutation completed; the next
/// completed tick increments the counter, which releases the ticket, and
/// release can never be lost afterwards, because the counter only grows.
/// So a caller that blocks on `wait_step` returns only after a strictly
/// later tick — one whose snapshot already contained the mutation — and at
/// most one tick after the mutation completed, however many other waiters
/// wake on the same broadcast.
pub proof fn lemma_mutation_acknowledged(pre: SessionModel, post: SessionModel, ticket: u64)
    requires
        ticket == pre.ticks,
        post.ticks == pre.ticks + 1,
    ensures
        released(post.ticks, ticket),
        forall|later: u64| later >= post.ticks ==> released(later, ticket),
{
}

} // verus!
