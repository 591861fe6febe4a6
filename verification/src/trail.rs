//! Captured trail operations and the bounded per-agent history log.
//!
//! A mutation that moves an agent captures an immutable [`TrailOp`] (the
//! segment from the old to the new position, in the color current at capture
//! time).  Each agent owns a bounded FIFO of such pending operations: pushing
//! beyond the bound discards the oldest entries first, and the scheduler
//! drains the whole queue, in order, once per tick.

use vstd::prelude::*;

verus! {

/// A color with four channels, each an 8-bit fraction of full intensity.
#[derive(Clone, Copy, Debug, PartialEq, Eq, Structural)]
pub struct ColorRgba {
    pub r: u8,
    pub g: u8,
    pub b: u8,
    pub a: u8,
}

impl ColorRgba {
    /// Opaque black, the color of a freshly created agent.
    pub open spec fn black_spec() -> ColorRgba {
        (ColorRgba { r: 0, g: 0, b: 0, a: 255 })
    }

    /// Opaque black, the color of a freshly created agent.
    pub fn black() -> (c: ColorRgba)
        ensures
            c == ColorRgba::black_spec(),
    {
        ColorRgba { r: 0, g: 0, b: 0, a: 255 }
    }
}

/// An immutable, captured record of one visual trace: a segment from the
/// pre-mutation position to the post-mutation position, in the color the
/// agent had when the segment was captured.  Coordinates are in thousandths
/// of a unit.
#[derive(Clone, Copy, Debug, PartialEq, Eq, Structural)]
pub struct TrailOp {
    pub from_x: i64,
    pub from_y: i64,
    pub to_x: i64,
    pub to_y: i64,
    pub color: ColorRgba,
}

/// What pushing one operation does to a buffered queue: under a bound of
/// zero nothing is buffered at all; otherwise the oldest entries are
/// discarded until at most `max_depth - 1` remain, and the new operation is
/// appended as the newest.
pub open spec fn push_spec(ops: Seq<TrailOp>, max_depth: nat, op: TrailOp) -> Seq<TrailOp> {
    if max_depth == 0 {
        Seq::<TrailOp>::empty()
    } else if ops.len() > max_depth - 1 {
        ops.skip(ops.len() - (max_depth - 1)).push(op)
    } else {
        ops.push(op)
    }
}

/// Pushing a whole sequence of operations, oldest first.
pub open spec fn push_all_spec(ops: Seq<TrailOp>, max_depth: nat, pending: Seq<TrailOp>) -> Seq<
    TrailOp,
>
    decreases pending.len(),
{
    if pending.len() == 0 {
        ops
    } else {
        push_all_spec(push_spec(ops, max_depth, pending[0]), max_depth, pending.skip(1))
    }
}

/// The bounded FIFO of pending replay operations owned by one agent.
///
/// The bound takes effect on pushes: shrinking `max_depth` does not
/// retroactively evict entries already buffered beyond the new bound; the
/// next push performs the truncation.
#[derive(Debug)]
pub struct HistoryLog {
    /// Buffered operations, oldest first.
    pub ops: Vec<TrailOp>,
    /// Bound on the number of buffered operations, enforced at each push.
    pub max_depth: usize,
}

impl HistoryLog {
    /// An empty log with the given bound.
    pub fn new(max_depth: usize) -> (log: HistoryLog)
        ensures
            log.ops@ == Seq::<TrailOp>::empty(),
            log.max_depth == max_depth,
    {
        HistoryLog { ops: Vec::new(), max_depth }
    }

    /// Append the newest operation, discarding the oldest entries first so
    /// that afterwards at most `max_depth` are buffered.
    pub fn push(&mut self, op: TrailOp)
        ensures
            final(self).ops@ == push_spec(old(self).ops@, old(self).max_depth as nat, op),
            final(self).max_depth == old(self).max_depth,
    {
        if self.max_depth == 0 {
            self.ops.clear();
            return ;
        }
        while self.ops.len() > self.max_depth - 1
            invariant
                self.max_depth >= 1,
                self.ops@.len() <= old(self).ops@.len(),
                self.ops@.len() >= self.max_depth - 1 || self.ops@.len() == old(self).ops@.len(),
                self.ops@ == old(self).ops@.skip(old(self).ops@.len() - self.ops@.len()),
                self.max_depth == old(self).max_depth,
            decreases self.ops@.len(),
        {
            self.ops.remove(0);
            proof {
                assert(self.ops@ =~= old(self).ops@.skip(
                    old(self).ops@.len() - self.ops@.len(),
                ));
            }
        }
        self.ops.push(op);
        proof {
            assert(self.ops@ =~= push_spec(old(self).ops@, old(self).max_depth as nat, op));
        }
    }

    /// Remove every buffered operation, oldest first, leaving the queue
    /// empty; the returned vector holds them in the order they were pushed.
    pub fn drain(&mut self) -> (drained: Vec<TrailOp>)
        ensures
            drained@ == old(self).ops@,
            final(self).ops@ == Seq::<TrailOp>::empty(),
            final(self).max_depth == old(self).max_depth,
    {
        let mut drained: Vec<TrailOp> = Vec::new();
        core::mem::swap(&mut drained, &mut self.ops);
        drained
    }

    /// Change the bound; takes effect on the next push.
    pub fn set_max_depth(&mut self, max_depth: usize)
        ensures
            final(self).ops@ == old(self).ops@,
            final(self).max_depth == max_depth,
    {
        self.max_depth = max_depth;
    }
}

impl Clone for HistoryLog {
    /// A clone buffers the same operations under the same bound.
    fn clone(&self) -> (res: HistoryLog)
        ensures
            res.ops@ == self.ops@,
            res.max_depth == self.max_depth,
    {
        let mut ops: Vec<TrailOp> = Vec::new();
        let mut i: usize = 0;
        while i < self.ops.len()
            invariant
                i <= self.ops@.len(),
                ops@ == self.ops@.take(i as int),
            decreases self.ops@.len() - i,
        {
            ops.push(self.ops[i]);
            proof {
                assert(ops@ =~= self.ops@.take(i + 1));
            }
            i = i + 1;
        }
        proof {
            assert(ops@ =~= self.ops@);
        }
        HistoryLog { ops, max_depth: self.max_depth }
    }
}

/// What a run of pushes leaves buffered: the newest operations, in the
/// order they were pushed, truncated to the bound.  In particular, pushing
/// more operations than the bound allows leaves exactly `max_depth` entries,
/// the newest ones, with the oldest discarded first.
pub proof fn lemma_push_all_keeps_newest(ops: Seq<TrailOp>, max_depth: nat, pending: Seq<TrailOp>)
    requires
        max_depth >= 1,
        pending.len() >= 1,
    ensures
        ({
            let all = ops + pending;
            push_all_spec(ops, max_depth, pending) == if all.len() <= max_depth {
                all
            } else {
                all.skip(all.len() - max_depth)
            }
        }),
    decreases pending.len(),
{
    let all = ops + pending;
    let ops1 = push_spec(ops, max_depth, pending[0]);
    if pending.len() == 1 {
        if ops.len() > max_depth - 1 {
            assert(ops1 =~= all.skip(all.len() - max_depth));
        } else {
            assert(ops1 =~= all);
        }
        assert(push_all_spec(ops1, max_depth, pending.skip(1)) == ops1);
    } else {
        let rest = pending.skip(1);
        lemma_push_all_keeps_newest(ops1, max_depth, rest);
        let all1 = ops1 + rest;
        if ops.len() > max_depth - 1 {
            assert(all1 =~= all.skip(all.len() - (max_depth + rest.len())));
        } else {
            assert(all1 =~= all);
        }
        if all1.len() <= max_depth {
            assert(push_all_spec(ops, max_depth, pending) =~= if all.len() <= max_depth {
                all
            } else {
                all.skip(all.len() - max_depth)
            });
        } else {
            assert(all1.skip(all1.len() - max_depth) =~= all.skip(all.len() - max_depth));
        }
    }
}

/// The strict bound itself: once at least `max_depth` operations have been
/// pushed since the last drain, exactly `max_depth` remain buffered — the
/// newest ones, oldest discarded first.
pub proof fn lemma_history_bound(ops: Seq<TrailOp>, max_depth: nat, pending: Seq<TrailOp>)
    requires
        max_depth >= 1,
        pending.len() >= max_depth,
    ensures
        push_all_spec(ops, max_depth, pending).len() == max_depth,
        push_all_spec(ops, max_depth, pending) == (ops + pending).skip(
            (ops + pending).len() - max_depth,
        ),
{
    lemma_push_all_keeps_newest(ops, max_depth, pending);
    let all = ops + pending;
    if all.len() <= max_depth {
        assert(all =~= all.skip(all.len() - max_depth));
    }
}

} // verus!
