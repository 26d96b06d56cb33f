//! The correlation table: from operation identifier to the one-shot
//! completion signal of the operation that waits for it.
use vstd::prelude::*;
use std::collections::HashMap;
use async_channel::{Receiver, Sender};
use crate::channel::offer;
use crate::message::MessageId;

verus! {

broadcast use vstd::std_specs::hash::group_hash_axioms;

/// What a callback delivery came to.
#[derive(Debug, Clone, Copy, PartialEq, Eq, Structural)]
pub enum Outcome {
    /// The value went to the waiter.
    Delivered,
    /// A waiter was registered, but it had been dropped: the value was discarded.
    Discarded,
    /// No waiter was registered: the event was ignored as an anomaly.
    Unmatched,
    /// The event could not be delivered and the session is no longer useful:
    /// the engine should be asked to disconnect.
    Disconnect,
}

impl Outcome {
    /// Whether the engine should be asked to disconnect.
    pub fn needs_disconnect(&self) -> (r: bool)
        ensures
            r == (*self == Outcome::Disconnect),
    {
        match self {
            Outcome::Disconnect => true,
            _ => false,
        }
    }
}

/// The waiter that resolving `mid` in the table `t` hands out, if any.
pub open spec fn waiter_of<W>(t: Map<MessageId, W>, mid: MessageId) -> Option<W> {
    if t.contains_key(mid) {
        Some(t[mid])
    } else {
        None
    }
}

/// The outcome of an acknowledgement for `mid` in the table `t`, where
/// `sent` tells whether the waiter, if any, was still there to take it.
pub open spec fn ack_outcome<W>(t: Map<MessageId, W>, mid: MessageId, sent: bool) -> Outcome {
    if !t.contains_key(mid) {
        Outcome::Unmatched
    } else if sent {
        Outcome::Delivered
    } else {
        Outcome::Discarded
    }
}

/// A mapping from operation identifier to the sender half of the
/// completion signal that the issuing caller awaits.
pub struct PendingTable {
    waiters: HashMap<MessageId, Sender<MessageId>>,
    /// Every value that went to a waiter, with the waiter it went to, in order.
    delivered: Ghost<Seq<(Sender<MessageId>, MessageId)>>,
}

/// The delivery record after an acknowledgement of `mid` in the table `t`,
/// where `sent` tells whether the waiter, if any, took the value: the
/// waiter registered for `mid` gets `mid` itself.
pub open spec fn record_after_ack<W>(
    log: Seq<(W, MessageId)>,
    t: Map<MessageId, W>,
    mid: MessageId,
    sent: bool,
) -> Seq<(W, MessageId)> {
    if t.contains_key(mid) && sent {
        log.push((t[mid], mid))
    } else {
        log
    }
}

impl View for PendingTable {
    type V = Map<MessageId, Sender<MessageId>>;

    closed spec fn view(&self) -> Map<MessageId, Sender<MessageId>> {
        self.waiters@
    }
}

impl PendingTable {
    /// An empty table.
    pub fn new() -> (r: PendingTable)
        ensures
            r@ == Map::<MessageId, Sender<MessageId>>::empty(),
            r.deliveries() == Seq::<(Sender<MessageId>, MessageId)>::empty(),
    {
        PendingTable { waiters: HashMap::new(), delivered: Ghost(Seq::empty()) }
    }

    /// Every value that went to a waiter, with the waiter it went to, in order.
    pub closed spec fn deliveries(&self) -> Seq<(Sender<MessageId>, MessageId)> {
        self.delivered@
    }

    /// Whether a waiter is registered for `mid`.
    pub fn is_pending(&self, mid: MessageId) -> (r: bool)
        ensures
            r == self@.contains_key(mid),
    {
        self.waiters.contains_key(&mid)
    }

    /// The number of registered waiters.
    pub fn len(&self) -> (r: usize)
        ensures
            r == self@.len(),
    {
        self.waiters.len()
    }

    /// Register `tx` as the waiter for `mid`. A waiter that was registered
    /// for `mid` before is dropped, so its caller sees a closed signal.
    pub fn insert(&mut self, mid: MessageId, tx: Sender<MessageId>)
        ensures
            final(self)@ == apply_op(old(self)@, TableOp::Register { mid, waiter: tx }),
            final(self).deliveries() == old(self).deliveries(),
    {
        self.waiters.insert(mid, tx);
    }

    /// Register a new completion signal for `mid` and return the end that
    /// the caller awaits.
    pub fn register(&mut self, mid: MessageId) -> (r: Receiver<MessageId>)
        ensures
            final(self)@.contains_key(mid),
            final(self)@ == apply_op(old(self)@, TableOp::Register { mid, waiter: final(self)@[mid] }),
            final(self).deliveries() == old(self).deliveries(),
    {
        let (tx, rx) = async_channel::bounded(1);
        self.insert(mid, tx);
        rx
    }

    /// Remove the waiter for `mid` and hand it out: each waiter is read
    /// only by its removal.
    pub fn take(&mut self, mid: MessageId) -> (r: Option<Sender<MessageId>>)
        ensures
            r == handout(old(self)@, TableOp::Resolve { mid }),
            final(self)@ == apply_op(old(self)@, TableOp::Resolve { mid }),
            final(self).deliveries() == old(self).deliveries(),
    {
        self.waiters.remove(&mid)
    }

    /// Deliver the acknowledgement of `mid` to its waiter, exactly once:
    /// the entry is removed whether or not its waiter is still there, and an
    /// acknowledgement with no entry changes nothing.
    pub fn acknowledge(&mut self, mid: MessageId) -> (r: Outcome)
        ensures
            final(self)@ == apply_op(old(self)@, TableOp::Resolve { mid }),
            exists|sent: bool| r == ack_outcome(old(self)@, mid, sent),
            final(self).deliveries() == record_after_ack(
                old(self).deliveries(),
                old(self)@,
                mid,
                r == Outcome::Delivered,
            ),
    {
        match self.take(mid) {
            Some(tx) => {
                let sent = offer(&tx, mid);
                if sent {
                    proof {
                        self.delivered@ = self.delivered@.push((tx, mid));
                    }
                    assert(ack_outcome(old(self)@, mid, true) == Outcome::Delivered);
                    Outcome::Delivered
                } else {
                    assert(ack_outcome(old(self)@, mid, false) == Outcome::Discarded);
                    Outcome::Discarded
                }
            },
            None => {
                assert(ack_outcome(old(self)@, mid, false) == Outcome::Unmatched);
                Outcome::Unmatched
            },
        }
    }
}

} // verus!

verus! {

/// A step of the correlation table: a caller registers a waiter for an
/// identifier, or the bridge resolves an identifier.
pub enum TableOp<W> {
    Register { mid: MessageId, waiter: W },
    Resolve { mid: MessageId },
}

/// The table after one step.
pub open spec fn apply_op<W>(t: Map<MessageId, W>, op: TableOp<W>) -> Map<MessageId, W> {
    match op {
        TableOp::Register { mid, waiter } => t.insert(mid, waiter),
        TableOp::Resolve { mid } => t.remove(mid),
    }
}

/// The waiter that one step hands a value to, if any.
pub open spec fn handout<W>(t: Map<MessageId, W>, op: TableOp<W>) -> Option<W> {
    match op {
        TableOp::Register { .. } => None,
        TableOp::Resolve { mid } => waiter_of(t, mid),
    }
}

/// The table after a run of steps from the empty table.
pub open spec fn run_ops<W>(ops: Seq<TableOp<W>>) -> Map<MessageId, W>
    decreases ops.len(),
{
    if ops.len() == 0 {
        Map::empty()
    } else {
        apply_op(run_ops(ops.drop_last()), ops.last())
    }
}

/// The waiter that the `i`-th step of a run hands a value to, if any.
pub open spec fn handout_at<W>(ops: Seq<TableOp<W>>, i: int) -> Option<W> {
    handout(run_ops(ops.take(i)), ops[i])
}

/// Whether the `j`-th step of a run registers `waiter` for `mid`.
pub open spec fn registers<W>(ops: Seq<TableOp<W>>, j: int, mid: MessageId, waiter: W) -> bool {
    ops[j] == (TableOp::Register { mid, waiter })
}

/// Whether every registration of a run has a waiter of its own.
pub open spec fn waiters_distinct<W>(ops: Seq<TableOp<W>>) -> bool {
    forall|i: int, j: int, m1: MessageId, m2: MessageId, w: W|
        0 <= i < ops.len() && 0 <= j < ops.len() && #[trigger] registers(ops, i, m1, w)
            && #[trigger] registers(ops, j, m2, w) ==> i == j
}

proof fn lemma_prefix_handout<W>(ops: Seq<TableOp<W>>, i: int)
    requires
        0 <= i < ops.len() - 1,
    ensures
        handout_at(ops, i) == handout_at(ops.drop_last(), i),
{
    assert(ops.take(i) =~= ops.drop_last().take(i));
}

/// The facts about a run that the no-cross-talk law follows from.
proof fn lemma_run_invariant<W>(ops: Seq<TableOp<W>>)
    requires
        waiters_distinct(ops),
    ensures
        forall|m: MessageId| #[trigger] run_ops(ops).contains_key(m) ==> exists|j: int|
            0 <= j < ops.len() && registers(ops, j, m, run_ops(ops)[m]),
        forall|m: MessageId, i: int|
            #![trigger run_ops(ops).contains_key(m), handout_at(ops, i)]
            run_ops(ops).contains_key(m) && 0 <= i < ops.len() ==> handout_at(ops, i) != Some(
                run_ops(ops)[m],
            ),
        forall|i: int|
            0 <= i < ops.len() && #[trigger] handout_at(ops, i) is Some ==> exists|j: int|
                0 <= j < i && registers(ops, j, ops[i]->Resolve_mid, handout_at(ops, i)->0),
        forall|i1: int, i2: int|
            0 <= i1 < i2 < ops.len() && (#[trigger] handout_at(ops, i1)) is Some ==> handout_at(
                ops,
                i1,
            ) != #[trigger] handout_at(ops, i2),
    decreases ops.len(),
{
    if ops.len() == 0 {
        return;
    }
    let n = ops.len() as int;
    let prev = ops.drop_last();
    assert(waiters_distinct(prev)) by {
        assert forall|i: int, j: int, m1: MessageId, m2: MessageId, w: W|
            0 <= i < prev.len() && 0 <= j < prev.len() && #[trigger] registers(prev, i, m1, w)
                && #[trigger] registers(prev, j, m2, w) implies i == j by {
            assert(registers(ops, i, m1, w) && registers(ops, j, m2, w));
        }
    }
    lemma_run_invariant(prev);
    let t = run_ops(prev);
    let o = ops.last();
    assert(ops.take(n - 1) =~= prev);
    assert(handout_at(ops, n - 1) == handout(t, o));
    assert forall|i: int| 0 <= i < n - 1 implies #[trigger] handout_at(ops, i) == handout_at(prev, i)
        && ops[i] == prev[i] by {
        lemma_prefix_handout(ops, i);
    }
    assert(run_ops(ops) == apply_op(t, o));
    match o {
        TableOp::Register { mid: m0, waiter: w0 } => {
            assert(registers(ops, n - 1, m0, w0));
            assert forall|m: MessageId| #[trigger] run_ops(ops).contains_key(m) implies exists|
                j: int,
            | 0 <= j < ops.len() && registers(ops, j, m, run_ops(ops)[m]) by {
                if m != m0 {
                    let j = choose|j: int| 0 <= j < prev.len() && registers(prev, j, m, t[m]);
                    assert(ops[j] == prev[j]);
                    assert(registers(ops, j, m, run_ops(ops)[m]));
                } else {
                    assert(registers(ops, n - 1, m, run_ops(ops)[m]));
                }
            }
            assert forall|m: MessageId, i: int|
                #![trigger run_ops(ops).contains_key(m), handout_at(ops, i)]
                run_ops(ops).contains_key(m) && 0 <= i < ops.len() implies handout_at(ops, i)
                != Some(run_ops(ops)[m]) by {
                if i < n - 1 {
                    if m == m0 {
                        if handout_at(prev, i) == Some(w0) {
                            let j = choose|j: int|
                                0 <= j < i && registers(
                                    prev,
                                    j,
                                    prev[i]->Resolve_mid,
                                    handout_at(prev, i)->0,
                                );
                            assert(registers(ops, j, prev[i]->Resolve_mid, w0));
                        }
                    } else {
                        assert(t.contains_key(m));
                    }
                }
            }
            assert forall|i: int| 0 <= i < ops.len() && #[trigger] handout_at(ops, i) is Some implies exists|
                j: int,
            | 0 <= j < i && registers(ops, j, ops[i]->Resolve_mid, handout_at(ops, i)->0) by {
                let j = choose|j: int|
                    0 <= j < i && registers(prev, j, prev[i]->Resolve_mid, handout_at(prev, i)->0);
                assert(registers(ops, j, ops[i]->Resolve_mid, handout_at(ops, i)->0));
            }
        },
        TableOp::Resolve { mid: m0 } => {
            assert forall|m: MessageId| #[trigger] run_ops(ops).contains_key(m) implies exists|
                j: int,
            | 0 <= j < ops.len() && registers(ops, j, m, run_ops(ops)[m]) by {
                assert(t.contains_key(m) && run_ops(ops)[m] == t[m]);
                let j = choose|j: int| 0 <= j < prev.len() && registers(prev, j, m, t[m]);
                assert(ops[j] == prev[j]);
                assert(registers(ops, j, m, run_ops(ops)[m]));
            }
            assert forall|m: MessageId, i: int|
                #![trigger run_ops(ops).contains_key(m), handout_at(ops, i)]
                run_ops(ops).contains_key(m) && 0 <= i < ops.len() implies handout_at(ops, i)
                != Some(run_ops(ops)[m]) by {
                assert(t.contains_key(m));
                if i == n - 1 && t.contains_key(m0) && t[m0] == t[m] {
                    let j0 = choose|j: int| 0 <= j < prev.len() && registers(prev, j, m0, t[m0]);
                    let j1 = choose|j: int| 0 <= j < prev.len() && registers(prev, j, m, t[m]);
                    assert(registers(ops, j0, m0, t[m0]) && registers(ops, j1, m, t[m0]));
                }
            }
            assert forall|i: int| 0 <= i < ops.len() && #[trigger] handout_at(ops, i) is Some implies exists|
                j: int,
            | 0 <= j < i && registers(ops, j, ops[i]->Resolve_mid, handout_at(ops, i)->0) by {
                if i < n - 1 {
                    let j = choose|j: int|
                        0 <= j < i && registers(
                            prev,
                            j,
                            prev[i]->Resolve_mid,
                            handout_at(prev, i)->0,
                        );
                    assert(registers(ops, j, ops[i]->Resolve_mid, handout_at(ops, i)->0));
                } else {
                    assert(t.contains_key(m0));
                    let j = choose|j: int| 0 <= j < prev.len() && registers(prev, j, m0, t[m0]);
                    assert(registers(ops, j, ops[i]->Resolve_mid, handout_at(ops, i)->0));
                }
            }
            assert forall|i1: int, i2: int|
                0 <= i1 < i2 < ops.len() && (#[trigger] handout_at(ops, i1)) is Some implies handout_at(
                ops,
                i1,
            ) != #[trigger] handout_at(ops, i2) by {
                if i2 == n - 1 && t.contains_key(m0) {
                    assert(handout_at(prev, i1) != Some(t[m0]));
                }
            }
        },
    }
}

/// No cross-talk between concurrent operations: in any run of
/// registrations and resolutions, where each registration brings a waiter
/// of its own, every value is handed to a waiter that was registered
/// earlier for exactly the resolved identifier, and no waiter is handed a
/// value twice.
pub proof fn lemma_no_cross_talk<W>(ops: Seq<TableOp<W>>)
    requires
        waiters_distinct(ops),
    ensures
        forall|i: int|
            0 <= i < ops.len() && #[trigger] handout_at(ops, i) is Some ==> ops[i] is Resolve
                && exists|j: int|
                0 <= j < i && registers(ops, j, ops[i]->Resolve_mid, handout_at(ops, i)->0),
        forall|i1: int, i2: int|
            0 <= i1 < i2 < ops.len() && (#[trigger] handout_at(ops, i1)) is Some ==> handout_at(
                ops,
                i1,
            ) != #[trigger] handout_at(ops, i2),
{
    lemma_run_invariant(ops);
}

} // verus!

verus! {

/// An acknowledgement is delivered once: after a waiter `w` is registered
/// for `x`, the first resolution of `x` hands its value to `w`, and if `w`
/// takes it the record gains exactly the value `x` for `w`; a second
/// resolution of `x` finds no waiter, is reported as unmatched, delivers
/// nothing and leaves the table as it was.
pub proof fn lemma_second_ack_is_noop<W>(
    t: Map<MessageId, W>,
    log: Seq<(W, MessageId)>,
    x: MessageId,
    w: W,
    sent: bool,
)
    ensures
        handout(apply_op(t, TableOp::Register { mid: x, waiter: w }), TableOp::Resolve { mid: x })
            == Some(w),
        record_after_ack(log, apply_op(t, TableOp::Register { mid: x, waiter: w }), x, true)
            == log.push((w, x)),
        ({
            let once = apply_op(
                apply_op(t, TableOp::Register { mid: x, waiter: w }),
                TableOp::Resolve { mid: x },
            );
            &&& handout(once, TableOp::Resolve { mid: x }) == None::<W>
            &&& ack_outcome(once, x, sent) == Outcome::Unmatched
            &&& record_after_ack(log, once, x, sent) == log
            &&& apply_op(once, TableOp::Resolve { mid: x }) == once
        }),
{
    let once = apply_op(
        apply_op(t, TableOp::Register { mid: x, waiter: w }),
        TableOp::Resolve { mid: x },
    );
    assert(apply_op(once, TableOp::Resolve { mid: x }) =~= once);
}

/// A waiter that went away before its acknowledgement leaves nothing
/// behind: the acknowledgement is discarded rather than delivered, and the
/// table is again what it was before the registration.
pub proof fn lemma_abandoned_waiter_leaves_no_entry<W>(t: Map<MessageId, W>, x: MessageId, w: W)
    requires
        !t.contains_key(x),
    ensures
        ack_outcome(apply_op(t, TableOp::Register { mid: x, waiter: w }), x, false)
            == Outcome::Discarded,
        apply_op(
            apply_op(t, TableOp::Register { mid: x, waiter: w }),
            TableOp::Resolve { mid: x },
        ) == t,
{
    assert(t.insert(x, w).remove(x) =~= t);
}

} // verus!
