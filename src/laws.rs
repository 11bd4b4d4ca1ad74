//! Properties of every bring-up, over the actions it hands out.
use vstd::prelude::*;

use crate::bringup::{
    negotiation, prelude, program_ops, provisioned, queue_block, queue_blocks, select_ops,
    status_sequence, write_status, Action, Bringup, Phase, ProbeError, QueueOutcome,
};
use crate::regs::{DEVICE_STATUS, QUEUE_SELECT};

verus! {

/// The values written to the status register by `t`, in order.
pub open spec fn status_writes(t: Seq<Action>) -> Seq<u8>
    decreases t.len(),
{
    if t.len() == 0 {
        Seq::empty()
    } else {
        let w = status_writes(t.drop_last());
        match t.last() {
            Action::Write8 { offset, value } => if offset == DEVICE_STATUS {
                w.push(value)
            } else {
                w
            },
            _ => w,
        }
    }
}

proof fn lemma_status_writes_push(t: Seq<Action>, a: Action)
    ensures
        status_writes(t.push(a)) == status_writes(t) + status_writes(seq![a]),
{
    assert(t.push(a).drop_last() =~= t);
    lemma_status_writes_single(a);
    assert(status_writes(t) + Seq::<u8>::empty() =~= status_writes(t));
    match a {
        Action::Write8 { offset, value } => {
            if offset == DEVICE_STATUS {
                assert(status_writes(t) + seq![value] =~= status_writes(t).push(value));
            }
        },
        _ => {},
    }
}

proof fn lemma_status_writes_add(a: Seq<Action>, b: Seq<Action>)
    ensures
        status_writes(a + b) == status_writes(a) + status_writes(b),
    decreases b.len(),
{
    if b.len() == 0 {
        assert(a + b =~= a);
        assert(status_writes(a) + status_writes(b) =~= status_writes(a));
    } else {
        let c = b.drop_last();
        lemma_status_writes_add(a, c);
        assert(a + b =~= (a + c).push(b.last()));
        assert(b =~= c.push(b.last()));
        lemma_status_writes_push(a + c, b.last());
        lemma_status_writes_push(c, b.last());
        assert(status_writes(a) + status_writes(c) + status_writes(seq![b.last()]) =~= status_writes(
            a,
        ) + (status_writes(c) + status_writes(seq![b.last()])));
    }
}

proof fn lemma_status_writes_single(a: Action)
    ensures
        status_writes(seq![a]) == match a {
            Action::Write8 { offset, value } => if offset == DEVICE_STATUS {
                seq![value]
            } else {
                Seq::empty()
            },
            _ => Seq::empty(),
        },
{
    let e = Seq::<Action>::empty();
    assert(seq![a].drop_last() =~= e);
    assert(status_writes(e) == Seq::<u8>::empty());
    assert(seq![a].last() == a);
    match a {
        Action::Write8 { offset, value } => {
            assert(Seq::<u8>::empty().push(value) =~= seq![value]);
        },
        _ => {},
    }
}

proof fn lemma_status_writes_negotiation()
    ensures
        status_writes(negotiation()) == seq![0u8, 1u8, 3u8, 11u8],
        status_writes(prelude()) == seq![0u8, 1u8, 3u8, 11u8],
{
    let n = negotiation();
    let e = Seq::<Action>::empty();
    assert(n =~= e.push(n[0]).push(n[1]).push(n[2]).push(n[3]).push(n[4]).push(n[5]));
    lemma_status_writes_push(e, n[0]);
    lemma_status_writes_push(e.push(n[0]), n[1]);
    lemma_status_writes_push(e.push(n[0]).push(n[1]), n[2]);
    lemma_status_writes_push(e.push(n[0]).push(n[1]).push(n[2]), n[3]);
    lemma_status_writes_push(e.push(n[0]).push(n[1]).push(n[2]).push(n[3]), n[4]);
    lemma_status_writes_push(e.push(n[0]).push(n[1]).push(n[2]).push(n[3]).push(n[4]), n[5]);
    lemma_status_writes_single(n[0]);
    lemma_status_writes_single(n[1]);
    lemma_status_writes_single(n[2]);
    lemma_status_writes_single(n[3]);
    lemma_status_writes_single(n[4]);
    lemma_status_writes_single(n[5]);
    assert(status_writes(e) =~= Seq::<u8>::empty());
    assert(status_writes(n) =~= seq![0u8, 1u8, 3u8, 11u8]);
    let r = Action::Read16 { offset: crate::regs::NUM_QUEUES };
    lemma_status_writes_push(n, r);
    lemma_status_writes_single(r);
    assert(status_writes(prelude()) =~= seq![0u8, 1u8, 3u8, 11u8]);
}

/// No status write happens among the queue blocks.
proof fn lemma_status_writes_blocks(os: Seq<QueueOutcome>)
    ensures
        status_writes(queue_blocks(os)) == Seq::<u8>::empty(),
    decreases os.len(),
{
    if os.len() > 0 {
        let i = (os.len() - 1) as u16;
        lemma_status_writes_blocks(os.drop_last());
        let s = select_ops(i);
        let e = Seq::<Action>::empty();
        assert(s =~= e.push(s[0]).push(s[1]));
        lemma_status_writes_push(e, s[0]);
        lemma_status_writes_push(e.push(s[0]), s[1]);
        lemma_status_writes_single(s[0]);
        lemma_status_writes_single(s[1]);
        assert(status_writes(e) =~= Seq::<u8>::empty());
        assert(status_writes(s) =~= Seq::<u8>::empty());
        match os.last() {
            QueueOutcome::Absent => {},
            QueueOutcome::Provisioned { size, addrs } => {
                let a = Action::AllocateRing { size };
                lemma_status_writes_push(s, a);
                lemma_status_writes_single(a);
                let p = program_ops(addrs);
                assert(p =~= e.push(p[0]).push(p[1]).push(p[2]).push(p[3]));
                lemma_status_writes_push(e, p[0]);
                lemma_status_writes_push(e.push(p[0]), p[1]);
                lemma_status_writes_push(e.push(p[0]).push(p[1]), p[2]);
                lemma_status_writes_push(e.push(p[0]).push(p[1]).push(p[2]), p[3]);
                lemma_status_writes_single(p[0]);
                lemma_status_writes_single(p[1]);
                lemma_status_writes_single(p[2]);
                lemma_status_writes_single(p[3]);
                assert(status_writes(p) =~= Seq::<u8>::empty());
                lemma_status_writes_add(s.push(a), p);
                assert(status_writes(s.push(a)) =~= Seq::<u8>::empty());
            },
        }
        lemma_status_writes_add(queue_blocks(os.drop_last()), queue_block(i, os.last()));
        assert(status_writes(queue_block(i, os.last())) =~= Seq::<u8>::empty());
    }
}

/// Within any bring-up the status register is first reset, and the values
/// written to it form a prefix of reset, ACKNOWLEDGE, ACKNOWLEDGE|DRIVER,
/// then FEATURES_OK, then DRIVER_OK added: each write keeps every bit of the
/// one before and adds one. A completed bring-up wrote all five.
pub proof fn lemma_status_writes_monotonic<R>(m: Bringup<R>)
    requires
        m.wf(),
    ensures
        m@.trace.len() > 0 && m@.trace[0] == write_status(0),
        status_writes(m@.trace).len() <= status_sequence().len(),
        status_writes(m@.trace) == status_sequence().take(status_writes(m@.trace).len() as int),
        forall|i: int, j: int|
            0 <= i < j < status_writes(m@.trace).len() ==> status_writes(m@.trace)[i]
                & status_writes(m@.trace)[j] == status_writes(m@.trace)[i]
                && status_writes(m@.trace)[i] != status_writes(m@.trace)[j],
        m@.phase == Phase::Ready ==> status_writes(m@.trace) == status_sequence(),
{
    lemma_status_writes_negotiation();
    let t = m@.trace;
    let done = prelude() + queue_blocks(m@.outcomes);
    lemma_status_writes_blocks(m@.outcomes);
    lemma_status_writes_add(prelude(), queue_blocks(m@.outcomes));
    let four = seq![0u8, 1u8, 3u8, 11u8];
    assert(four + Seq::<u8>::empty() =~= four);
    let sel = select_ops(m@.queue);
    let e = Seq::<Action>::empty();
    assert(sel =~= e.push(sel[0]).push(sel[1]));
    lemma_status_writes_push(e, sel[0]);
    lemma_status_writes_push(e.push(sel[0]), sel[1]);
    lemma_status_writes_single(sel[0]);
    lemma_status_writes_single(sel[1]);
    assert(status_writes(e) =~= Seq::<u8>::empty());
    let al = Action::AllocateRing { size: m@.size };
    lemma_status_writes_push(sel, al);
    lemma_status_writes_single(al);
    lemma_status_writes_single(write_status(15));
    match m@.phase {
        Phase::AwaitQueueSize => {
            lemma_status_writes_add(done, sel);
        },
        Phase::AwaitRing | Phase::Failed(ProbeError::QueueAllocation) => {
            lemma_status_writes_add(done, sel.push(al));
        },
        Phase::Ready => {
            lemma_status_writes_push(done, write_status(15));
            assert(four + seq![15u8] =~= status_sequence());
        },
        _ => {},
    }
    assert(t[0] == write_status(0));
    let sw = status_writes(t);
    assert(sw == four || sw == status_sequence());
    assert(four =~= status_sequence().take(4));
    assert(status_sequence() =~= status_sequence().take(5));
    assert(0u8 & 1u8 == 0u8 && 0u8 & 3u8 == 0u8 && 0u8 & 11u8 == 0u8 && 0u8 & 15u8 == 0u8
        && 1u8 & 3u8 == 1u8 && 1u8 & 11u8 == 1u8 && 1u8 & 15u8 == 1u8 && 3u8 & 11u8 == 3u8
        && 3u8 & 15u8 == 3u8 && 11u8 & 15u8 == 11u8) by (bit_vector);
}

/// A device that dropped FEATURES_OK gets no queue: nothing is selected,
/// no ring is requested, none is held, and DRIVER_OK is never written.
pub proof fn lemma_rejected_features_provision_nothing<R>(m: Bringup<R>)
    requires
        m.wf(),
        m@.phase == Phase::Failed(ProbeError::FeaturesRejected),
    ensures
        m@.queues.len() == 0,
        forall|k: int|
            0 <= k < m@.trace.len() ==> !(#[trigger] m@.trace[k] is AllocateRing)
                && !(m@.trace[k] is Write16) && m@.trace[k] != write_status(15),
        status_writes(m@.trace) == seq![0u8, 1u8, 3u8, 11u8],
{
    lemma_status_writes_negotiation();
    assert(provisioned(m@.outcomes) =~= Seq::<(u16, u16, crate::bringup::RingAddrs)>::empty());
}

proof fn lemma_blocks_take_next(os: Seq<QueueOutcome>, i: int)
    requires
        0 <= i < os.len(),
    ensures
        queue_blocks(os.take(i + 1)) == queue_blocks(os.take(i)) + queue_block(i as u16, os[i]),
{
    assert(os.take(i + 1).drop_last() =~= os.take(i));
}

proof fn lemma_blocks_take_prefix(os: Seq<QueueOutcome>, j: int)
    requires
        0 <= j <= os.len(),
    ensures
        queue_blocks(os.take(j)).len() <= queue_blocks(os).len(),
        queue_blocks(os.take(j)) == queue_blocks(os).take(queue_blocks(os.take(j)).len() as int),
    decreases os.len(),
{
    if j == os.len() {
        assert(os.take(j) =~= os);
        assert(queue_blocks(os) =~= queue_blocks(os).take(queue_blocks(os).len() as int));
    } else {
        let d = os.drop_last();
        lemma_blocks_take_prefix(d, j);
        assert(os.take(j) =~= d.take(j));
        let x = queue_blocks(d.take(j));
        assert(x =~= queue_blocks(os).take(x.len() as int));
    }
}

/// A completed bring-up that found N queues handed out the negotiation, the
/// read of N, then one block for each queue index 0 to N - 1 in that order,
/// then DRIVER_OK. Block `i` stands whole in the trace and begins by
/// selecting queue `i`; for a present queue it requests a ring of the
/// reported size and writes that ring's three addresses before enabling it.
pub proof fn lemma_queue_blocks_in_order<R>(m: Bringup<R>, i: int)
    requires
        m.wf(),
        m@.phase == Phase::Ready,
        0 <= i < m@.num_queues,
    ensures
        m@.outcomes.len() == m@.num_queues,
        m@.trace == (prelude() + queue_blocks(m@.outcomes)).push(write_status(15)),
        ({
            let pos = (prelude().len() + queue_blocks(m@.outcomes.take(i)).len()) as int;
            let block = queue_block(i as u16, m@.outcomes[i]);
            &&& m@.trace.subrange(pos, pos + block.len() as int) == block
            &&& m@.trace[pos] == (Action::Write16 { offset: QUEUE_SELECT, value: i as u16 })
        }),
        match m@.outcomes[i] {
            QueueOutcome::Absent => queue_block(i as u16, m@.outcomes[i]) == select_ops(i as u16),
            QueueOutcome::Provisioned { size, addrs } => queue_block(i as u16, m@.outcomes[i])
                == select_ops(i as u16).push(Action::AllocateRing { size }) + program_ops(addrs),
        },
{
    let os = m@.outcomes;
    lemma_blocks_take_next(os, i);
    lemma_blocks_take_prefix(os, i + 1);
    let qb = queue_blocks(os);
    let before = queue_blocks(os.take(i));
    let block = queue_block(i as u16, os[i]);
    let pl = prelude().len();
    let pos = (pl + before.len()) as int;
    assert forall|k: int| 0 <= k < block.len() implies m@.trace[pos + k] == block[k] by {
        assert(queue_blocks(os.take(i + 1))[before.len() + k] == block[k]);
        assert(qb[before.len() + k] == block[k]);
        assert(m@.trace[pl + before.len() + k] == qb[before.len() + k]);
    }
    assert(m@.trace.subrange(pos, pos + block.len() as int) =~= block);
    assert(block[0] == m@.trace[pos + 0]);
}

proof fn lemma_provisioned_index(os: Seq<QueueOutcome>, k: int)
    requires
        0 <= k < provisioned(os).len(),
        os.len() <= 0x10000,
    ensures
        ({
            let (i, size, addrs) = provisioned(os)[k];
            &&& i < os.len()
            &&& os[i as int] == (QueueOutcome::Provisioned { size, addrs })
            &&& k > 0 ==> provisioned(os)[k - 1].0 < i
        }),
    decreases os.len(),
{
    let d = os.drop_last();
    let p = provisioned(d);
    if k < p.len() {
        lemma_provisioned_index(d, k);
        if k > 0 {
            lemma_provisioned_index(d, k - 1);
        }
    } else if k > 0 {
        lemma_provisioned_index(d, k - 1);
    }
}

/// Every queue a bring-up holds reported a size above zero, sits at the
/// index whose block requested its ring and wrote its addresses, and the
/// queues are held in increasing index order. A queue that reported size
/// zero is absent: its block only selects it and reads its size.
pub proof fn lemma_held_queues<R>(m: Bringup<R>, k: int)
    requires
        m.wf(),
        0 <= k < m@.queues.len(),
    ensures
        m@.queues[k].size > 0,
        m@.queues[k].index < m@.outcomes.len(),
        m@.outcomes[m@.queues[k].index as int] == (QueueOutcome::Provisioned {
            size: m@.queues[k].size,
            addrs: m@.queues[k].addrs,
        }),
        k > 0 ==> m@.queues[k - 1].index < m@.queues[k].index,
{
    lemma_provisioned_index(m@.outcomes, k);
    assert(crate::bringup::queue_record(m@.queues[k]) == provisioned(m@.outcomes)[k]);
    if k > 0 {
        assert(crate::bringup::queue_record(m@.queues[k - 1]) == provisioned(m@.outcomes)[k - 1]);
    }
}

} // verus!
