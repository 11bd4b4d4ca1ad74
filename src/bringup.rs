//! The bring-up protocol as a state machine. Each step takes what the device
//! answered to the last request and hands back the register accesses and
//! requests to perform next, in order; the last of a non-final batch is a
//! read or a ring allocation whose result feeds the following step.
use vstd::prelude::*;

use crate::regs::{
    DEVICE_STATUS, DRIVER_FEATURE, DRIVER_FEATURES, NUM_QUEUES, QUEUE_AVAIL, QUEUE_DESC,
    QUEUE_ENABLE, QUEUE_SELECT, QUEUE_SIZE, QUEUE_USED, VIRTIO_ACKNOWLEDGE, VIRTIO_DRIVER,
    VIRTIO_DRIVER_OK, VIRTIO_FEATURES_OK,
};

verus! {

/// One access to the device's configuration window, at a byte offset and
/// with the register's own width, or a request for a ring of descriptors.
#[derive(Clone, Copy, Debug, PartialEq, Eq, Structural)]
pub enum Action {
    Write8 { offset: usize, value: u8 },
    Write16 { offset: usize, value: u16 },
    Write32 { offset: usize, value: u32 },
    Write64 { offset: usize, value: u64 },
    Read8 { offset: usize },
    Read16 { offset: usize },
    AllocateRing { size: u16 },
}

/// Physical addresses of a ring's descriptor table, available ring and used
/// ring.
#[derive(Clone, Copy, Debug, PartialEq, Eq, Structural)]
pub struct RingAddrs {
    pub desc: u64,
    pub avail: u64,
    pub used: u64,
}

/// A provisioned queue: its index, its size, where its ring lives and the
/// ring itself.
pub struct Virtqueue<R> {
    pub index: u16,
    pub size: u16,
    pub addrs: RingAddrs,
    pub ring: R,
}

/// Why a bring-up was abandoned.
#[derive(Clone, Copy, Debug, PartialEq, Eq, Structural)]
pub enum ProbeError {
    CapabilityNotFound,
    FeaturesRejected,
    QueueAllocation,
}

/// Where a bring-up stands: which answer it waits for, or how it ended.
#[derive(Clone, Copy, Debug, PartialEq, Eq, Structural)]
pub enum Phase {
    AwaitStatus,
    AwaitNumQueues,
    AwaitQueueSize,
    AwaitRing,
    Ready,
    Failed(ProbeError),
}

/// What became of one queue index.
#[derive(Clone, Copy, Debug, PartialEq, Eq, Structural)]
pub enum QueueOutcome {
    Absent,
    Provisioned { size: u16, addrs: RingAddrs },
}

/// A device whose bring-up completed: it owns one ring per provisioned
/// queue, in index order.
pub struct VirtioNetDevice<R> {
    pub vqs: Vec<Virtqueue<R>>,
}

impl<R> VirtioNetDevice<R> {
    pub fn new() -> (d: Self)
        ensures
            d.vqs@.len() == 0,
    {
        VirtioNetDevice { vqs: Vec::new() }
    }

    pub fn add_vq(&mut self, vq: Virtqueue<R>)
        ensures
            final(self).vqs@ == old(self).vqs@.push(vq),
    {
        self.vqs.push(vq);
    }
}

/// Status register values of a complete bring-up, in the order written.
pub open spec fn status_sequence() -> Seq<u8> {
    seq![0u8, 1u8, 3u8, 11u8, 15u8]
}

pub open spec fn write_status(value: u8) -> Action {
    Action::Write8 { offset: DEVICE_STATUS, value }
}

/// Reset, ACKNOWLEDGE, DRIVER, the requested features, FEATURES_OK, then the
/// read-back of the status.
pub open spec fn negotiation() -> Seq<Action> {
    seq![
        write_status(0),
        write_status(1),
        write_status(3),
        Action::Write32 { offset: DRIVER_FEATURE, value: DRIVER_FEATURES },
        write_status(11),
        Action::Read8 { offset: DEVICE_STATUS },
    ]
}

/// The negotiation followed by the read of the queue count.
pub open spec fn prelude() -> Seq<Action> {
    negotiation().push(Action::Read16 { offset: NUM_QUEUES })
}

/// Selecting queue `i` and reading its size.
pub open spec fn select_ops(i: u16) -> Seq<Action> {
    seq![Action::Write16 { offset: QUEUE_SELECT, value: i }, Action::Read16 { offset: QUEUE_SIZE }]
}

/// Programming the selected queue with a ring's addresses and enabling it.
pub open spec fn program_ops(a: RingAddrs) -> Seq<Action> {
    seq![
        Action::Write64 { offset: QUEUE_DESC, value: a.desc },
        Action::Write64 { offset: QUEUE_AVAIL, value: a.avail },
        Action::Write64 { offset: QUEUE_USED, value: a.used },
        Action::Write16 { offset: QUEUE_ENABLE, value: 1 },
    ]
}

/// Everything done for queue `i`: an absent queue is only selected and
/// sized; a present one also gets a ring, its addresses and the enable bit.
pub open spec fn queue_block(i: u16, o: QueueOutcome) -> Seq<Action> {
    match o {
        QueueOutcome::Absent => select_ops(i),
        QueueOutcome::Provisioned { size, addrs } => select_ops(i).push(
            Action::AllocateRing { size },
        ) + program_ops(addrs),
    }
}

/// The blocks of queues `0..os.len()`, in index order.
pub open spec fn queue_blocks(os: Seq<QueueOutcome>) -> Seq<Action>
    decreases os.len(),
{
    if os.len() == 0 {
        Seq::empty()
    } else {
        queue_blocks(os.drop_last()) + queue_block((os.len() - 1) as u16, os.last())
    }
}

/// The provisioned queues among `os`, as (index, size, addresses), in index
/// order.
pub open spec fn provisioned(os: Seq<QueueOutcome>) -> Seq<(u16, u16, RingAddrs)>
    decreases os.len(),
{
    if os.len() == 0 {
        Seq::empty()
    } else {
        let p = provisioned(os.drop_last());
        match os.last() {
            QueueOutcome::Absent => p,
            QueueOutcome::Provisioned { size, addrs } => p.push(
                ((os.len() - 1) as u16, size, addrs),
            ),
        }
    }
}

pub open spec fn queue_record<R>(q: Virtqueue<R>) -> (u16, u16, RingAddrs) {
    (q.index, q.size, q.addrs)
}

/// The queues `vqs` are exactly those that `os` provisioned.
pub open spec fn holds_provisioned<R>(vqs: Seq<Virtqueue<R>>, os: Seq<QueueOutcome>) -> bool {
    &&& vqs.len() == provisioned(os).len()
    &&& forall|k: int| 0 <= k < vqs.len() ==> queue_record(#[trigger] vqs[k]) == provisioned(os)[k]
}

/// What a bring-up has done so far.
pub struct BringupState<R> {
    pub phase: Phase,
    /// The value last written to the status register.
    pub status: u8,
    pub num_queues: u16,
    /// The queue index being worked on.
    pub queue: u16,
    /// The size reported for that queue.
    pub size: u16,
    /// What became of each queue index finished so far.
    pub outcomes: Seq<QueueOutcome>,
    /// Every action handed out, in order.
    pub trace: Seq<Action>,
    pub queues: Seq<Virtqueue<R>>,
}

/// A bring-up in progress.
pub struct Bringup<R> {
    phase: Phase,
    status: u8,
    num_queues: u16,
    queue: u16,
    size: u16,
    dev: VirtioNetDevice<R>,
    outcomes: Ghost<Seq<QueueOutcome>>,
    trace: Ghost<Seq<Action>>,
}

impl<R> View for Bringup<R> {
    type V = BringupState<R>;

    closed spec fn view(&self) -> BringupState<R> {
        BringupState {
            phase: self.phase,
            status: self.status,
            num_queues: self.num_queues,
            queue: self.queue,
            size: self.size,
            outcomes: self.outcomes@,
            trace: self.trace@,
            queues: self.dev.vqs@,
        }
    }
}

/// The trace of a bring-up in each phase, and what it has decided so far.
pub open spec fn state_wf<R>(s: BringupState<R>) -> bool {
    let done = prelude() + queue_blocks(s.outcomes);
    &&& holds_provisioned(s.queues, s.outcomes)
    &&& forall|k: int| 0 <= k < s.queues.len() ==> (#[trigger] s.queues[k]).size > 0
    &&& s.outcomes.len() <= s.num_queues
    &&& match s.phase {
        Phase::AwaitStatus => s.trace == negotiation() && s.outcomes.len() == 0 && s.status == 11,
        Phase::AwaitNumQueues => s.trace == prelude() && s.outcomes.len() == 0 && s.status == 11,
        Phase::AwaitQueueSize => {
            &&& s.trace == done + select_ops(s.queue)
            &&& s.queue == s.outcomes.len() < s.num_queues
            &&& s.status == 11
        },
        Phase::AwaitRing => {
            &&& s.trace == done + select_ops(s.queue).push(Action::AllocateRing { size: s.size })
            &&& s.queue == s.outcomes.len() < s.num_queues
            &&& s.size > 0
            &&& s.status == 11
        },
        Phase::Ready => {
            &&& s.trace == done.push(write_status(15))
            &&& s.outcomes.len() == s.num_queues
            &&& s.status == 15
        },
        Phase::Failed(ProbeError::FeaturesRejected) => s.trace == negotiation()
            && s.outcomes.len() == 0,
        Phase::Failed(ProbeError::QueueAllocation) => {
            &&& s.trace == done + select_ops(s.queue).push(Action::AllocateRing { size: s.size })
            &&& s.queue == s.outcomes.len() < s.num_queues
            &&& s.size > 0
        },
        Phase::Failed(ProbeError::CapabilityNotFound) => false,
    }
}

/// What follows queue `next - 1`: selecting queue `next`, or DRIVER_OK once
/// every queue is done.
pub open spec fn next_ops(next: int, num_queues: u16) -> Seq<Action> {
    if next < num_queues {
        select_ops(next as u16)
    } else {
        seq![write_status(15)]
    }
}

pub open spec fn next_phase(next: int, num_queues: u16) -> Phase {
    if next < num_queues {
        Phase::AwaitQueueSize
    } else {
        Phase::Ready
    }
}

proof fn lemma_queue_blocks_push(os: Seq<QueueOutcome>, o: QueueOutcome)
    ensures
        queue_blocks(os.push(o)) == queue_blocks(os) + queue_block(os.len() as u16, o),
        provisioned(os.push(o)) == match o {
            QueueOutcome::Absent => provisioned(os),
            QueueOutcome::Provisioned { size, addrs } => provisioned(os).push(
                (os.len() as u16, size, addrs),
            ),
        },
{
    assert(os.push(o).drop_last() =~= os);
}

impl<R> Bringup<R> {
    pub open spec fn wf(&self) -> bool {
        state_wf(self@)
    }

    /// Resets the device, announces the driver, requests the driver's
    /// features, sets FEATURES_OK and asks for the status to be read back.
    pub fn start() -> (r: (Self, Vec<Action>))
        ensures
            r.0.wf(),
            r.0@.phase == Phase::AwaitStatus,
            r.1@ == negotiation(),
            r.0@.trace == r.1@,
            r.0@.queues.len() == 0,
    {
        let dev = VirtioNetDevice::new();
        let mut ops: Vec<Action> = Vec::new();
        let mut status: u8 = 0;
        ops.push(Action::Write8 { offset: DEVICE_STATUS, value: status });
        status = status | VIRTIO_ACKNOWLEDGE;
        assert(0u8 | 1u8 == 1u8) by (bit_vector);
        ops.push(Action::Write8 { offset: DEVICE_STATUS, value: status });
        status = status | VIRTIO_DRIVER;
        assert(1u8 | 2u8 == 3u8) by (bit_vector);
        ops.push(Action::Write8 { offset: DEVICE_STATUS, value: status });
        ops.push(Action::Write32 { offset: DRIVER_FEATURE, value: DRIVER_FEATURES });
        status = status | VIRTIO_FEATURES_OK;
        assert(3u8 | 8u8 == 11u8) by (bit_vector);
        ops.push(Action::Write8 { offset: DEVICE_STATUS, value: status });
        ops.push(Action::Read8 { offset: DEVICE_STATUS });
        assert(ops@ == negotiation());
        let m = Bringup {
            phase: Phase::AwaitStatus,
            status,
            num_queues: 0,
            queue: 0,
            size: 0,
            dev,
            outcomes: Ghost(Seq::empty()),
            trace: Ghost(ops@),
        };
        (m, ops)
    }
    /// Moves past the current queue: selects the next one, or sets
    /// DRIVER_OK once every queue is done.
    fn advance(&mut self) -> (r: Vec<Action>)
        requires
            old(self).status == 11,
            old(self).queue < old(self).num_queues,
        ensures
            r@ == next_ops(old(self).queue + 1, old(self).num_queues),
            final(self).phase == next_phase(old(self).queue + 1, old(self).num_queues),
            final(self).queue == (if old(self).queue + 1 < old(self).num_queues {
                old(self).queue + 1
            } else {
                old(self).queue as int
            }),
            final(self).status == (if old(self).queue + 1 < old(self).num_queues {
                11u8
            } else {
                15u8
            }),
            final(self).num_queues == old(self).num_queues,
            final(self).size == old(self).size,
            final(self).dev == old(self).dev,
            final(self).outcomes == old(self).outcomes,
            final(self).trace == old(self).trace,
    {
        let mut ops: Vec<Action> = Vec::new();
        if self.queue + 1 < self.num_queues {
            self.queue = self.queue + 1;
            self.phase = Phase::AwaitQueueSize;
            ops.push(Action::Write16 { offset: QUEUE_SELECT, value: self.queue });
            ops.push(Action::Read16 { offset: QUEUE_SIZE });
        } else {
            let status = self.status | VIRTIO_DRIVER_OK;
            assert(11u8 | 4u8 == 15u8) by (bit_vector);
            self.status = status;
            self.phase = Phase::Ready;
            ops.push(Action::Write8 { offset: DEVICE_STATUS, value: status });
        }
        assert(ops@ == next_ops(old(self).queue + 1, old(self).num_queues));
        ops
    }

    /// Takes the status read back after FEATURES_OK was set. If the device
    /// dropped FEATURES_OK it rejected the features and the bring-up fails;
    /// otherwise the queue count is read next.
    pub fn on_status(&mut self, device_status: u8) -> (r: Vec<Action>)
        requires
            old(self).wf(),
            old(self)@.phase == Phase::AwaitStatus,
        ensures
            final(self).wf(),
            final(self)@.trace == old(self)@.trace + r@,
            final(self)@.queues == old(self)@.queues,
            final(self)@.outcomes == old(self)@.outcomes,
            device_status & VIRTIO_FEATURES_OK == VIRTIO_FEATURES_OK ==> {
                &&& final(self)@.phase == Phase::AwaitNumQueues
                &&& r@ == seq![Action::Read16 { offset: NUM_QUEUES }]
            },
            device_status & VIRTIO_FEATURES_OK != VIRTIO_FEATURES_OK ==> {
                &&& final(self)@.phase == Phase::Failed(ProbeError::FeaturesRejected)
                &&& r@ == Seq::<Action>::empty()
            },
    {
        let mut ops: Vec<Action> = Vec::new();
        if device_status & VIRTIO_FEATURES_OK != VIRTIO_FEATURES_OK {
            self.phase = Phase::Failed(ProbeError::FeaturesRejected);
        } else {
            self.phase = Phase::AwaitNumQueues;
            ops.push(Action::Read16 { offset: NUM_QUEUES });
        }
        self.trace = Ghost(self.trace@ + ops@);
        assert(self.trace@ =~= old(self).trace@ + ops@);
        proof {
            if self.phase == Phase::AwaitNumQueues {
                assert(self.trace@ =~= prelude());
            } else {
                assert(self.trace@ =~= negotiation());
            }
        }
        ops
    }

    /// Takes the number of queues the device advertises and selects the
    /// first one; with no queue at all, sets DRIVER_OK at once.
    pub fn on_num_queues(&mut self, num_queues: u16) -> (r: Vec<Action>)
        requires
            old(self).wf(),
            old(self)@.phase == Phase::AwaitNumQueues,
        ensures
            final(self).wf(),
            final(self)@.trace == old(self)@.trace + r@,
            final(self)@.queues == old(self)@.queues,
            final(self)@.outcomes == old(self)@.outcomes,
            final(self)@.num_queues == num_queues,
            final(self)@.phase == next_phase(0, num_queues),
            r@ == next_ops(0, num_queues),
    {
        self.num_queues = num_queues;
        let mut ops: Vec<Action> = Vec::new();
        if num_queues == 0 {
            let status = self.status | VIRTIO_DRIVER_OK;
            assert(11u8 | 4u8 == 15u8) by (bit_vector);
            self.status = status;
            self.phase = Phase::Ready;
            ops.push(Action::Write8 { offset: DEVICE_STATUS, value: status });
        } else {
            self.queue = 0;
            self.phase = Phase::AwaitQueueSize;
            ops.push(Action::Write16 { offset: QUEUE_SELECT, value: 0 });
            ops.push(Action::Read16 { offset: QUEUE_SIZE });
        }
        assert(ops@ =~= next_ops(0, num_queues));
        self.trace = Ghost(self.trace@ + ops@);
        proof {
            assert(queue_blocks(self.outcomes@) =~= Seq::<Action>::empty());
            assert(prelude() + queue_blocks(self.outcomes@) =~= prelude());
        }
        ops
    }

    /// Takes the size the selected queue reports. A queue of size 0 is
    /// absent: it gets no ring and is not enabled, and the next queue is
    /// selected. Otherwise a ring of that size is requested.
    pub fn on_queue_size(&mut self, size: u16) -> (r: Vec<Action>)
        requires
            old(self).wf(),
            old(self)@.phase == Phase::AwaitQueueSize,
        ensures
            final(self).wf(),
            final(self)@.trace == old(self)@.trace + r@,
            final(self)@.queues == old(self)@.queues,
            final(self)@.num_queues == old(self)@.num_queues,
            size == 0 ==> {
                &&& final(self)@.outcomes == old(self)@.outcomes.push(QueueOutcome::Absent)
                &&& final(self)@.phase == next_phase(old(self)@.queue + 1, old(self)@.num_queues)
                &&& r@ == next_ops(old(self)@.queue + 1, old(self)@.num_queues)
            },
            size != 0 ==> {
                &&& final(self)@.outcomes == old(self)@.outcomes
                &&& final(self)@.phase == Phase::AwaitRing
                &&& final(self)@.queue == old(self)@.queue
                &&& final(self)@.size == size
                &&& r@ == seq![Action::AllocateRing { size }]
            },
    {
        let ghost done = prelude() + queue_blocks(self.outcomes@);
        if size == 0 {
            proof {
                lemma_queue_blocks_push(self.outcomes@, QueueOutcome::Absent);
            }
            self.outcomes = Ghost(self.outcomes@.push(QueueOutcome::Absent));
            let ops = self.advance();
            self.trace = Ghost(self.trace@ + ops@);
            proof {
                let nd = prelude() + queue_blocks(self.outcomes@);
                assert(nd =~= done + select_ops(old(self).queue));
                if self.phase == Phase::AwaitQueueSize {
                    assert(self.trace@ =~= nd + select_ops(self.queue));
                } else {
                    assert(self.trace@ =~= nd.push(write_status(15)));
                }
            }
            ops
        } else {
            self.size = size;
            self.phase = Phase::AwaitRing;
            let mut ops: Vec<Action> = Vec::new();
            ops.push(Action::AllocateRing { size });
            self.trace = Ghost(self.trace@ + ops@);
            assert(self.trace@ =~= done + select_ops(self.queue).push(
                Action::AllocateRing { size },
            ));
            ops
        }
    }

    /// Takes the ring allocated for the selected queue with the physical
    /// addresses of its three parts, or `None` when none could be had. The
    /// addresses are written to the queue's registers, the queue is enabled
    /// and joins the device's queues, and the next queue is selected. Without
    /// a ring the bring-up fails.
    pub fn on_ring(&mut self, ring: Option<(R, RingAddrs)>) -> (r: Vec<Action>)
        requires
            old(self).wf(),
            old(self)@.phase == Phase::AwaitRing,
        ensures
            final(self).wf(),
            final(self)@.trace == old(self)@.trace + r@,
            final(self)@.num_queues == old(self)@.num_queues,
            match ring {
                None => {
                    &&& final(self)@.phase == Phase::Failed(ProbeError::QueueAllocation)
                    &&& final(self)@.queues == old(self)@.queues
                    &&& final(self)@.outcomes == old(self)@.outcomes
                    &&& r@ == Seq::<Action>::empty()
                },
                Some((q, a)) => {
                    &&& final(self)@.phase == next_phase(old(self)@.queue + 1, old(self)@.num_queues)
                    &&& final(self)@.outcomes == old(self)@.outcomes.push(
                        QueueOutcome::Provisioned { size: old(self)@.size, addrs: a },
                    )
                    &&& final(self)@.queues == old(self)@.queues.push(
                        Virtqueue { index: old(self)@.queue, size: old(self)@.size, addrs: a, ring: q },
                    )
                    &&& r@ == program_ops(a) + next_ops(old(self)@.queue + 1, old(self)@.num_queues)
                },
            },
    {
        let ghost done = prelude() + queue_blocks(self.outcomes@);
        match ring {
            None => {
                self.phase = Phase::Failed(ProbeError::QueueAllocation);
                let ops: Vec<Action> = Vec::new();
                assert(self.trace@ =~= self.trace@ + ops@);
                ops
            },
            Some((q, a)) => {
                let mut ops: Vec<Action> = Vec::new();
                ops.push(Action::Write64 { offset: QUEUE_DESC, value: a.desc });
                ops.push(Action::Write64 { offset: QUEUE_AVAIL, value: a.avail });
                ops.push(Action::Write64 { offset: QUEUE_USED, value: a.used });
                ops.push(Action::Write16 { offset: QUEUE_ENABLE, value: 1 });
                assert(ops@ =~= program_ops(a));
                let ghost o = QueueOutcome::Provisioned { size: self.size, addrs: a };
                proof {
                    lemma_queue_blocks_push(self.outcomes@, o);
                }
                self.dev.add_vq(Virtqueue { index: self.queue, size: self.size, addrs: a, ring: q });
                self.outcomes = Ghost(self.outcomes@.push(o));
                let mut rest = self.advance();
                ops.append(&mut rest);
                self.trace = Ghost(self.trace@ + ops@);
                proof {
                    let nd = prelude() + queue_blocks(self.outcomes@);
                    assert(nd =~= done + (select_ops(old(self).queue).push(
                        Action::AllocateRing { size: old(self).size },
                    ) + program_ops(a)));
                    if self.phase == Phase::AwaitQueueSize {
                        assert(self.trace@ =~= nd + select_ops(self.queue));
                    } else {
                        assert(self.trace@ =~= nd.push(write_status(15)));
                    }
                    let qs = self.dev.vqs@;
                    let p = provisioned(self.outcomes@);
                    assert forall|k: int| 0 <= k < qs.len() implies queue_record(
                        #[trigger] qs[k],
                    ) == p[k] by {
                        if k < qs.len() - 1 {
                            assert(qs[k] == old(self).dev.vqs@[k]);
                        }
                    }
                }
                ops
            },
        }
    }

    /// Ends a bring-up that is over: the device with its queues when it
    /// completed, or the error with the rings already provisioned, to be
    /// released, when it failed.
    pub fn finish(self) -> (r: Result<VirtioNetDevice<R>, (ProbeError, Vec<Virtqueue<R>>)>)
        requires
            self.wf(),
            self@.phase is Ready || self@.phase is Failed,
        ensures
            match r {
                Ok(d) => self@.phase == Phase::Ready && d.vqs@ == self@.queues,
                Err((e, vqs)) => self@.phase == Phase::Failed(e) && vqs@ == self@.queues,
            },
    {
        match self.phase {
            Phase::Failed(e) => Err((e, self.dev.vqs)),
            _ => Ok(self.dev),
        }
    }

    pub fn phase(&self) -> (r: Phase)
        ensures
            r == self@.phase,
    {
        self.phase
    }

    /// The value last written to the status register.
    pub fn status(&self) -> (r: u8)
        ensures
            r == self@.status,
    {
        self.status
    }

    pub fn num_queues(&self) -> (r: u16)
        ensures
            r == self@.num_queues,
    {
        self.num_queues
    }
}

} // verus!
