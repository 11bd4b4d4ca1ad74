use virtio_net::bringup::{Action, Bringup, Phase, ProbeError, RingAddrs};
use virtio_net::regs::{
    DEVICE_STATUS, DRIVER_FEATURE, NUM_QUEUES, QUEUE_AVAIL, QUEUE_DESC, QUEUE_ENABLE,
    QUEUE_SELECT, QUEUE_SIZE, QUEUE_USED, VIRTIO_NET_F_MRG_RXBUF,
};

fn addrs(base: u64) -> RingAddrs {
    RingAddrs { desc: base, avail: base + 0x1000, used: base + 0x2000 }
}

fn select(i: u16) -> Vec<Action> {
    vec![
        Action::Write16 { offset: QUEUE_SELECT, value: i },
        Action::Read16 { offset: QUEUE_SIZE },
    ]
}

fn program(a: RingAddrs) -> Vec<Action> {
    vec![
        Action::Write64 { offset: QUEUE_DESC, value: a.desc },
        Action::Write64 { offset: QUEUE_AVAIL, value: a.avail },
        Action::Write64 { offset: QUEUE_USED, value: a.used },
        Action::Write16 { offset: QUEUE_ENABLE, value: 1 },
    ]
}

fn status_values(trace: &[Action]) -> Vec<u8> {
    trace
        .iter()
        .filter_map(|a| match a {
            Action::Write8 { offset, value } if *offset == DEVICE_STATUS => Some(*value),
            _ => None,
        })
        .collect()
}

#[test]
fn start_emits_negotiation() {
    let (m, ops) = Bringup::<u32>::start();
    assert_eq!(
        ops,
        vec![
            Action::Write8 { offset: DEVICE_STATUS, value: 0 },
            Action::Write8 { offset: DEVICE_STATUS, value: 1 },
            Action::Write8 { offset: DEVICE_STATUS, value: 3 },
            Action::Write32 { offset: DRIVER_FEATURE, value: VIRTIO_NET_F_MRG_RXBUF },
            Action::Write8 { offset: DEVICE_STATUS, value: 11 },
            Action::Read8 { offset: DEVICE_STATUS },
        ]
    );
    assert_eq!(VIRTIO_NET_F_MRG_RXBUF, 0x8000);
    assert_eq!(m.phase(), Phase::AwaitStatus);
    assert_eq!(m.status(), 11);
}

#[test]
fn rejected_features_abort_before_queues() {
    let (mut m, mut trace) = Bringup::<u32>::start();
    let ops = m.on_status(0x03);
    assert!(ops.is_empty());
    trace.extend(ops);
    assert_eq!(m.phase(), Phase::Failed(ProbeError::FeaturesRejected));
    assert_eq!(status_values(&trace), vec![0, 1, 3, 11]);
    assert!(!trace.iter().any(|a| matches!(a, Action::Write16 { .. } | Action::AllocateRing { .. })));
    match m.finish() {
        Err((e, rings)) => {
            assert_eq!(e, ProbeError::FeaturesRejected);
            assert!(rings.is_empty());
        }
        Ok(_) => panic!("bring-up should have failed"),
    }
}

#[test]
fn accepted_features_read_queue_count() {
    let (mut m, _) = Bringup::<u32>::start();
    let ops = m.on_status(0x0b);
    assert_eq!(ops, vec![Action::Read16 { offset: NUM_QUEUES }]);
    assert_eq!(m.phase(), Phase::AwaitNumQueues);
}

#[test]
fn no_queues_sets_driver_ok_at_once() {
    let (mut m, _) = Bringup::<u32>::start();
    m.on_status(0x0b);
    let ops = m.on_num_queues(0);
    assert_eq!(ops, vec![Action::Write8 { offset: DEVICE_STATUS, value: 15 }]);
    assert_eq!(m.phase(), Phase::Ready);
    let dev = m.finish().ok().unwrap();
    assert!(dev.vqs.is_empty());
}

#[test]
fn two_queues_end_to_end() {
    let (mut m, mut trace) = Bringup::<&str>::start();
    trace.extend(m.on_status(0x0b));
    let ops = m.on_num_queues(2);
    assert_eq!(ops, select(0));
    trace.extend(ops);
    let ops = m.on_queue_size(256);
    assert_eq!(ops, vec![Action::AllocateRing { size: 256 }]);
    trace.extend(ops);
    let ops = m.on_ring(Some(("ring0", addrs(0x10_0000))));
    let mut expected = program(addrs(0x10_0000));
    expected.extend(select(1));
    assert_eq!(ops, expected);
    trace.extend(ops);
    let ops = m.on_queue_size(128);
    assert_eq!(ops, vec![Action::AllocateRing { size: 128 }]);
    trace.extend(ops);
    let ops = m.on_ring(Some(("ring1", addrs(0x20_0000))));
    let mut expected = program(addrs(0x20_0000));
    expected.push(Action::Write8 { offset: DEVICE_STATUS, value: 15 });
    assert_eq!(ops, expected);
    trace.extend(ops);

    assert_eq!(m.phase(), Phase::Ready);
    assert_eq!(m.status(), 15);
    assert_eq!(m.num_queues(), 2);
    assert_eq!(status_values(&trace), vec![0, 1, 3, 11, 15]);
    let sizes: Vec<u16> = trace
        .iter()
        .filter_map(|a| match a {
            Action::AllocateRing { size } => Some(*size),
            _ => None,
        })
        .collect();
    assert_eq!(sizes, vec![256, 128]);

    let dev = m.finish().ok().unwrap();
    assert_eq!(dev.vqs.len(), 2);
    assert_eq!(dev.vqs[0].index, 0);
    assert_eq!(dev.vqs[0].size, 256);
    assert_eq!(dev.vqs[0].ring, "ring0");
    assert_eq!(dev.vqs[0].addrs, addrs(0x10_0000));
    assert_eq!(dev.vqs[1].index, 1);
    assert_eq!(dev.vqs[1].size, 128);
    assert_eq!(dev.vqs[1].ring, "ring1");
    assert_eq!(dev.vqs[1].addrs, addrs(0x20_0000));
}

#[test]
fn queue_selects_follow_index_order() {
    let (mut m, mut trace) = Bringup::<u16>::start();
    trace.extend(m.on_status(0xff));
    trace.extend(m.on_num_queues(3));
    for i in 0..3u16 {
        trace.extend(m.on_queue_size(16));
        trace.extend(m.on_ring(Some((i, addrs(0x1000 * (i as u64 + 1))))));
    }
    assert_eq!(m.phase(), Phase::Ready);
    let selects: Vec<u16> = trace
        .iter()
        .filter_map(|a| match a {
            Action::Write16 { offset, value } if *offset == QUEUE_SELECT => Some(*value),
            _ => None,
        })
        .collect();
    assert_eq!(selects, vec![0, 1, 2]);
    let descs: Vec<u64> = trace
        .iter()
        .filter_map(|a| match a {
            Action::Write64 { offset, value } if *offset == QUEUE_DESC => Some(*value),
            _ => None,
        })
        .collect();
    assert_eq!(descs, vec![0x1000, 0x2000, 0x3000]);
}

#[test]
fn absent_queue_gets_no_ring() {
    let (mut m, _) = Bringup::<u32>::start();
    m.on_status(0x0b);
    m.on_num_queues(2);
    let ops = m.on_queue_size(0);
    assert_eq!(ops, select(1));
    assert_eq!(m.phase(), Phase::AwaitQueueSize);
    let ops = m.on_queue_size(64);
    assert_eq!(ops, vec![Action::AllocateRing { size: 64 }]);
    m.on_ring(Some((7, addrs(0x4000))));
    let dev = m.finish().ok().unwrap();
    assert_eq!(dev.vqs.len(), 1);
    assert_eq!(dev.vqs[0].index, 1);
    assert_eq!(dev.vqs[0].size, 64);
}

#[test]
fn last_queue_absent_finishes() {
    let (mut m, _) = Bringup::<u32>::start();
    m.on_status(0x0b);
    m.on_num_queues(1);
    let ops = m.on_queue_size(0);
    assert_eq!(ops, vec![Action::Write8 { offset: DEVICE_STATUS, value: 15 }]);
    assert_eq!(m.phase(), Phase::Ready);
}

#[test]
fn ring_allocation_failure_hands_back_rings() {
    let (mut m, _) = Bringup::<u32>::start();
    m.on_status(0x0b);
    m.on_num_queues(2);
    m.on_queue_size(256);
    m.on_ring(Some((1, addrs(0x8000))));
    m.on_queue_size(256);
    let ops = m.on_ring(None);
    assert!(ops.is_empty());
    assert_eq!(m.phase(), Phase::Failed(ProbeError::QueueAllocation));
    assert_eq!(m.status(), 11);
    match m.finish() {
        Err((e, rings)) => {
            assert_eq!(e, ProbeError::QueueAllocation);
            assert_eq!(rings.len(), 1);
            assert_eq!(rings[0].ring, 1);
        }
        Ok(_) => panic!("bring-up should have failed"),
    }
}
