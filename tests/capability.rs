use virtio_net::bringup::ProbeError;
use virtio_net::capability::{config_bar, find_capability, CapabilityRecord};
use virtio_net::regs::{VIRTIO_PCI_CAP_COMMON_CFG, VIRTIO_PCI_CAP_DEVICE_CFG, VIRTIO_PCI_CAP_NOTIFY_CFG};

fn cap(offset: u16, cfg_type: u8, bar: u8) -> CapabilityRecord {
    CapabilityRecord { offset, cfg_type, bar }
}

#[test]
fn find_capability_returns_first_match() {
    let caps = vec![
        cap(0x40, VIRTIO_PCI_CAP_COMMON_CFG, 0),
        cap(0x50, VIRTIO_PCI_CAP_DEVICE_CFG, 2),
        cap(0x60, VIRTIO_PCI_CAP_DEVICE_CFG, 3),
    ];
    assert_eq!(find_capability(&caps, VIRTIO_PCI_CAP_DEVICE_CFG), Some(2));
    assert_eq!(find_capability(&caps, VIRTIO_PCI_CAP_COMMON_CFG), Some(0));
}

#[test]
fn find_capability_skips_out_of_range_bar() {
    let caps = vec![
        cap(0x40, VIRTIO_PCI_CAP_DEVICE_CFG, 5),
        cap(0x50, VIRTIO_PCI_CAP_DEVICE_CFG, 0xff),
        cap(0x60, VIRTIO_PCI_CAP_DEVICE_CFG, 4),
    ];
    assert_eq!(find_capability(&caps, VIRTIO_PCI_CAP_DEVICE_CFG), Some(4));
}

#[test]
fn find_capability_only_out_of_range_bars() {
    let caps = vec![cap(0x40, VIRTIO_PCI_CAP_DEVICE_CFG, 5)];
    assert_eq!(find_capability(&caps, VIRTIO_PCI_CAP_DEVICE_CFG), None);
}

#[test]
fn find_capability_empty_list() {
    assert_eq!(find_capability(&[], VIRTIO_PCI_CAP_DEVICE_CFG), None);
}

#[test]
fn find_capability_no_entry_of_type() {
    let caps = vec![
        cap(0x40, VIRTIO_PCI_CAP_COMMON_CFG, 0),
        cap(0x50, VIRTIO_PCI_CAP_NOTIFY_CFG, 1),
    ];
    assert_eq!(find_capability(&caps, VIRTIO_PCI_CAP_DEVICE_CFG), None);
}

#[test]
fn config_bar_missing_region_aborts_probe() {
    let caps = vec![
        cap(0x40, VIRTIO_PCI_CAP_COMMON_CFG, 0),
        cap(0x50, VIRTIO_PCI_CAP_NOTIFY_CFG, 1),
    ];
    assert_eq!(config_bar(&caps), Err(ProbeError::CapabilityNotFound));
    assert_eq!(config_bar(&[]), Err(ProbeError::CapabilityNotFound));
}

#[test]
fn config_bar_at_bar_four() {
    let caps = vec![cap(0x40, VIRTIO_PCI_CAP_DEVICE_CFG, 4)];
    assert_eq!(config_bar(&caps), Ok(4));
}
