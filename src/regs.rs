//! Register layout, status bits and feature bits of the virtio PCI common
//! configuration window.
use vstd::prelude::*;

verus! {

pub const PCI_VENDOR_ID_REDHAT: u16 = 0x1af4;

pub const PCI_DEVICE_ID_VIRTIO_NET: u16 = 0x1041;

// Byte offsets of the common configuration registers.
pub const DEVICE_FEATURE_SELECT: usize = 0x00;

pub const DEVICE_FEATURE: usize = 0x04;

pub const DRIVER_FEATURE_SELECT: usize = 0x08;

pub const DRIVER_FEATURE: usize = 0x0c;

pub const MSIX_CONFIG: usize = 0x10;

pub const NUM_QUEUES: usize = 0x12;

pub const DEVICE_STATUS: usize = 0x14;

pub const CONFIG_GENERATION: usize = 0x15;

pub const QUEUE_SELECT: usize = 0x16;

pub const QUEUE_SIZE: usize = 0x18;

pub const QUEUE_MSIX_VECTOR: usize = 0x1a;

pub const QUEUE_ENABLE: usize = 0x1c;

pub const QUEUE_NOTIFY_OFF: usize = 0x1e;

pub const QUEUE_DESC: usize = 0x20;

pub const QUEUE_AVAIL: usize = 0x28;

pub const QUEUE_USED: usize = 0x30;

// Bits of the device status register.
pub const VIRTIO_ACKNOWLEDGE: u8 = 1;

pub const VIRTIO_DRIVER: u8 = 2;

pub const VIRTIO_DRIVER_OK: u8 = 4;

pub const VIRTIO_FEATURES_OK: u8 = 8;

pub const DEVICE_NEEDS_RESET: u8 = 64;

pub const VIRTIO_FAILED: u8 = 128;

// Feature bits of a virtio network device.
pub const VIRTIO_NET_F_CSUM: u32 = 1 << 0;

pub const VIRTIO_NET_F_GUEST_CSUM: u32 = 1 << 1;

pub const VIRTIO_NET_F_CTRL_GUEST_OFFLOADS: u32 = 1 << 2;

pub const VIRTIO_NET_F_MAC: u32 = 1 << 5;

pub const VIRTIO_NET_F_GUEST_TSO4: u32 = 1 << 7;

pub const VIRTIO_NET_F_GUEST_TSO6: u32 = 1 << 8;

pub const VIRTIO_NET_F_GUEST_ECN: u32 = 1 << 9;

pub const VIRTIO_NET_F_GUEST_UFO: u32 = 1 << 10;

pub const VIRTIO_NET_F_HOST_TSO4: u32 = 1 << 11;

pub const VIRTIO_NET_F_HOST_TSO6: u32 = 1 << 12;

pub const VIRTIO_NET_F_HOST_ECN: u32 = 1 << 13;

pub const VIRTIO_NET_F_HOST_UFO: u32 = 1 << 14;

pub const VIRTIO_NET_F_MRG_RXBUF: u32 = 1 << 15;

pub const VIRTIO_NET_F_STATUS: u32 = 1 << 16;

pub const VIRTIO_NET_F_CTRL_VQ: u32 = 1 << 17;

pub const VIRTIO_NET_F_CTRL_RX: u32 = 1 << 18;

pub const VIRTIO_NET_F_CTRL_VLAN: u32 = 1 << 19;

pub const VIRTIO_NET_F_GUEST_ANNOUNCE: u32 = 1 << 21;

pub const VIRTIO_NET_F_MQ: u32 = 1 << 22;

pub const VIRTIO_NET_F_CTRL_MAC_ADDR: u32 = 1 << 23;

/// The feature mask this driver requests: mergeable receive buffers only.
pub const DRIVER_FEATURES: u32 = VIRTIO_NET_F_MRG_RXBUF;

// Types of virtio configuration regions named by a vendor capability.
pub const VIRTIO_PCI_CAP_COMMON_CFG: u8 = 1;

pub const VIRTIO_PCI_CAP_NOTIFY_CFG: u8 = 2;

pub const VIRTIO_PCI_CAP_ISR_CFG: u8 = 3;

pub const VIRTIO_PCI_CAP_DEVICE_CFG: u8 = 4;

pub const VIRTIO_PCI_CAP_PCI_CFG: u8 = 5;

// Offsets, inside a vendor capability, of its region type and BAR index.
pub const VIRTIO_PCI_CAP_CFG_TYPE: u16 = 3;

pub const VIRTIO_PCI_CAP_BAR: u16 = 4;

/// BAR indices above this one do not name a region.
pub const MAX_BAR_INDEX: u8 = 4;

} // verus!
