//! Bring-up of a virtio network device attached over PCI: locating the
//! configuration region among the vendor capabilities, negotiating the
//! device status, and provisioning one ring per advertised queue.
pub mod bringup;
pub mod capability;
pub mod laws;
pub mod regs;
