//! Locating a virtio configuration region among a function's vendor
//! capabilities.
use vstd::prelude::*;

use crate::bringup::ProbeError;
use crate::regs::{MAX_BAR_INDEX, VIRTIO_PCI_CAP_DEVICE_CFG};

verus! {

/// One vendor-specific capability, as read from PCI configuration space:
/// where it sits, which region type it describes and which BAR hosts it.
#[derive(Clone, Copy, Debug, PartialEq, Eq, Structural)]
pub struct CapabilityRecord {
    pub offset: u16,
    pub cfg_type: u8,
    pub bar: u8,
}

/// A capability names a region of type `cfg_type` in a valid BAR.
pub open spec fn capability_matches(c: CapabilityRecord, cfg_type: u8) -> bool {
    c.cfg_type == cfg_type && c.bar <= MAX_BAR_INDEX
}

/// `i` is the position of the first matching capability of `caps`.
pub open spec fn is_first_match(caps: Seq<CapabilityRecord>, cfg_type: u8, i: int) -> bool {
    &&& 0 <= i < caps.len()
    &&& capability_matches(caps[i], cfg_type)
    &&& forall|j: int| 0 <= j < i ==> !capability_matches(#[trigger] caps[j], cfg_type)
}

/// Walks the capabilities in list order and returns the BAR index of the
/// first one that describes a region of type `cfg_type` in BAR 0 to 4, or
/// `None` when no capability does.
pub fn find_capability(caps: &[CapabilityRecord], cfg_type: u8) -> (r: Option<usize>)
    ensures
        match r {
            Some(bar) => exists|i: int|
                is_first_match(caps@, cfg_type, i) && bar == caps@[i].bar as usize,
            None => forall|i: int|
                0 <= i < caps@.len() ==> !capability_matches(#[trigger] caps@[i], cfg_type),
        },
{
    let mut k: usize = 0;
    while k < caps.len()
        invariant
            k <= caps@.len(),
            forall|j: int| 0 <= j < k ==> !capability_matches(#[trigger] caps@[j], cfg_type),
        decreases caps@.len() - k,
    {
        let c = caps[k];
        if c.cfg_type == cfg_type && c.bar <= MAX_BAR_INDEX {
            assert(is_first_match(caps@, cfg_type, k as int));
            return Some(c.bar as usize);
        }
        k = k + 1;
    }
    None
}

/// The BAR that hosts the device-specific configuration region, which the
/// probe maps before the bring-up; a function without one cannot be driven.
pub fn config_bar(caps: &[CapabilityRecord]) -> (r: Result<usize, ProbeError>)
    ensures
        match r {
            Ok(bar) => exists|i: int|
                is_first_match(caps@, VIRTIO_PCI_CAP_DEVICE_CFG, i) && bar == caps@[i].bar as usize,
            Err(e) => e == ProbeError::CapabilityNotFound && forall|i: int|
                0 <= i < caps@.len() ==> !capability_matches(
                    #[trigger] caps@[i],
                    VIRTIO_PCI_CAP_DEVICE_CFG,
                ),
        },
{
    match find_capability(caps, VIRTIO_PCI_CAP_DEVICE_CFG) {
        Some(bar) => Ok(bar),
        None => Err(ProbeError::CapabilityNotFound),
    }
}

} // verus!
