//! USB device identifiers and the presence of the tracked device in a listing.
use vstd::prelude::*;

verus! {

/// Vendor identifier of the device whose presence is followed by default.
pub const TARGET_VENDOR_ID: u16 = 0x445a;

/// Product identifier of the device whose presence is followed by default.
pub const TARGET_PRODUCT_ID: u16 = 0x1121;

/// A USB vendor/product identifier pair.
#[derive(Clone, Copy, Debug, PartialEq, Eq, Structural)]
pub struct DeviceId {
    pub vendor_id: u16,
    pub product_id: u16,
}

impl DeviceId {
    pub fn new(vendor_id: u16, product_id: u16) -> (r: DeviceId)
        ensures
            r.vendor_id == vendor_id,
            r.product_id == product_id,
    {
        DeviceId { vendor_id, product_id }
    }

    /// The identifier of the device followed by default (`445a:1121`).
    pub fn target() -> (r: DeviceId)
        ensures
            r.vendor_id == TARGET_VENDOR_ID,
            r.product_id == TARGET_PRODUCT_ID,
    {
        DeviceId { vendor_id: TARGET_VENDOR_ID, product_id: TARGET_PRODUCT_ID }
    }
}

/// One entry of a device listing: the identifier read from the device's
/// descriptor, or `None` where the descriptor could not be read.
pub type ListedDevice = Option<DeviceId>;

/// Whether a readable entry of `devices` carries exactly the identifier `target`.
/// Entries whose descriptor could not be read never count.
pub open spec fn target_present(devices: Seq<ListedDevice>, target: DeviceId) -> bool {
    exists|i: int| 0 <= i < devices.len() && #[trigger] devices[i] == Some(target)
}

/// Scans the whole listing for the identifier `target`, skipping the entries
/// whose descriptor could not be read.
pub fn contains_target(devices: &Vec<ListedDevice>, target: DeviceId) -> (found: bool)
    ensures
        found == target_present(devices@, target),
{
    let mut found = false;
    let mut i: usize = 0;
    while i < devices.len()
        invariant
            i <= devices@.len(),
            found == exists|j: int| 0 <= j < i && #[trigger] devices@[j] == Some(target),
        decreases devices@.len() - i,
    {
        match devices[i] {
            Some(d) => {
                if d.vendor_id == target.vendor_id && d.product_id == target.product_id {
                    found = true;
                }
            },
            None => {},
        }
        i = i + 1;
    }
    found
}

} // verus!
