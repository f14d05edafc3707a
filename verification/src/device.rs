//! Device connection decisions.
//!
//! The hardware exposes several logical interfaces; only one streams
//! touch reports.  The caller enumerates what is plugged in and performs
//! the blocking reads; this module decides which interface to open and
//! what one read's outcome leads to.

use crate::report::REPORT_LEN;
use vstd::prelude::*;

verus! {

/// Vendor id of the handheld controller.
pub const TOUCH_VENDOR_ID: u16 = 0x28DE;

/// Product id of the handheld controller.
pub const TOUCH_PRODUCT_ID: u16 = 0x1205;

/// The one logical sub-interface that streams touch reports.
pub const TOUCH_INTERFACE_NUMBER: i32 = 2;

/// Delay, in milliseconds, before the reopen attempt that follows a
/// failed read.
pub const RECONNECT_DELAY_MS: u64 = 1000;

/// Identity of one enumerated hardware interface.
#[derive(Clone, Copy, Debug, PartialEq, Eq, Structural)]
pub struct HidDeviceId {
    pub vendor_id: u16,
    pub product_id: u16,
    pub interface_number: i32,
}

/// The interface worth opening: right vendor, right product, and the
/// sub-interface that streams touch reports.
pub open spec fn spec_is_touch_interface(d: HidDeviceId) -> bool {
    d.vendor_id == TOUCH_VENDOR_ID && d.product_id == TOUCH_PRODUCT_ID && d.interface_number
        == TOUCH_INTERFACE_NUMBER
}

/// Decide whether one enumerated interface is the touch-report stream.
pub fn is_touch_interface(d: &HidDeviceId) -> (r: bool)
    ensures
        r == spec_is_touch_interface(*d),
{
    d.vendor_id == TOUCH_VENDOR_ID && d.product_id == TOUCH_PRODUCT_ID && d.interface_number
        == TOUCH_INTERFACE_NUMBER
}

/// Pick the first enumerated interface that streams touch reports.
/// `None` means nothing matched; the caller retries later, never
/// panics.
pub fn select_device(devices: &Vec<HidDeviceId>) -> (r: Option<usize>)
    ensures
        match r {
            Some(i) => i < devices@.len() && spec_is_touch_interface(devices@[i as int])
                && forall|j: int| 0 <= j < i ==> !spec_is_touch_interface(devices@[j]),
            None => forall|j: int|
                0 <= j < devices@.len() ==> !spec_is_touch_interface(devices@[j]),
        },
{
    let mut idx: usize = 0;
    while idx < devices.len()
        invariant
            0 <= idx <= devices@.len(),
            forall|j: int| 0 <= j < idx ==> !spec_is_touch_interface(devices@[j]),
        decreases devices@.len() - idx,
    {
        if is_touch_interface(&devices[idx]) {
            return Some(idx);
        }
        idx = idx + 1;
    }
    None
}

/// What one read attempt leads to.
#[derive(Clone, Copy, Debug, PartialEq, Eq, Structural)]
pub enum ReadDisposition {
    /// A full report arrived: decode and process it.
    Process,
    /// A read of the wrong size: discard it, continue at once.
    Discard,
    /// The read failed: reopen the device after the delay, abandoning
    /// this cycle; the next iteration retries.
    Reconnect { delay_ms: u64 },
}

/// Classify the outcome of one blocking read, given how many bytes
/// arrived (`None` for an I/O failure).  Exactly one failed read leads
/// to exactly one delayed reopen attempt; it is never fatal.
pub fn read_disposition(bytes_read: Option<usize>) -> (d: ReadDisposition)
    ensures
        bytes_read is None ==> d == (ReadDisposition::Reconnect { delay_ms: RECONNECT_DELAY_MS }),
        (bytes_read matches Some(n) && n == REPORT_LEN) ==> d == ReadDisposition::Process,
        (bytes_read matches Some(n) && n != REPORT_LEN) ==> d == ReadDisposition::Discard,
{
    match bytes_read {
        None => ReadDisposition::Reconnect { delay_ms: RECONNECT_DELAY_MS },
        Some(n) => if n == REPORT_LEN {
            ReadDisposition::Process
        } else {
            ReadDisposition::Discard
        },
    }
}

} // verus!
