//! Device identification shown to users, and device-opening options.
use vstd::prelude::*;
use crate::text::{hex, hex_string, push_str};

verus! {

/// Information about an MTP device, available without opening it.
#[derive(Debug, Clone)]
pub struct MtpDeviceInfo {
    /// USB vendor id.
    pub vendor_id: u16,
    /// USB product id.
    pub product_id: u16,
    /// Manufacturer string from the USB descriptor.
    pub manufacturer: Option<String>,
    /// Product string from the USB descriptor.
    pub product: Option<String>,
    /// Serial number, identifying this physical device.
    pub serial_number: Option<String>,
    /// Identifier of the USB port the device is plugged into.
    pub location_id: u64,
}

/// A name, or "Unknown" when the descriptor lacks it.
pub open spec fn name_or_unknown(s: Option<String>) -> Seq<char> {
    match s {
        Some(v) => v@,
        None => "Unknown"@,
    }
}

/// The display text: manufacturer, product, then the serial (when known) and
/// the location as at least eight lower-case hex digits.
pub open spec fn device_display(d: MtpDeviceInfo) -> Seq<char> {
    let head = name_or_unknown(d.manufacturer) + " "@ + name_or_unknown(d.product);
    match d.serial_number {
        Some(s) => head + " (serial: "@ + s@ + ", location: "@ + hex(d.location_id as nat, 8, false) + ")"@,
        None => head + " (location: "@ + hex(d.location_id as nat, 8, false) + ")"@,
    }
}

impl MtpDeviceInfo {
    /// Formats the device info for display.
    pub fn display(&self) -> (s: String)
        ensures
            s@ == device_display(*self),
    {
        let mut s = String::new();
        match &self.manufacturer {
            Some(m) => push_str(&mut s, m.as_str()),
            None => push_str(&mut s, "Unknown"),
        }
        push_str(&mut s, " ");
        match &self.product {
            Some(p) => push_str(&mut s, p.as_str()),
            None => push_str(&mut s, "Unknown"),
        }
        let loc = hex_string(self.location_id, 8, false);
        match &self.serial_number {
            Some(serial) => {
                push_str(&mut s, " (serial: ");
                push_str(&mut s, serial.as_str());
                push_str(&mut s, ", location: ");
            },
            None => {
                push_str(&mut s, " (location: ");
            },
        }
        push_str(&mut s, loc.as_str());
        push_str(&mut s, ")");
        assert(s@ =~= device_display(*self));
        s
    }
}

/// The `Duration` of `secs` whole seconds, as `std::time::Duration::from_secs`
/// builds it.
pub uninterp spec fn duration_from_secs(secs: u64) -> std::time::Duration;

/// `std::time::Duration::from_secs`: a duration of whole seconds. The claim is
/// only that equal second counts give equal durations (the function is a pure
/// constructor); nothing is said of how the value is laid out.
pub assume_specification[ std::time::Duration::from_secs ](secs: u64) -> (r: std::time::Duration)
    ensures
        r == duration_from_secs(secs),
;

/// Options for opening a device.
pub struct MtpDeviceBuilder {
    /// Timeout of bulk transfers.
    pub timeout: std::time::Duration,
}

/// Default bulk transfer timeout, in seconds.
pub const DEFAULT_TIMEOUT_SECS: u64 = 30;

impl MtpDeviceBuilder {
    /// Builder with the default 30-second bulk transfer timeout.
    pub fn new() -> (b: Self)
        ensures
            b.timeout == duration_from_secs(DEFAULT_TIMEOUT_SECS),
    {
        MtpDeviceBuilder { timeout: std::time::Duration::from_secs(DEFAULT_TIMEOUT_SECS) }
    }

    /// Sets the bulk transfer timeout.
    pub fn timeout(self, timeout: std::time::Duration) -> (b: Self)
        ensures
            b.timeout == timeout,
    {
        MtpDeviceBuilder { timeout }
    }
}

impl Default for MtpDeviceBuilder {
    /// The same builder as [`MtpDeviceBuilder::new`]: a 30-second timeout.
    fn default() -> (b: Self)
        ensures
            b.timeout == duration_from_secs(DEFAULT_TIMEOUT_SECS),
    {
        Self::new()
    }
}

} // verus!
