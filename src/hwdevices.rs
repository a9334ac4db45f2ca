use vstd::prelude::*;

verus! {

/// Errors of the device layer.
#[derive(Debug, Clone, Copy, PartialEq, Eq, Structural)]
pub enum HwDeviceError {
    /// The driver is not bound to a device.
    DeviceNotBound,
    /// The driver's HID handle is not open.
    DeviceNotOpened,
    /// The vendor init sequence has not been sent.
    DeviceNotInitialized,
    /// The OS refused to open the HID device.
    DeviceOpenError,
    /// A transfer on the HID transport failed, or its reply was malformed.
    InvalidResult,
    /// The device does not know the requested report or status code.
    InvalidStatusCode,
    /// No matching device was found on the HID bus.
    EnumerationError,
}

/// A failed transfer on the HID transport, as reported by whoever performs it.
#[derive(Debug, Clone, Copy, PartialEq, Eq, Structural)]
pub struct TransportError {}

/// Maps the outcome of a HID transfer into the device layer's error space.
pub fn transport_result<T>(outcome: Result<T, TransportError>) -> (r: Result<T, HwDeviceError>)
    ensures
        outcome is Ok ==> r == Ok::<T, HwDeviceError>(outcome->Ok_0),
        outcome is Err ==> r == Err::<T, HwDeviceError>(HwDeviceError::InvalidResult),
{
    match outcome {
        Ok(v) => Ok(v),
        Err(_) => Err(HwDeviceError::InvalidResult),
    }
}

/// Information that a device reports about itself.
#[derive(Debug, Clone, Copy, PartialEq, Eq, Structural)]
pub struct DeviceInfo {
    pub firmware_version: i32,
}

impl DeviceInfo {
    pub fn new(firmware_version: i32) -> (r: Self)
        ensures
            r.firmware_version == firmware_version,
    {
        Self { firmware_version }
    }
}

/// The lifecycle flags of a driver, as the status tracker reports them.
#[derive(Debug, Clone, Copy, PartialEq, Eq, Structural)]
pub struct DeviceHealth {
    pub is_bound: bool,
    pub is_opened: bool,
    pub is_initialized: bool,
    pub has_failed: bool,
}

/// Device specific status values, as key/value pairs.
#[derive(Debug, Clone)]
pub struct DeviceStatus {
    pub entries: Vec<(String, String)>,
}

impl DeviceStatus {
    /// The status of a device without telemetry: no entries.
    pub fn new() -> (r: Self)
        ensures
            r.entries@.len() == 0,
    {
        Self { entries: Vec::new() }
    }
}

/// What the HID bus reports about one attached device (one interface).
#[derive(Debug, Clone)]
pub struct HidDeviceDescriptor {
    pub vendor_id: u16,
    pub product_id: u16,
    pub serial_number: Option<String>,
    pub interface_number: i32,
    pub path: String,
}

impl HidDeviceDescriptor {
    /// A copy of the descriptor, field for field.
    pub fn duplicate(&self) -> (r: Self)
        ensures
            r == *self,
    {
        let serial_number = match &self.serial_number {
            Some(s) => Some(s.clone()),
            None => None,
        };
        Self {
            vendor_id: self.vendor_id,
            product_id: self.product_id,
            serial_number,
            interface_number: self.interface_number,
            path: self.path.clone(),
        }
    }
}

/// The serial number of a descriptor, the empty string where it has none.
pub open spec fn serial_of(d: HidDeviceDescriptor) -> Seq<char> {
    match d.serial_number {
        Some(s) => s@,
        None => Seq::empty(),
    }
}

} // verus!
