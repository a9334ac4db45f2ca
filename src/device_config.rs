use vstd::prelude::*;

use crate::text::{bool_text, decimal_int, decimal_string, decimal_text, parse_bool, parse_i32, parse_i64, parses_within};

verus! {

/// Errors of the configuration helpers.
#[derive(Debug, Clone, Copy, PartialEq, Eq, Structural)]
pub enum UtilError {
    /// A helper process is not running.
    ProcessNotRunning,
    /// Restarting a daemon failed.
    RestartFailed,
    /// A device reported a configuration value that does not parse.
    InvalidConfigValue,
    /// No script file of that name is known.
    ScriptEnumerationError,
}

/// The device specific parameters that can be queried or set.
#[derive(Debug, Clone, Copy, PartialEq, Eq, Structural)]
pub enum DeviceParam {
    Brightness,
    Firmware,
    PollRate,
    DpiSlot,
    HardwareProfile,
    Debounce,
    AngleSnapping,
}

/// The name under which a parameter travels to the daemon.
pub open spec fn param_name_spec(p: DeviceParam) -> Seq<char> {
    match p {
        DeviceParam::Brightness => "brightness"@,
        DeviceParam::Firmware => "firmware"@,
        DeviceParam::PollRate => "rate"@,
        DeviceParam::DpiSlot => "dpi"@,
        DeviceParam::HardwareProfile => "profile"@,
        DeviceParam::Debounce => "debounce"@,
        DeviceParam::AngleSnapping => "angle-snapping"@,
    }
}

/// The name under which a parameter travels to the daemon.
pub fn param_name(p: DeviceParam) -> (r: String)
    ensures
        r@ == param_name_spec(p),
{
    match p {
        DeviceParam::Brightness => String::from_str("brightness"),
        DeviceParam::Firmware => String::from_str("firmware"),
        DeviceParam::PollRate => String::from_str("rate"),
        DeviceParam::DpiSlot => String::from_str("dpi"),
        DeviceParam::HardwareProfile => String::from_str("profile"),
        DeviceParam::Debounce => String::from_str("debounce"),
        DeviceParam::AngleSnapping => String::from_str("angle-snapping"),
    }
}

/// A request to set parameter `param` of device `device` to `value`.
#[derive(Debug, Clone)]
pub struct DeviceConfigUpdate {
    pub device: u64,
    pub param: String,
    pub value: String,
}

/// Reads a brightness reply: a decimal `i64`.
pub fn get_device_brightness(reply: &str) -> (r: Result<i64, UtilError>)
    ensures
        r is Ok <==> parses_within(reply@, i64::MIN as int, i64::MAX as int),
        r is Ok ==> r->Ok_0 == decimal_int(reply@)->Some_0,
        r is Err ==> r->Err_0 == UtilError::InvalidConfigValue,
{
    match parse_i64(reply) {
        Some(v) => Ok(v),
        None => Err(UtilError::InvalidConfigValue),
    }
}

/// The request that sets the brightness of `device`, in decimal.
pub fn set_device_brightness(device: u64, brightness: i64) -> (r: DeviceConfigUpdate)
    ensures
        r.device == device,
        r.param@ == param_name_spec(DeviceParam::Brightness),
        r.value@ == decimal_string(brightness as int),
{
    DeviceConfigUpdate {
        device,
        param: param_name(DeviceParam::Brightness),
        value: decimal_text(brightness),
    }
}

/// Reads a firmware reply: the revision text as the device gives it.
pub fn get_firmware_revision(reply: &str) -> (r: String)
    ensures
        r@ == reply@,
{
    String::from_str(reply)
}

fn read_i32(reply: &str) -> (r: Result<i32, UtilError>)
    ensures
        r is Ok <==> parses_within(reply@, i32::MIN as int, i32::MAX as int),
        r is Ok ==> r->Ok_0 == decimal_int(reply@)->Some_0,
        r is Err ==> r->Err_0 == UtilError::InvalidConfigValue,
{
    match parse_i32(reply) {
        Some(v) => Ok(v),
        None => Err(UtilError::InvalidConfigValue),
    }
}

fn read_bool(reply: &str) -> (r: Result<bool, UtilError>)
    ensures
        r == (if reply@ == "true"@ {
            Ok::<bool, UtilError>(true)
        } else if reply@ == "false"@ {
            Ok::<bool, UtilError>(false)
        } else {
            Err::<bool, UtilError>(UtilError::InvalidConfigValue)
        }),
{
    match parse_bool(reply) {
        Some(b) => Ok(b),
        None => Err(UtilError::InvalidConfigValue),
    }
}

/// Reads a poll rate reply: a decimal `i32`.
pub fn get_poll_rate(reply: &str) -> (r: Result<i32, UtilError>)
    ensures
        r is Ok <==> parses_within(reply@, i32::MIN as int, i32::MAX as int),
        r is Ok ==> r->Ok_0 == decimal_int(reply@)->Some_0,
        r is Err ==> r->Err_0 == UtilError::InvalidConfigValue,
{
    read_i32(reply)
}

/// Reads a DPI slot reply: a decimal `i32`.
pub fn get_dpi_slot(reply: &str) -> (r: Result<i32, UtilError>)
    ensures
        r is Ok <==> parses_within(reply@, i32::MIN as int, i32::MAX as int),
        r is Ok ==> r->Ok_0 == decimal_int(reply@)->Some_0,
        r is Err ==> r->Err_0 == UtilError::InvalidConfigValue,
{
    read_i32(reply)
}

/// Reads a hardware profile reply: a decimal `i32`.
pub fn get_hardware_profile(reply: &str) -> (r: Result<i32, UtilError>)
    ensures
        r is Ok <==> parses_within(reply@, i32::MIN as int, i32::MAX as int),
        r is Ok ==> r->Ok_0 == decimal_int(reply@)->Some_0,
        r is Err ==> r->Err_0 == UtilError::InvalidConfigValue,
{
    read_i32(reply)
}

/// The request that switches debouncing of `device` on or off.
pub fn set_debounce(device: u64, debounce: bool) -> (r: DeviceConfigUpdate)
    ensures
        r.device == device,
        r.param@ == param_name_spec(DeviceParam::Debounce),
        r.value@ == (if debounce {
            "true"@
        } else {
            "false"@
        }),
{
    DeviceConfigUpdate {
        device,
        param: param_name(DeviceParam::Debounce),
        value: bool_text(debounce),
    }
}

/// Reads a debounce reply: `true` or `false`.
pub fn get_debounce(reply: &str) -> (r: Result<bool, UtilError>)
    ensures
        r == (if reply@ == "true"@ {
            Ok::<bool, UtilError>(true)
        } else if reply@ == "false"@ {
            Ok::<bool, UtilError>(false)
        } else {
            Err::<bool, UtilError>(UtilError::InvalidConfigValue)
        }),
{
    read_bool(reply)
}

/// The request that switches angle snapping of `device` on or off.
pub fn set_angle_snapping(device: u64, angle_snapping: bool) -> (r: DeviceConfigUpdate)
    ensures
        r.device == device,
        r.param@ == param_name_spec(DeviceParam::AngleSnapping),
        r.value@ == (if angle_snapping {
            "true"@
        } else {
            "false"@
        }),
{
    DeviceConfigUpdate {
        device,
        param: param_name(DeviceParam::AngleSnapping),
        value: bool_text(angle_snapping),
    }
}

/// Reads an angle snapping reply: `true` or `false`.
pub fn get_angle_snapping(reply: &str) -> (r: Result<bool, UtilError>)
    ensures
        r == (if reply@ == "true"@ {
            Ok::<bool, UtilError>(true)
        } else if reply@ == "false"@ {
            Ok::<bool, UtilError>(false)
        } else {
            Err::<bool, UtilError>(UtilError::InvalidConfigValue)
        }),
{
    read_bool(reply)
}

} // verus!
