use eruption::device_config::{
    get_angle_snapping, get_debounce, get_device_brightness, get_dpi_slot, get_firmware_revision,
    get_hardware_profile, get_poll_rate, param_name, set_angle_snapping, set_debounce,
    set_device_brightness, DeviceParam, UtilError,
};
use eruption::text::{decimal_text, hex_text, parse_i64};

#[test]
fn brightness_reply_parses_as_integer() {
    assert_eq!(get_device_brightness("85"), Ok(85));
    assert_eq!(get_device_brightness("-3"), Ok(-3));
    assert_eq!(get_device_brightness("+7"), Ok(7));
    assert_eq!(get_device_brightness("007"), Ok(7));
    assert_eq!(get_device_brightness(""), Err(UtilError::InvalidConfigValue));
    assert_eq!(get_device_brightness("-"), Err(UtilError::InvalidConfigValue));
    assert_eq!(get_device_brightness(" 5"), Err(UtilError::InvalidConfigValue));
    assert_eq!(get_device_brightness("12a"), Err(UtilError::InvalidConfigValue));
}

#[test]
fn integer_parse_matches_std_at_the_limits() {
    for s in [
        "9223372036854775807",
        "9223372036854775808",
        "-9223372036854775808",
        "-9223372036854775809",
        "99999999999999999999999",
        "0",
        "-0",
        "+",
        "1_000",
    ] {
        assert_eq!(parse_i64(s), s.parse::<i64>().ok(), "{}", s);
    }
}

#[test]
fn i32_replies() {
    assert_eq!(get_poll_rate("1000"), Ok(1000));
    assert_eq!(get_dpi_slot("2"), Ok(2));
    assert_eq!(get_hardware_profile("-2147483648"), Ok(i32::MIN));
    assert_eq!(get_hardware_profile("2147483648"), Err(UtilError::InvalidConfigValue));
    assert_eq!(get_poll_rate("fast"), Err(UtilError::InvalidConfigValue));
}

#[test]
fn bool_replies() {
    assert_eq!(get_debounce("true"), Ok(true));
    assert_eq!(get_debounce("false"), Ok(false));
    assert_eq!(get_angle_snapping("false"), Ok(false));
    assert_eq!(get_angle_snapping("True"), Err(UtilError::InvalidConfigValue));
    assert_eq!(get_debounce("1"), Err(UtilError::InvalidConfigValue));
}

#[test]
fn firmware_reply_is_kept_as_text() {
    assert_eq!(get_firmware_revision("1.23"), "1.23");
}

#[test]
fn set_requests() {
    let r = set_device_brightness(3, -42);
    assert_eq!((r.device, r.param.as_str(), r.value.as_str()), (3, "brightness", "-42"));
    let r = set_debounce(1, true);
    assert_eq!((r.device, r.param.as_str(), r.value.as_str()), (1, "debounce", "true"));
    let r = set_angle_snapping(2, false);
    assert_eq!((r.device, r.param.as_str(), r.value.as_str()), (2, "angle-snapping", "false"));
}

#[test]
fn param_names() {
    assert_eq!(param_name(DeviceParam::Brightness), "brightness");
    assert_eq!(param_name(DeviceParam::Firmware), "firmware");
    assert_eq!(param_name(DeviceParam::PollRate), "rate");
    assert_eq!(param_name(DeviceParam::DpiSlot), "dpi");
    assert_eq!(param_name(DeviceParam::HardwareProfile), "profile");
    assert_eq!(param_name(DeviceParam::Debounce), "debounce");
    assert_eq!(param_name(DeviceParam::AngleSnapping), "angle-snapping");
}

#[test]
fn number_text_matches_std_formatting() {
    for v in [0i64, 7, 10, -1, 1234567890, i64::MIN, i64::MAX] {
        assert_eq!(decimal_text(v), format!("{}", v));
    }
    for v in [0u64, 9, 10, 15, 16, 0x1e7d, 0x343b, u64::MAX] {
        assert_eq!(hex_text(v), format!("{:x}", v));
    }
}
