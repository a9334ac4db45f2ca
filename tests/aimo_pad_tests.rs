use eruption::canvas::Canvas;
use eruption::color::RGBA;
use eruption::hwdevices::{
    transport_result, DeviceHealth, HidDeviceDescriptor, HwDeviceError, TransportError,
};
use eruption::roccat_aimo_pad::{
    bind_hiddev, led_frame, InitStep, RoccatAimoPad, CTRL_SETTLE_MILLIS, LED_0, LED_1,
};

fn descriptor(vid: u16, pid: u16, serial: Option<&str>, interface: i32) -> HidDeviceDescriptor {
    HidDeviceDescriptor {
        vendor_id: vid,
        product_id: pid,
        serial_number: serial.map(|s| s.to_string()),
        interface_number: interface,
        path: format!("/dev/hidraw-{}-{}", pid, interface),
    }
}

fn ready_pad() -> RoccatAimoPad {
    let mut pad = RoccatAimoPad::bind(&descriptor(0x1e7d, 0x343b, Some("S1"), 0));
    pad.open(Ok(())).unwrap();
    pad.send_init_sequence().unwrap();
    pad
}

#[test]
fn led_map_before_open_is_a_lifecycle_error() {
    let pad = RoccatAimoPad::bind(&descriptor(0x1e7d, 0x343b, None, 0));
    let canvas = Canvas::new();
    assert_eq!(pad.send_led_map(canvas.cells()).unwrap_err(), HwDeviceError::DeviceNotOpened);

    let mut unbound = pad.clone();
    unbound.is_bound = false;
    assert_eq!(unbound.send_led_map(canvas.cells()).unwrap_err(), HwDeviceError::DeviceNotBound);
}

#[test]
fn led_map_before_init_is_a_lifecycle_error() {
    let mut pad = RoccatAimoPad::bind(&descriptor(0x1e7d, 0x343b, None, 0));
    pad.open(Ok(())).unwrap();
    let canvas = Canvas::new();
    assert_eq!(
        pad.send_led_map(canvas.cells()).unwrap_err(),
        HwDeviceError::DeviceNotInitialized
    );
}

#[test]
fn transport_error_on_led_map_fails_the_device() {
    let mut pad = ready_pad();
    let canvas = Canvas::new();
    assert!(pad.send_led_map(canvas.cells()).is_ok());
    assert_eq!(pad.led_map_sent(Err(TransportError {})), Err(HwDeviceError::InvalidResult));
    assert_eq!(
        pad.health(),
        DeviceHealth { is_bound: true, is_opened: false, is_initialized: false, has_failed: true }
    );
    assert_eq!(pad.has_failed(), Ok(true));
    assert_eq!(pad.send_led_map(canvas.cells()).unwrap_err(), HwDeviceError::DeviceNotOpened);
}

#[test]
fn successful_led_map_keeps_the_state() {
    let mut pad = ready_pad();
    assert_eq!(pad.led_map_sent(Ok(())), Ok(()));
    assert!(pad.is_initialized && pad.is_opened && !pad.has_failed);
}

#[test]
fn two_led_frame_at_half_brightness() {
    let mut canvas = Canvas::with_size(12);
    canvas.fill(RGBA { r: 255, g: 0, b: 0, a: 255 });
    let frame = led_frame(canvas.cells(), &[5, 9], 50);
    assert_eq!(frame, vec![0x03, 128, 0, 0, 127, 128, 0, 0, 127]);
}

#[test]
fn aimo_led_map_uses_its_two_cells() {
    let mut pad = ready_pad();
    pad.set_local_brightness(100).unwrap();
    let mut canvas = Canvas::new();
    canvas.set(LED_0, RGBA { r: 1, g: 2, b: 3, a: 4 });
    canvas.set(LED_1, RGBA { r: 10, g: 20, b: 30, a: 0 });
    let frame = pad.send_led_map(canvas.cells()).unwrap();
    assert_eq!(frame, vec![0x03, 1, 2, 3, 251, 10, 20, 30, 255]);
    assert_eq!(LED_0, 144);
    assert_eq!(LED_1, 179);
}

#[test]
fn init_and_off_patterns_are_dark() {
    let pad = ready_pad();
    let expected = vec![0x03, 0, 0, 0, 255, 0, 0, 0, 255];
    assert_eq!(pad.set_led_init_pattern().unwrap(), expected);
    assert_eq!(pad.set_led_off_pattern().unwrap(), expected);
    let unopened = RoccatAimoPad::bind(&descriptor(0x1e7d, 0x343b, None, 0));
    assert_eq!(unopened.set_led_off_pattern(), Err(HwDeviceError::DeviceNotOpened));
}

#[test]
fn device_info_reply_gives_firmware_version() {
    let pad = ready_pad();
    let query = pad.get_device_info().unwrap();
    assert_eq!(query, vec![0x09, 0, 0, 0, 0, 0]);
    let info = pad.device_info_from_report(Ok(vec![0x09, 0x06, 0x7B, 0, 0, 0])).unwrap();
    assert_eq!(info.firmware_version, 123);
}

#[test]
fn device_info_failures() {
    let pad = ready_pad();
    assert_eq!(
        pad.device_info_from_report(Err(TransportError {})),
        Err(HwDeviceError::InvalidResult)
    );
    assert_eq!(
        pad.device_info_from_report(Ok(vec![0x09, 0x06, 0x7B])),
        Err(HwDeviceError::InvalidResult)
    );
    let unopened = RoccatAimoPad::bind(&descriptor(0x1e7d, 0x343b, None, 0));
    assert_eq!(unopened.get_device_info(), Err(HwDeviceError::DeviceNotOpened));
}

#[test]
fn init_sequence_sends_four_reports_with_waits() {
    let mut pad = RoccatAimoPad::bind(&descriptor(0x1e7d, 0x343b, None, 0));
    assert_eq!(pad.send_init_sequence().unwrap_err(), HwDeviceError::DeviceNotOpened);
    assert!(!pad.is_initialized);
    pad.open(Ok(())).unwrap();
    let steps = pad.send_init_sequence().unwrap();
    assert!(pad.is_initialized);
    assert_eq!(steps.len(), 8);
    let mut ids = vec![];
    for (k, step) in steps.iter().enumerate() {
        match step {
            InitStep::FeatureReport(bytes) => {
                assert_eq!(k % 2, 0);
                ids.push((bytes[0], bytes.len()));
            }
            InitStep::Wait(ms) => {
                assert_eq!(k % 2, 1);
                assert_eq!(*ms, CTRL_SETTLE_MILLIS);
                assert_eq!(*ms, 25);
            }
        }
    }
    assert_eq!(ids, vec![(0x06, 96), (0x02, 19), (0x04, 4), (0x01, 5)]);
}

#[test]
fn ctrl_reports() {
    let pad = ready_pad();
    assert_eq!(pad.send_ctrl_report(0x04).unwrap(), vec![0x04, 0x00, 0x00, 0xff]);
    assert_eq!(pad.send_ctrl_report(0x01).unwrap(), vec![0x01, 0xff, 0x00, 0x00, 0x00]);
    assert_eq!(pad.send_ctrl_report(0x07), Err(HwDeviceError::InvalidStatusCode));
    let unopened = RoccatAimoPad::bind(&descriptor(0x1e7d, 0x343b, None, 0));
    assert_eq!(unopened.send_ctrl_report(0x04), Err(HwDeviceError::DeviceNotOpened));
    assert_eq!(unopened.wait_for_ctrl_dev(), Err(HwDeviceError::DeviceNotOpened));
    assert_eq!(pad.wait_for_ctrl_dev(), Ok(25));
}

#[test]
fn open_and_close() {
    let mut pad = RoccatAimoPad::bind(&descriptor(0x1e7d, 0x343b, None, 0));
    assert_eq!(pad.close_all(), Err(HwDeviceError::DeviceNotOpened));
    assert_eq!(pad.open(Err(TransportError {})), Err(HwDeviceError::DeviceOpenError));
    assert!(!pad.is_opened);
    assert_eq!(pad.open(Ok(())), Ok(()));
    assert!(pad.is_opened);
    assert_eq!(pad.close_all(), Ok(()));
    assert!(!pad.is_opened);
    pad.is_bound = false;
    assert_eq!(pad.open(Ok(())), Err(HwDeviceError::DeviceNotBound));
}

#[test]
fn raw_io_requires_a_ready_device() {
    let pad = ready_pad();
    assert_eq!(pad.write_data_raw(&[1, 2, 3]).unwrap(), vec![1, 2, 3]);
    assert_eq!(pad.read_data_raw(16), Ok(16));
    let mut opened = RoccatAimoPad::bind(&descriptor(0x1e7d, 0x343b, None, 0));
    opened.open(Ok(())).unwrap();
    assert_eq!(opened.write_data_raw(&[1]), Err(HwDeviceError::DeviceNotInitialized));
    assert_eq!(opened.read_data_raw(4), Err(HwDeviceError::DeviceNotInitialized));
    assert_eq!(transport_result::<u8>(Err(TransportError {})), Err(HwDeviceError::InvalidResult));
    assert_eq!(transport_result::<u8>(Ok(5)), Ok(5));
}

#[test]
fn bind_hiddev_finds_the_led_interface() {
    let devices = vec![
        descriptor(0x1e7d, 0x343b, Some("S1"), 1),
        descriptor(0x1234, 0x343b, Some("S1"), 0),
        descriptor(0x1e7d, 0x343b, Some("S1"), 0),
    ];
    let pad = bind_hiddev(&devices, 0x1e7d, 0x343b, "S1").unwrap();
    assert_eq!(pad.get_usb_path(), devices[2].path);
    assert_eq!(pad.get_usb_vid(), 0x1e7d);
    assert_eq!(pad.get_usb_pid(), 0x343b);
    assert_eq!(pad.get_serial().map(|s| s.as_str()), Some("S1"));
    assert!(pad.is_bound && !pad.is_opened && !pad.is_initialized && !pad.has_failed);
    assert_eq!(pad.get_local_brightness(), Ok(100));
    assert_eq!(
        bind_hiddev(&devices, 0x1e7d, 0x343b, "other").unwrap_err(),
        HwDeviceError::EnumerationError
    );
    let unnamed = vec![descriptor(0x1e7d, 0x343b, None, 0)];
    assert!(bind_hiddev(&unnamed, 0x1e7d, 0x343b, "").is_ok());
}

#[test]
fn static_device_facts() {
    let pad = ready_pad();
    assert_eq!(pad.get_firmware_revision(), "<unknown>");
    assert_eq!(pad.get_support_script_file(), "misc/roccat_aimo_pad");
    assert!(!pad.has_input_device());
    assert!(pad.device_status().unwrap().entries.is_empty());
    assert_eq!(pad.is_initialized(), Ok(true));
}
