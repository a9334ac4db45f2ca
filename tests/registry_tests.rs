use eruption::hwdevices::HidDeviceDescriptor;
use eruption::registry::{
    probe_devices, DeviceClass, DeviceKey, DeviceRegistry, AIMO_PAD_USB_PID, ROCCAT_USB_VID,
};

fn descriptor(vid: u16, pid: u16, interface: i32, path: &str) -> HidDeviceDescriptor {
    HidDeviceDescriptor {
        vendor_id: vid,
        product_id: pid,
        serial_number: None,
        interface_number: interface,
        path: path.to_string(),
    }
}

fn bus() -> Vec<HidDeviceDescriptor> {
    vec![
        descriptor(0x046d, 0xc52b, 0, "/dev/hidraw0"),
        descriptor(ROCCAT_USB_VID, AIMO_PAD_USB_PID, 0, "/dev/hidraw1"),
        descriptor(ROCCAT_USB_VID, AIMO_PAD_USB_PID, 1, "/dev/hidraw2"),
    ]
}

#[test]
fn probe_keeps_only_supported_devices() {
    let probed = probe_devices(&bus());
    assert!(probed.keyboards.is_empty());
    assert!(probed.mice.is_empty());
    assert_eq!(probed.misc.len(), 1);
    assert_eq!(probed.misc[0].path, "/dev/hidraw1");
}

#[test]
fn reprobe_without_topology_change_claims_nothing() {
    let mut registry = DeviceRegistry::new();
    let first = registry.claim_hotplugged_devices(&probe_devices(&bus()), true);
    assert_eq!(first.misc, vec![0]);
    assert_eq!(
        registry.misc,
        vec![DeviceKey { usb_vid: ROCCAT_USB_VID, usb_pid: AIMO_PAD_USB_PID }]
    );
    let second = registry.claim_hotplugged_devices(&probe_devices(&bus()), true);
    assert!(second.keyboards.is_empty());
    assert!(second.mice.is_empty());
    assert!(second.misc.is_empty());
    assert_eq!(registry.misc.len(), 1);
}

#[test]
fn claim_deduplicates_within_one_probe() {
    let mut registry = DeviceRegistry::new();
    let mut devices = bus();
    devices.push(descriptor(ROCCAT_USB_VID, AIMO_PAD_USB_PID, 0, "/dev/hidraw9"));
    let probed = probe_devices(&devices);
    assert_eq!(probed.misc.len(), 2);
    let claims = registry.claim_hotplugged_devices(&probed, true);
    assert_eq!(claims.misc, vec![0]);
    assert_eq!(registry.misc.len(), 1);
}

#[test]
fn claim_with_empty_bus_claims_nothing() {
    let mut registry = DeviceRegistry::new();
    let claims = registry.claim_hotplugged_devices(&probe_devices(&[]), false);
    assert!(claims.keyboards.is_empty() && claims.mice.is_empty() && claims.misc.is_empty());
}

#[test]
fn unregistered_device_is_claimed_again() {
    let mut registry = DeviceRegistry::new();
    registry.claim_hotplugged_devices(&probe_devices(&bus()), true);
    registry.unregister(
        DeviceClass::Misc,
        DeviceKey { usb_vid: ROCCAT_USB_VID, usb_pid: AIMO_PAD_USB_PID },
    );
    assert!(registry.misc.is_empty());
    let again = registry.claim_hotplugged_devices(&probe_devices(&bus()), true);
    assert_eq!(again.misc, vec![0]);
}

#[test]
fn mice_are_skipped_when_disabled() {
    let mut registry = DeviceRegistry::new();
    let claims = registry.claim_hotplugged_devices(&probe_devices(&bus()), false);
    assert!(claims.mice.is_empty());
    assert!(registry.mice.is_empty());
    assert_eq!(claims.misc.len(), 1);
}
