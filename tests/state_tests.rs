use eruption::hardware::Hardware;
use eruption::hwdevices::HidDeviceDescriptor;
use eruption::signals::{
    Message, OrgEruptionConfigBrightnessChanged, OrgEruptionDeviceDeviceHotplug,
    OrgEruptionProfileActiveProfileChanged, OrgEruptionProcessMonitorRulesRulesChanged,
    OrgEruptionSlotActiveSlotChanged,
};
use eruption::state::{
    device_brightness_key, init_global_runtime_state, init_global_runtime_state_late,
    perform_sanity_checks, SanityWarning, SavedState,
};

fn empty_saved() -> SavedState {
    SavedState {
        active_slot: None,
        slot_names: None,
        profiles: None,
        enable_sfx: None,
        brightness: None,
        device_brightness: vec![],
    }
}

#[test]
fn runtime_state_defaults() {
    let state = init_global_runtime_state(&empty_saved());
    assert_eq!(state.active_slot, 0);
    assert!(!state.enable_sfx);
    assert_eq!(state.brightness, 85);
    assert_eq!(state.slot_names, vec!["Profile Slot 1", "Profile Slot 2", "Profile Slot 3", "Profile Slot 4"]);
    assert_eq!(state.profiles[1], "/var/lib/eruption/profiles/red-wave.profile");
    assert_eq!(state.profiles.len(), 4);
    assert!(perform_sanity_checks(&state).is_empty());
}

#[test]
fn saved_values_win_and_short_slot_names_are_replaced() {
    let mut saved = empty_saved();
    saved.active_slot = Some(7);
    saved.brightness = Some(10);
    saved.enable_sfx = Some(true);
    saved.slot_names = Some(vec!["a".to_string(), "b".to_string()]);
    saved.profiles = Some(vec!["/x.profile".to_string()]);
    let state = init_global_runtime_state(&saved);
    assert_eq!(state.active_slot, 7);
    assert_eq!(state.brightness, 10);
    assert!(state.enable_sfx);
    assert_eq!(state.slot_names[0], "Profile Slot 1");
    assert_eq!(state.profiles, vec!["/x.profile".to_string()]);
    assert_eq!(
        perform_sanity_checks(&state),
        vec![SanityWarning::LowBrightness, SanityWarning::ActiveSlotOutOfRange]
    );
    let names: Vec<String> = ["1", "2", "3", "4", "5"].iter().map(|s| s.to_string()).collect();
    saved.slot_names = Some(names.clone());
    assert_eq!(init_global_runtime_state(&saved).slot_names, names);
}

#[test]
fn brightness_key_format() {
    assert_eq!(device_brightness_key(0x1e7d, 0x343b, "ABC"), "0x1e7d:0x343b:ABC");
    assert_eq!(device_brightness_key(0, 0x0a, ""), "0x0:0xa:");
}

#[test]
fn device_brightness_is_restored_by_key() {
    let devices = vec![
        HidDeviceDescriptor { vendor_id: 0x1e7d, product_id: 0x343b, serial_number: Some("S".to_string()), interface_number: 0, path: String::new() },
        HidDeviceDescriptor { vendor_id: 0x1e7d, product_id: 0x3098, serial_number: None, interface_number: 0, path: String::new() },
    ];
    let saved = vec![
        ("0x1e7d:0x3098:".to_string(), 40i64),
        ("0x1e7d:0x343b:S".to_string(), 60i64),
        ("0x1e7d:0x343b:S".to_string(), 70i64),
    ];
    assert_eq!(init_global_runtime_state_late(&saved, &devices), vec![60, 40]);
    assert_eq!(init_global_runtime_state_late(&[], &devices), vec![100, 100]);
    let wide = vec![("0x1e7d:0x343b:S".to_string(), 4294967296i64 + 5)];
    assert_eq!(init_global_runtime_state_late(&wide, &devices[..1]), vec![5]);
}

#[test]
fn signals_become_messages() {
    assert!(matches!(OrgEruptionSlotActiveSlotChanged { slot: 2 }.into_message(), Message::SlotChanged(2)));
    assert!(matches!(OrgEruptionConfigBrightnessChanged { brightness: 55 }.into_message(), Message::BrightnessChanged(55)));
    assert!(matches!(OrgEruptionDeviceDeviceHotplug { device_info: (1, 2, true) }.into_message(), Message::DeviceHotplug((1, 2, true))));
    match (OrgEruptionProfileActiveProfileChanged { profile_name: "p".to_string() }).into_message() {
        Message::ProfileChanged(name) => assert_eq!(name, "p"),
        other => panic!("unexpected {:?}", other),
    }
    assert!(matches!(OrgEruptionProcessMonitorRulesRulesChanged { rules: vec![] }.into_message(), Message::RulesChanged));
    assert_eq!(Hardware::new(), Hardware {});
}
