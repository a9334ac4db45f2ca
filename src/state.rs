use vstd::prelude::*;

use crate::hwdevices::{serial_of, HidDeviceDescriptor};
use crate::paths::DEFAULT_PROFILE_DIR;
use crate::text::{hex_digits, hex_text};

verus! {

/// Number of profile slots.
pub const NUM_SLOTS: usize = 4;

/// Global brightness where the saved state has none.
pub const DEFAULT_BRIGHTNESS: i64 = 85;

/// Device brightness where the saved state has none for a device.
pub const DEFAULT_DEVICE_BRIGHTNESS: i64 = 100;

/// Global brightness below which the LEDs will likely stay dark.
pub const LOW_BRIGHTNESS: i64 = 25;

/// Errors of loading or saving the runtime state.
#[derive(Debug, Clone)]
pub enum StateError {
    StateLoadError { description: String },
    StateWriteError { description: String },
}

/// The values read from the saved state file; a value that the file does
/// not hold is `None`.
#[derive(Debug, Clone)]
pub struct SavedState {
    pub active_slot: Option<usize>,
    pub slot_names: Option<Vec<String>>,
    pub profiles: Option<Vec<String>>,
    pub enable_sfx: Option<bool>,
    pub brightness: Option<i64>,
    /// Device brightness by device key, see `device_brightness_key`.
    pub device_brightness: Vec<(String, i64)>,
}

/// The runtime state of the daemon.
#[derive(Debug, Clone)]
pub struct RuntimeState {
    pub active_slot: usize,
    pub slot_names: Vec<String>,
    pub profiles: Vec<String>,
    pub enable_sfx: bool,
    pub brightness: i64,
}

/// A hint that the loaded state is unusual.
#[derive(Debug, Clone, Copy, PartialEq, Eq, Structural)]
pub enum SanityWarning {
    /// The global brightness is below `LOW_BRIGHTNESS`.
    LowBrightness,
    /// The active slot is not a valid slot number.
    ActiveSlotOutOfRange,
}

/// The name of profile slot `i` (counting from zero).
pub open spec fn default_slot_name(i: int) -> Seq<char> {
    if i == 0 {
        "Profile Slot 1"@
    } else if i == 1 {
        "Profile Slot 2"@
    } else if i == 2 {
        "Profile Slot 3"@
    } else {
        "Profile Slot 4"@
    }
}

/// The profile file name of slot `i` (counting from zero).
pub open spec fn default_profile_name(i: int) -> Seq<char> {
    if i == 0 {
        "blue-fx-swirl-perlin.profile"@
    } else if i == 1 {
        "red-wave.profile"@
    } else if i == 2 {
        "swirl-perlin.profile"@
    } else {
        "spectrum-analyzer-swirl.profile"@
    }
}

fn default_slot_names() -> (r: Vec<String>)
    ensures
        r@.len() == NUM_SLOTS,
        forall|i: int| 0 <= i < NUM_SLOTS ==> #[trigger] r@[i]@ == default_slot_name(i),
{
    let mut r: Vec<String> = Vec::new();
    r.push(String::from_str("Profile Slot 1"));
    r.push(String::from_str("Profile Slot 2"));
    r.push(String::from_str("Profile Slot 3"));
    r.push(String::from_str("Profile Slot 4"));
    r
}

fn profile_in_default_dir(name: &str) -> (r: String)
    ensures
        r@ == DEFAULT_PROFILE_DIR@ + "/"@ + name@,
{
    let mut p = String::from_str(DEFAULT_PROFILE_DIR);
    p.append("/");
    p.append(name);
    p
}

fn default_profiles() -> (r: Vec<String>)
    ensures
        r@.len() == NUM_SLOTS,
        forall|i: int|
            0 <= i < NUM_SLOTS ==> #[trigger] r@[i]@ == DEFAULT_PROFILE_DIR@ + "/"@
                + default_profile_name(i),
{
    let mut r: Vec<String> = Vec::new();
    r.push(profile_in_default_dir("blue-fx-swirl-perlin.profile"));
    r.push(profile_in_default_dir("red-wave.profile"));
    r.push(profile_in_default_dir("swirl-perlin.profile"));
    r.push(profile_in_default_dir("spectrum-analyzer-swirl.profile"));
    r
}

fn copy_strings(v: &Vec<String>) -> (r: Vec<String>)
    ensures
        r@ == v@,
{
    let mut out: Vec<String> = Vec::new();
    let mut k: usize = 0;
    while k < v.len()
        invariant
            k <= v@.len(),
            out@ == v@.take(k as int),
        decreases v@.len() - k,
    {
        out.push(v[k].clone());
        assert(out@ =~= v@.take(k + 1));
        k = k + 1;
    }
    assert(v@.take(v@.len() as int) =~= v@);
    out
}

/// Builds the runtime state from the saved state: the active slot (default
/// 0), sound effects (default off), the global brightness (default
/// `DEFAULT_BRIGHTNESS`), the slot profiles (default: one profile of the
/// default profile directory per slot) and the slot names (default
/// "Profile Slot 1" to "Profile Slot 4"; saved names are used only where
/// there is one for each slot).
pub fn init_global_runtime_state(saved: &SavedState) -> (r: RuntimeState)
    ensures
        r.active_slot == match saved.active_slot {
            Some(s) => s,
            None => 0,
        },
        r.enable_sfx == match saved.enable_sfx {
            Some(b) => b,
            None => false,
        },
        r.brightness == match saved.brightness {
            Some(b) => b,
            None => DEFAULT_BRIGHTNESS,
        },
        saved.profiles is Some ==> r.profiles@ == saved.profiles->Some_0@,
        saved.profiles is None ==> r.profiles@.len() == NUM_SLOTS && forall|i: int|
            0 <= i < NUM_SLOTS ==> #[trigger] r.profiles@[i]@ == DEFAULT_PROFILE_DIR@ + "/"@
                + default_profile_name(i),
        (saved.slot_names is Some && saved.slot_names->Some_0@.len() >= NUM_SLOTS) ==> r.slot_names@
            == saved.slot_names->Some_0@,
        !(saved.slot_names is Some && saved.slot_names->Some_0@.len() >= NUM_SLOTS) ==> (
        r.slot_names@.len() == NUM_SLOTS && forall|i: int|
            0 <= i < NUM_SLOTS ==> #[trigger] r.slot_names@[i]@ == default_slot_name(i)),
{
    let slot_names = match &saved.slot_names {
        Some(names) => if names.len() >= NUM_SLOTS {
            copy_strings(names)
        } else {
            default_slot_names()
        },
        None => default_slot_names(),
    };
    let profiles = match &saved.profiles {
        Some(p) => copy_strings(p),
        None => default_profiles(),
    };
    RuntimeState {
        active_slot: match saved.active_slot {
            Some(s) => s,
            None => 0,
        },
        slot_names,
        profiles,
        enable_sfx: match saved.enable_sfx {
            Some(b) => b,
            None => false,
        },
        brightness: match saved.brightness {
            Some(b) => b,
            None => DEFAULT_BRIGHTNESS,
        },
    }
}

/// Warns of a global brightness below `LOW_BRIGHTNESS` and of an active
/// slot that is not a slot number, in that order.
pub fn perform_sanity_checks(state: &RuntimeState) -> (r: Vec<SanityWarning>)
    ensures
        r@ == (if state.brightness < LOW_BRIGHTNESS {
            seq![SanityWarning::LowBrightness]
        } else {
            Seq::empty()
        }) + (if state.active_slot >= NUM_SLOTS {
            seq![SanityWarning::ActiveSlotOutOfRange]
        } else {
            Seq::empty()
        }),
{
    let mut r: Vec<SanityWarning> = Vec::new();
    if state.brightness < LOW_BRIGHTNESS {
        r.push(SanityWarning::LowBrightness);
    }
    if state.active_slot >= NUM_SLOTS {
        r.push(SanityWarning::ActiveSlotOutOfRange);
    }
    assert(r@ =~= (if state.brightness < LOW_BRIGHTNESS {
        seq![SanityWarning::LowBrightness]
    } else {
        Seq::empty()
    }) + (if state.active_slot >= NUM_SLOTS {
        seq![SanityWarning::ActiveSlotOutOfRange]
    } else {
        Seq::empty()
    }));
    r
}

/// The key under which a device's brightness is saved:
/// `0x<vid>:0x<pid>:<serial>`, the IDs in lower-case hexadecimal.
pub open spec fn brightness_key_spec(usb_vid: u16, usb_pid: u16, serial: Seq<char>) -> Seq<char> {
    "0x"@ + hex_digits(usb_vid as nat) + ":0x"@ + hex_digits(usb_pid as nat) + ":"@ + serial
}

/// The key under which a device's brightness is saved.
pub fn device_brightness_key(usb_vid: u16, usb_pid: u16, serial: &str) -> (r: String)
    ensures
        r@ == brightness_key_spec(usb_vid, usb_pid, serial@),
{
    let mut key = String::from_str("0x");
    let vid = hex_text(usb_vid as u64);
    key.append(vid.as_str());
    key.append(":0x");
    let pid = hex_text(usb_pid as u64);
    key.append(pid.as_str());
    key.append(":");
    key.append(serial);
    key
}

/// The saved brightness of the first entry with key `key`, if any.
pub open spec fn saved_brightness(saved: Seq<(String, i64)>, key: Seq<char>) -> Option<i64>
    decreases saved.len(),
{
    if saved.len() == 0 {
        None
    } else if saved[0].0@ == key {
        Some(saved[0].1)
    } else {
        saved_brightness(saved.drop_first(), key)
    }
}

/// The brightness to give a device with brightness key `key`.
pub open spec fn restored_brightness(saved: Seq<(String, i64)>, key: Seq<char>) -> i32 {
    match saved_brightness(saved, key) {
        Some(b) => b as i32,
        None => DEFAULT_DEVICE_BRIGHTNESS as i32,
    }
}

fn lookup_brightness(saved: &[(String, i64)], key: &String) -> (r: i32)
    ensures
        r == restored_brightness(saved@, key@),
{
    let mut k: usize = 0;
    assert(saved@.skip(0) =~= saved@);
    while k < saved.len()
        invariant
            k <= saved@.len(),
            saved_brightness(saved@, key@) == saved_brightness(saved@.skip(k as int), key@),
        decreases saved@.len() - k,
    {
        assert(saved@.skip(k as int).drop_first() =~= saved@.skip(k + 1));
        if saved[k].0 == *key {
            return #[verifier::truncate] (saved[k].1 as i32);
        }
        k = k + 1;
    }
    DEFAULT_DEVICE_BRIGHTNESS as i32
}

/// The device brightness to restore for each device, in order: the saved
/// value under the device's key (`device_brightness_key`), or
/// `DEFAULT_DEVICE_BRIGHTNESS`.
pub fn init_global_runtime_state_late(saved: &[(String, i64)], devices: &[HidDeviceDescriptor]) -> (r:
    Vec<i32>)
    ensures
        r@.len() == devices@.len(),
        forall|i: int|
            0 <= i < devices@.len() ==> #[trigger] r@[i] == restored_brightness(
                saved@,
                brightness_key_spec(
                    devices@[i].vendor_id,
                    devices@[i].product_id,
                    serial_of(devices@[i]),
                ),
            ),
{
    let mut out: Vec<i32> = Vec::new();
    let mut k: usize = 0;
    while k < devices.len()
        invariant
            k <= devices@.len(),
            out@.len() == k,
            forall|i: int|
                0 <= i < k ==> #[trigger] out@[i] == restored_brightness(
                    saved@,
                    brightness_key_spec(
                        devices@[i].vendor_id,
                        devices@[i].product_id,
                        serial_of(devices@[i]),
                    ),
                ),
        decreases devices@.len() - k,
    {
        let d = &devices[k];
        let key = match &d.serial_number {
            Some(s) => device_brightness_key(d.vendor_id, d.product_id, s.as_str()),
            None => {
                let empty = String::new();
                device_brightness_key(d.vendor_id, d.product_id, empty.as_str())
            },
        };
        out.push(lookup_brightness(saved, &key));
        k = k + 1;
    }
    out
}

} // verus!
