use vstd::prelude::*;

use crate::hwdevices::HidDeviceDescriptor;
use crate::roccat_aimo_pad::LED_INTERFACE;

verus! {

/// USB vendor ID of ROCCAT devices.
pub const ROCCAT_USB_VID: u16 = 0x1e7d;

/// USB product ID of the ROCCAT Sense AIMO pad.
pub const AIMO_PAD_USB_PID: u16 = 0x343b;

/// The kind of device a driver serves.
#[derive(Debug, Clone, Copy, PartialEq, Eq, Structural)]
pub enum DeviceClass {
    Keyboard,
    Mouse,
    Misc,
}

/// The class of a supported device, or `None` for hardware without a driver.
/// A device is matched on vendor ID, product ID and interface number.
pub open spec fn device_class_of(d: HidDeviceDescriptor) -> Option<DeviceClass> {
    if d.vendor_id == ROCCAT_USB_VID && d.product_id == AIMO_PAD_USB_PID && d.interface_number
        == LED_INTERFACE {
        Some(DeviceClass::Misc)
    } else {
        None
    }
}

/// Looks a device up in the table of supported models.
pub fn match_device(d: &HidDeviceDescriptor) -> (r: Option<DeviceClass>)
    ensures
        r == device_class_of(*d),
{
    if d.vendor_id == ROCCAT_USB_VID && d.product_id == AIMO_PAD_USB_PID && d.interface_number
        == LED_INTERFACE {
        Some(DeviceClass::Misc)
    } else {
        None
    }
}

/// The supported devices found on the bus, by class, in bus order.
#[derive(Debug)]
pub struct ProbedDevices {
    pub keyboards: Vec<HidDeviceDescriptor>,
    pub mice: Vec<HidDeviceDescriptor>,
    pub misc: Vec<HidDeviceDescriptor>,
}

/// The devices of `devices` that a driver of class `class` serves, in order.
pub open spec fn of_class(devices: Seq<HidDeviceDescriptor>, class: DeviceClass) -> Seq<
    HidDeviceDescriptor,
> {
    devices.filter(|d: HidDeviceDescriptor| device_class_of(d) == Some(class))
}

/// Sorts the devices on the bus into the classes of their drivers; devices
/// without a driver are left out.
pub fn probe_devices(devices: &[HidDeviceDescriptor]) -> (r: ProbedDevices)
    ensures
        r.keyboards@ == of_class(devices@, DeviceClass::Keyboard),
        r.mice@ == of_class(devices@, DeviceClass::Mouse),
        r.misc@ == of_class(devices@, DeviceClass::Misc),
{
    let mut keyboards: Vec<HidDeviceDescriptor> = Vec::new();
    let mut mice: Vec<HidDeviceDescriptor> = Vec::new();
    let mut misc: Vec<HidDeviceDescriptor> = Vec::new();
    let mut k: usize = 0;
    while k < devices.len()
        invariant
            k <= devices@.len(),
            keyboards@ == of_class(devices@.take(k as int), DeviceClass::Keyboard),
            mice@ == of_class(devices@.take(k as int), DeviceClass::Mouse),
            misc@ == of_class(devices@.take(k as int), DeviceClass::Misc),
        decreases devices@.len() - k,
    {
        let d = &devices[k];
        proof {
            assert(devices@.take(k + 1).drop_last() =~= devices@.take(k as int));
            reveal(Seq::filter);
        }
        match match_device(d) {
            Some(DeviceClass::Keyboard) => keyboards.push(d.duplicate()),
            Some(DeviceClass::Mouse) => mice.push(d.duplicate()),
            Some(DeviceClass::Misc) => misc.push(d.duplicate()),
            None => {},
        }
        k = k + 1;
    }
    assert(devices@.take(devices@.len() as int) =~= devices@);
    ProbedDevices { keyboards, mice, misc }
}

/// What a registered driver is deduplicated by: its USB IDs.
#[derive(Debug, Clone, Copy, PartialEq, Eq, Structural)]
pub struct DeviceKey {
    pub usb_vid: u16,
    pub usb_pid: u16,
}

pub open spec fn key_of(d: HidDeviceDescriptor) -> DeviceKey {
    DeviceKey { usb_vid: d.vendor_id, usb_pid: d.product_id }
}

/// The keys that a claim over the first `n` of `probed` adds to `registered`:
/// each device whose key is neither registered nor claimed before it.
pub open spec fn claimed_keys(registered: Seq<DeviceKey>, probed: Seq<HidDeviceDescriptor>, n: int) -> Seq<
    DeviceKey,
>
    decreases n,
{
    if n <= 0 {
        Seq::empty()
    } else {
        let before = claimed_keys(registered, probed, n - 1);
        if (registered + before).contains(key_of(probed[n - 1])) {
            before
        } else {
            before.push(key_of(probed[n - 1]))
        }
    }
}

/// The keys of the drivers that are registered, by class.
#[derive(Debug, Clone)]
pub struct DeviceRegistry {
    pub keyboards: Vec<DeviceKey>,
    pub mice: Vec<DeviceKey>,
    pub misc: Vec<DeviceKey>,
}

/// The positions, in the probed lists, of the devices that a hot-plug claim
/// took over.
#[derive(Debug)]
pub struct HotplugClaims {
    pub keyboards: Vec<usize>,
    pub mice: Vec<usize>,
    pub misc: Vec<usize>,
}

fn contains_key(keys: &Vec<DeviceKey>, key: DeviceKey) -> (r: bool)
    ensures
        r == keys@.contains(key),
{
    let mut k: usize = 0;
    while k < keys.len()
        invariant
            k <= keys@.len(),
            forall|j: int| 0 <= j < k ==> keys@[j] != key,
        decreases keys@.len() - k,
    {
        if keys[k].usb_vid == key.usb_vid && keys[k].usb_pid == key.usb_pid {
            assert(keys@[k as int] == key);
            return true;
        }
        k = k + 1;
    }
    false
}

/// Registers the keys of `probed` that are not registered yet, in order, and
/// returns the positions of the devices so claimed.
fn claim_class(registered: &mut Vec<DeviceKey>, probed: &[HidDeviceDescriptor]) -> (r: Vec<usize>)
    ensures
        final(registered)@ == old(registered)@ + claimed_keys(
            old(registered)@,
            probed@,
            probed@.len() as int,
        ),
        r@.len() == claimed_keys(old(registered)@, probed@, probed@.len() as int).len(),
        forall|j: int|
            0 <= j < r@.len() ==> r@[j] < probed@.len() && key_of(probed@[r@[j] as int])
                == claimed_keys(old(registered)@, probed@, probed@.len() as int)[j],
        forall|j: int|
            0 <= j < r@.len() ==> key_of(probed@[r@[j] as int]) == final(registered)@[old(
                registered,
            )@.len() + j],
{
    let ghost start = registered@;
    let mut claimed: Vec<usize> = Vec::new();
    let mut k: usize = 0;
    while k < probed.len()
        invariant
            k <= probed@.len(),
            registered@ == start + claimed_keys(start, probed@, k as int),
            claimed@.len() == claimed_keys(start, probed@, k as int).len(),
            forall|j: int|
                0 <= j < claimed@.len() ==> #[trigger] claimed@[j] < k && key_of(
                    probed@[claimed@[j] as int],
                ) == claimed_keys(start, probed@, k as int)[j],
        decreases probed@.len() - k,
    {
        let key = DeviceKey { usb_vid: probed[k].vendor_id, usb_pid: probed[k].product_id };
        let ghost before = claimed_keys(start, probed@, k as int);
        assert(key == key_of(probed@[k as int]));
        if !contains_key(registered, key) {
            registered.push(key);
            claimed.push(k);
            assert(claimed_keys(start, probed@, k + 1) == before.push(key));
            assert(registered@ =~= start + claimed_keys(start, probed@, k + 1));
        } else {
            assert(claimed_keys(start, probed@, k + 1) == before);
        }
        assert forall|j: int| 0 <= j < claimed@.len() implies claimed@[j] < k + 1 && key_of(
            probed@[claimed@[j] as int],
        ) == claimed_keys(start, probed@, k + 1)[j] by {
            if j < before.len() {
                assert(claimed_keys(start, probed@, k + 1)[j] == before[j]);
            }
        }
        k = k + 1;
    }
    proof {
        let all = claimed_keys(start, probed@, probed@.len() as int);
        assert forall|j: int| 0 <= j < claimed@.len() implies registered@[start.len() + j] == all[j] by {
            assert((start + all)[start.len() + j] == all[j]);
        }
    }
    claimed
}

/// Every key of the first `n` probed devices is registered once the claim
/// over them is done.
proof fn lemma_claim_covers(registered: Seq<DeviceKey>, probed: Seq<HidDeviceDescriptor>, n: int)
    requires
        0 <= n <= probed.len(),
    ensures
        forall|j: int|
            0 <= j < n ==> (registered + claimed_keys(registered, probed, n)).contains(
                key_of(probed[j]),
            ),
    decreases n,
{
    if n > 0 {
        lemma_claim_covers(registered, probed, n - 1);
        let before = claimed_keys(registered, probed, n - 1);
        let after = claimed_keys(registered, probed, n);
        assert forall|j: int| 0 <= j < n implies (registered + after).contains(
            key_of(probed[j]),
        ) by {
            if j < n - 1 {
                let i = choose|i: int|
                    0 <= i < (registered + before).len() && (registered + before)[i] == key_of(
                        probed[j],
                    );
                assert((registered + after)[i] == key_of(probed[j]));
            } else if !(registered + before).contains(key_of(probed[n - 1])) {
                assert((registered + after)[(registered + after).len() - 1] == key_of(
                    probed[n - 1],
                ));
            }
        }
    }
}

/// A claim over keys that are all registered already claims nothing.
proof fn lemma_claim_of_registered(registered: Seq<DeviceKey>, probed: Seq<HidDeviceDescriptor>, n: int)
    requires
        0 <= n <= probed.len(),
        forall|j: int| 0 <= j < n ==> registered.contains(key_of(probed[j])),
    ensures
        claimed_keys(registered, probed, n) == Seq::<DeviceKey>::empty(),
    decreases n,
{
    if n > 0 {
        lemma_claim_of_registered(registered, probed, n - 1);
        assert(registered + Seq::<DeviceKey>::empty() =~= registered);
    }
}

/// Law of enumeration: claiming the same probed devices a second time,
/// with no change of topology in between, claims nothing and leaves the
/// registry as it is.
pub proof fn lemma_reclaim_is_idempotent(registered: Seq<DeviceKey>, probed: Seq<HidDeviceDescriptor>)
    ensures
        claimed_keys(
            registered + claimed_keys(registered, probed, probed.len() as int),
            probed,
            probed.len() as int,
        ) == Seq::<DeviceKey>::empty(),
{
    lemma_claim_covers(registered, probed, probed.len() as int);
    lemma_claim_of_registered(
        registered + claimed_keys(registered, probed, probed.len() as int),
        probed,
        probed.len() as int,
    );
}

fn remove_key(keys: &mut Vec<DeviceKey>, key: DeviceKey)
    ensures
        final(keys)@ == old(keys)@.filter(|k: DeviceKey| k != key),
{
    let ghost start = keys@;
    let mut kept: Vec<DeviceKey> = Vec::new();
    let mut k: usize = 0;
    while k < keys.len()
        invariant
            k <= keys@.len(),
            keys@ == start,
            kept@ == start.take(k as int).filter(|k: DeviceKey| k != key),
        decreases keys@.len() - k,
    {
        proof {
            assert(start.take(k + 1).drop_last() =~= start.take(k as int));
            reveal(Seq::filter);
        }
        let current = keys[k];
        if !(current.usb_vid == key.usb_vid && current.usb_pid == key.usb_pid) {
            kept.push(current);
        }
        k = k + 1;
    }
    assert(start.take(start.len() as int) =~= start);
    *keys = kept;
}

impl DeviceRegistry {
    /// Forgets the drivers of class `class` with key `key`, for instance after
    /// they failed, so that the next claim can bind the device again.
    pub fn unregister(&mut self, class: DeviceClass, key: DeviceKey)
        ensures
            class == DeviceClass::Keyboard ==> final(self).keyboards@ == old(self).keyboards@.filter(
                |k: DeviceKey| k != key,
            ),
            class != DeviceClass::Keyboard ==> final(self).keyboards@ == old(self).keyboards@,
            class == DeviceClass::Mouse ==> final(self).mice@ == old(self).mice@.filter(
                |k: DeviceKey| k != key,
            ),
            class != DeviceClass::Mouse ==> final(self).mice@ == old(self).mice@,
            class == DeviceClass::Misc ==> final(self).misc@ == old(self).misc@.filter(
                |k: DeviceKey| k != key,
            ),
            class != DeviceClass::Misc ==> final(self).misc@ == old(self).misc@,
    {
        match class {
            DeviceClass::Keyboard => remove_key(&mut self.keyboards, key),
            DeviceClass::Mouse => remove_key(&mut self.mice, key),
            DeviceClass::Misc => remove_key(&mut self.misc, key),
        }
    }

    /// An empty registry.
    pub fn new() -> (r: Self)
        ensures
            r.keyboards@.len() == 0,
            r.mice@.len() == 0,
            r.misc@.len() == 0,
    {
        Self { keyboards: Vec::new(), mice: Vec::new(), misc: Vec::new() }
    }

    /// Claims the probed devices that no registered driver serves yet,
    /// deduplicated by USB IDs; mice only where mouse support is enabled.
    /// Returns the positions of the claimed devices in the probed lists; their
    /// keys are registered, and the caller binds, opens and initializes a
    /// driver for each.
    pub fn claim_hotplugged_devices(&mut self, probed: &ProbedDevices, enable_mouse: bool) -> (r:
        HotplugClaims)
        ensures
            final(self).keyboards@ == old(self).keyboards@ + claimed_keys(
                old(self).keyboards@,
                probed.keyboards@,
                probed.keyboards@.len() as int,
            ),
            enable_mouse ==> final(self).mice@ == old(self).mice@ + claimed_keys(
                old(self).mice@,
                probed.mice@,
                probed.mice@.len() as int,
            ),
            !enable_mouse ==> final(self).mice@ == old(self).mice@ && r.mice@.len() == 0,
            final(self).misc@ == old(self).misc@ + claimed_keys(
                old(self).misc@,
                probed.misc@,
                probed.misc@.len() as int,
            ),
            r.keyboards@.len() == final(self).keyboards@.len() - old(self).keyboards@.len(),
            r.mice@.len() == final(self).mice@.len() - old(self).mice@.len(),
            r.misc@.len() == final(self).misc@.len() - old(self).misc@.len(),
            forall|j: int|
                0 <= j < r.keyboards@.len() ==> r.keyboards@[j] < probed.keyboards@.len()
                    && key_of(probed.keyboards@[r.keyboards@[j] as int])
                    == final(self).keyboards@[old(self).keyboards@.len() + j],
            forall|j: int|
                0 <= j < r.mice@.len() ==> r.mice@[j] < probed.mice@.len() && key_of(
                    probed.mice@[r.mice@[j] as int],
                ) == final(self).mice@[old(self).mice@.len() + j],
            forall|j: int|
                0 <= j < r.misc@.len() ==> r.misc@[j] < probed.misc@.len() && key_of(
                    probed.misc@[r.misc@[j] as int],
                ) == final(self).misc@[old(self).misc@.len() + j],
    {
        let keyboards = claim_class(&mut self.keyboards, probed.keyboards.as_slice());
        let mice = if enable_mouse {
            claim_class(&mut self.mice, probed.mice.as_slice())
        } else {
            Vec::new()
        };
        let misc = claim_class(&mut self.misc, probed.misc.as_slice());
        HotplugClaims { keyboards, mice, misc }
    }
}

} // verus!
