use vstd::prelude::*;

use crate::canvas::CANVAS_SIZE;
use crate::color::{scale_channel, scaled_channel, RGBA};
use crate::hwdevices::{
    serial_of, DeviceHealth, DeviceStatus, HidDeviceDescriptor, HwDeviceError, TransportError,
};

verus! {

/// The USB interface that carries the LED reports.
pub const LED_INTERFACE: i32 = 0;

/// Canvas cell shown by the first LED of the pad.
pub const LED_0: usize = CANVAS_SIZE - 36;

/// Canvas cell shown by the second LED of the pad.
pub const LED_1: usize = CANVAS_SIZE - 1;

/// Report ID of the LED feature report.
pub const LED_REPORT_ID: u8 = 0x03;

/// Report ID of the device info feature report.
pub const DEVICE_INFO_REPORT_ID: u8 = 0x09;

/// Size in bytes of the device info feature report.
pub const DEVICE_INFO_SIZE: usize = 6;

/// Time in milliseconds that the controller needs after each init step.
pub const CTRL_SETTLE_MILLIS: u64 = 25;

/// Layout of the device info feature report: report ID, size, firmware
/// version, then three reserved bytes, one byte each.
#[derive(Debug, Clone, Copy, PartialEq, Eq, Structural)]
pub struct DeviceInfo {
    pub report_id: u8,
    pub size: u8,
    pub firmware_version: u8,
    pub reserved1: u8,
    pub reserved2: u8,
    pub reserved3: u8,
}

impl DeviceInfo {
    /// Reads the fields at their byte offsets, or `None` for a report shorter
    /// than the struct.
    pub fn from_bytes(buf: &[u8]) -> (r: Option<Self>)
        ensures
            buf@.len() < DEVICE_INFO_SIZE ==> r is None,
            buf@.len() >= DEVICE_INFO_SIZE ==> r == Some(
                Self {
                    report_id: buf@[0],
                    size: buf@[1],
                    firmware_version: buf@[2],
                    reserved1: buf@[3],
                    reserved2: buf@[4],
                    reserved3: buf@[5],
                },
            ),
    {
        if buf.len() < DEVICE_INFO_SIZE {
            None
        } else {
            Some(
                Self {
                    report_id: buf[0],
                    size: buf[1],
                    firmware_version: buf[2],
                    reserved1: buf[3],
                    reserved2: buf[4],
                    reserved3: buf[5],
                },
            )
        }
    }
}

/// The control report with ID `id` of the vendor init sequence, if there is one.
pub open spec fn ctrl_report_bytes(id: u8) -> Option<Seq<u8>> {
    if id == 0x06 {
        Some(
            seq![
                0x06u8, 0x00, 0x09, 0x07, 0xfa, 0x00, 0xff, 0x00, 0x00, 0xff, 0x09, 0x07,
                0xfa, 0x00, 0xe6, 0x8c, 0x00, 0xff, 0x80, 0x00, 0x00, 0x09, 0x07, 0xff,
                0x00, 0xff, 0x00, 0x00, 0xff, 0x09, 0x07, 0xff, 0x00, 0xff, 0x00, 0x00,
                0xff, 0x00, 0x00, 0x00, 0x09, 0x07, 0xff, 0x00, 0xff, 0x00, 0x00, 0xff,
                0x09, 0x07, 0xff, 0x00, 0xff, 0x00, 0x00, 0xff, 0x00, 0x00, 0x00, 0x09,
                0x07, 0xff, 0x00, 0xff, 0x00, 0x00, 0xff, 0x09, 0x07, 0xff, 0x00, 0xff,
                0x00, 0x00, 0xff, 0x00, 0x00, 0x00, 0x09, 0x07, 0xff, 0x00, 0xff, 0x00,
                0x00, 0xff, 0x09, 0x07, 0xff, 0x00, 0xff, 0x00, 0x00, 0xff, 0x00, 0x00,
            ],
        )
    } else if id == 0x02 {
        Some(
            seq![
                0x02u8, 0x00, 0x09, 0x07, 0xfa, 0x00, 0xff, 0x00, 0x00, 0xff, 0x09, 0x07,
                0xfa, 0x00, 0xe6, 0x8c, 0x00, 0xff, 0x80,
            ],
        )
    } else if id == 0x04 {
        Some(seq![0x04u8, 0x00, 0x00, 0xff])
    } else if id == 0x01 {
        Some(seq![0x01u8, 0xff, 0x00, 0x00, 0x00])
    } else {
        None
    }
}

/// The report IDs of the init sequence, in the order they are sent.
pub open spec fn init_report_ids() -> Seq<u8> {
    seq![0x06u8, 0x02, 0x04, 0x01]
}

/// The byte that encodes component `j` of cell `c` at `brightness`: red,
/// green and blue scaled, alpha scaled and inverted.
pub open spec fn led_cell_byte(c: RGBA, j: int, brightness: int) -> u8 {
    if j == 0 {
        scaled_channel(c.r as int, brightness) as u8
    } else if j == 1 {
        scaled_channel(c.g as int, brightness) as u8
    } else if j == 2 {
        scaled_channel(c.b as int, brightness) as u8
    } else {
        (255 - scaled_channel(c.a as int, brightness)) as u8
    }
}

/// The LED feature report for the cells at `indices` of `led_map`: the
/// report ID, then four bytes per LED in the order of `indices`.
pub open spec fn led_frame_spec(led_map: Seq<RGBA>, indices: Seq<usize>, brightness: int) -> Seq<
    u8,
> {
    Seq::new(
        (1 + 4 * indices.len()) as nat,
        |p: int|
            if p == 0 {
                LED_REPORT_ID
            } else {
                led_cell_byte(led_map[indices[(p - 1) / 4] as int], (p - 1) % 4, brightness)
            },
    )
}

/// Encodes the cells at `indices` of `led_map` into an LED feature report,
/// scaled by `brightness` percent.
pub fn led_frame(led_map: &[RGBA], indices: &[usize], brightness: i32) -> (r: Vec<u8>)
    requires
        forall|k: int| 0 <= k < indices@.len() ==> indices@[k] < led_map@.len(),
        1 + 4 * indices@.len() <= usize::MAX,
    ensures
        r@ == led_frame_spec(led_map@, indices@, brightness as int),
{
    let mut out: Vec<u8> = Vec::new();
    out.push(LED_REPORT_ID);
    let mut k: usize = 0;
    while k < indices.len()
        invariant
            k <= indices@.len(),
            forall|i: int| 0 <= i < indices@.len() ==> indices@[i] < led_map@.len(),
            out@ == led_frame_spec(led_map@, indices@.take(k as int), brightness as int),
        decreases indices@.len() - k,
    {
        let c = led_map[indices[k]];
        let a = scale_channel(c.a, brightness);
        out.push(scale_channel(c.r, brightness));
        out.push(scale_channel(c.g, brightness));
        out.push(scale_channel(c.b, brightness));
        out.push(255 - a);
        proof {
            let next = led_frame_spec(led_map@, indices@.take(k + 1), brightness as int);
            assert forall|p: int| 0 <= p < next.len() implies out@[p] == next[p] by {
                if p >= 1 {
                    assert((p - 1) / 4 <= k) by (nonlinear_arith)
                        requires
                            1 <= p < 5 + 4 * k,
                    ;
                    if p < 1 + 4 * k {
                        assert((p - 1) / 4 < k) by (nonlinear_arith)
                            requires
                                1 <= p < 1 + 4 * k,
                        ;
                    } else {
                        assert((p - 1) / 4 == k && (p - 1) % 4 == p - 1 - 4 * k) by (
                        nonlinear_arith)
                            requires
                                1 + 4 * k <= p < 5 + 4 * k,
                        ;
                    }
                }
            }
            assert(out@ =~= next);
        }
        k = k + 1;
    }
    assert(indices@.take(indices@.len() as int) =~= indices@);
    out
}

/// One step of the vendor init sequence, performed by the transport's owner.
#[derive(Debug, Clone)]
pub enum InitStep {
    /// Send this feature report.
    FeatureReport(Vec<u8>),
    /// Wait this many milliseconds.
    Wait(u64),
}

/// Whether `step` sends exactly `bytes`.
pub open spec fn is_report_step(step: InitStep, bytes: Seq<u8>) -> bool {
    match step {
        InitStep::FeatureReport(v) => v@ == bytes,
        InitStep::Wait(_) => false,
    }
}

/// The init sequence: each control report of `init_report_ids`, each
/// followed by a settle wait.
pub open spec fn is_init_sequence(steps: Seq<InitStep>) -> bool {
    &&& steps.len() == 2 * init_report_ids().len()
    &&& forall|k: int|
        0 <= k < init_report_ids().len() ==> {
            &&& is_report_step(steps[2 * k], ctrl_report_bytes(init_report_ids()[k])->Some_0)
            &&& steps[2 * k + 1] == InitStep::Wait(CTRL_SETTLE_MILLIS)
        }
}

/// Driver for the ROCCAT Aimo pad: a misc device with two LEDs and no input.
///
/// The driver tracks the lifecycle of the device (bound, opened,
/// initialized, failed) and builds the exact reports that go over the HID
/// transport; the owner of the transport hands back the outcome of each
/// transfer.
#[derive(Debug, Clone)]
pub struct RoccatAimoPad {
    pub is_initialized: bool,
    pub is_bound: bool,
    pub ctrl_hiddev_info: HidDeviceDescriptor,
    pub is_opened: bool,
    pub has_failed: bool,
    /// Device specific brightness, in percent.
    pub brightness: i32,
}

/// The lifecycle error that bars use of the open handle, if any.
pub open spec fn open_error(d: RoccatAimoPad) -> Option<HwDeviceError> {
    if !d.is_bound {
        Some(HwDeviceError::DeviceNotBound)
    } else if !d.is_opened {
        Some(HwDeviceError::DeviceNotOpened)
    } else {
        None
    }
}

/// The lifecycle error that bars data transfers, if any.
pub open spec fn ready_error(d: RoccatAimoPad) -> Option<HwDeviceError> {
    if open_error(d) is Some {
        open_error(d)
    } else if !d.is_initialized {
        Some(HwDeviceError::DeviceNotInitialized)
    } else {
        None
    }
}

/// The flags of `d` after a failed LED transfer.
pub open spec fn failed_state(d: RoccatAimoPad) -> RoccatAimoPad {
    RoccatAimoPad { is_initialized: false, is_opened: false, has_failed: true, ..d }
}

/// What `send_led_map` returns on `d` for `led_map`.
pub open spec fn led_map_outcome(d: RoccatAimoPad, led_map: Seq<RGBA>) -> Result<Seq<u8>, HwDeviceError> {
    match ready_error(d) {
        Some(e) => Err(e),
        None => Ok(led_frame_spec(led_map, seq![LED_0, LED_1], d.brightness as int)),
    }
}

/// Law of the LED path: before the driver is opened an LED map is refused
/// with a lifecycle error, so nothing reaches the transport.
pub proof fn lemma_led_map_before_open_fails(d: RoccatAimoPad, led_map: Seq<RGBA>)
    requires
        !d.is_opened,
    ensures
        led_map_outcome(d, led_map) == Err::<Seq<u8>, HwDeviceError>(HwDeviceError::DeviceNotBound)
            || led_map_outcome(d, led_map) == Err::<Seq<u8>, HwDeviceError>(
            HwDeviceError::DeviceNotOpened,
        ),
{
}

/// Law of the LED path: after a transport error the driver is in the failed
/// state, and the next LED map fails on a lifecycle check instead of
/// reaching the transport.
pub proof fn lemma_failed_led_write_fails_fast(d: RoccatAimoPad, led_map: Seq<RGBA>)
    ensures
        !failed_state(d).is_initialized,
        !failed_state(d).is_opened,
        failed_state(d).has_failed,
        led_map_outcome(failed_state(d), led_map) == if d.is_bound {
            Err::<Seq<u8>, HwDeviceError>(HwDeviceError::DeviceNotOpened)
        } else {
            Err::<Seq<u8>, HwDeviceError>(HwDeviceError::DeviceNotBound)
        },
{
}

impl RoccatAimoPad {
    /// Binds the driver to the supplied HID device.
    pub fn bind(ctrl_dev: &HidDeviceDescriptor) -> (r: Self)
        ensures
            r.is_bound,
            !r.is_opened,
            !r.is_initialized,
            !r.has_failed,
            r.brightness == 100,
            r.ctrl_hiddev_info == *ctrl_dev,
    {
        Self {
            is_initialized: false,
            is_bound: true,
            ctrl_hiddev_info: ctrl_dev.duplicate(),
            is_opened: false,
            has_failed: false,
            brightness: 100,
        }
    }

    fn check_open(&self) -> (r: Result<(), HwDeviceError>)
        ensures
            r is Err <==> open_error(*self) is Some,
            r is Err ==> r->Err_0 == open_error(*self)->Some_0,
    {
        if !self.is_bound {
            Err(HwDeviceError::DeviceNotBound)
        } else if !self.is_opened {
            Err(HwDeviceError::DeviceNotOpened)
        } else {
            Ok(())
        }
    }

    fn check_ready(&self) -> (r: Result<(), HwDeviceError>)
        ensures
            r is Err <==> ready_error(*self) is Some,
            r is Err ==> r->Err_0 == ready_error(*self)->Some_0,
    {
        self.check_open()?;
        if !self.is_initialized {
            Err(HwDeviceError::DeviceNotInitialized)
        } else {
            Ok(())
        }
    }

    /// The control report with ID `id`, to be sent as a feature report.
    pub fn send_ctrl_report(&self, id: u8) -> (r: Result<Vec<u8>, HwDeviceError>)
        ensures
            open_error(*self) is Some ==> r == Err::<Vec<u8>, HwDeviceError>(
                open_error(*self)->Some_0,
            ),
            open_error(*self) is None && ctrl_report_bytes(id) is None ==> r == Err::<
                Vec<u8>,
                HwDeviceError,
            >(HwDeviceError::InvalidStatusCode),
            open_error(*self) is None && ctrl_report_bytes(id) is Some ==> r is Ok && r->Ok_0@
                == ctrl_report_bytes(id)->Some_0,
    {
        self.check_open()?;
        if id == 0x06 {
            let buf: [u8; 96] = [
                0x06, 0x00, 0x09, 0x07, 0xfa, 0x00, 0xff, 0x00, 0x00, 0xff, 0x09, 0x07,
                0xfa, 0x00, 0xe6, 0x8c, 0x00, 0xff, 0x80, 0x00, 0x00, 0x09, 0x07, 0xff,
                0x00, 0xff, 0x00, 0x00, 0xff, 0x09, 0x07, 0xff, 0x00, 0xff, 0x00, 0x00,
                0xff, 0x00, 0x00, 0x00, 0x09, 0x07, 0xff, 0x00, 0xff, 0x00, 0x00, 0xff,
                0x09, 0x07, 0xff, 0x00, 0xff, 0x00, 0x00, 0xff, 0x00, 0x00, 0x00, 0x09,
                0x07, 0xff, 0x00, 0xff, 0x00, 0x00, 0xff, 0x09, 0x07, 0xff, 0x00, 0xff,
                0x00, 0x00, 0xff, 0x00, 0x00, 0x00, 0x09, 0x07, 0xff, 0x00, 0xff, 0x00,
                0x00, 0xff, 0x09, 0x07, 0xff, 0x00, 0xff, 0x00, 0x00, 0xff, 0x00, 0x00,
            ];
            let v = vstd::slice::slice_to_vec(&buf);
            assert(v@ =~= ctrl_report_bytes(id)->Some_0);
            Ok(v)
        } else if id == 0x02 {
            let buf: [u8; 19] = [
                0x02, 0x00, 0x09, 0x07, 0xfa, 0x00, 0xff, 0x00, 0x00, 0xff, 0x09, 0x07,
                0xfa, 0x00, 0xe6, 0x8c, 0x00, 0xff, 0x80,
            ];
            let v = vstd::slice::slice_to_vec(&buf);
            assert(v@ =~= ctrl_report_bytes(id)->Some_0);
            Ok(v)
        } else if id == 0x04 {
            let buf: [u8; 4] = [0x04, 0x00, 0x00, 0xff];
            let v = vstd::slice::slice_to_vec(&buf);
            assert(v@ =~= ctrl_report_bytes(id)->Some_0);
            Ok(v)
        } else if id == 0x01 {
            let buf: [u8; 5] = [0x01, 0xff, 0x00, 0x00, 0x00];
            let v = vstd::slice::slice_to_vec(&buf);
            assert(v@ =~= ctrl_report_bytes(id)->Some_0);
            Ok(v)
        } else {
            Err(HwDeviceError::InvalidStatusCode)
        }
    }

    /// The settle time in milliseconds to wait for the control device after
    /// a control report.
    pub fn wait_for_ctrl_dev(&self) -> (r: Result<u64, HwDeviceError>)
        ensures
            open_error(*self) is Some ==> r == Err::<u64, HwDeviceError>(open_error(*self)->Some_0),
            open_error(*self) is None ==> r == Ok::<u64, HwDeviceError>(CTRL_SETTLE_MILLIS),
    {
        self.check_open()?;
        Ok(CTRL_SETTLE_MILLIS)
    }

    /// Starts the vendor init sequence and returns its steps, each report
    /// followed by its settle wait.
    ///
    /// The steps are best effort: whoever performs them logs a failed step and
    /// goes on with the next one. The driver counts as initialized once the
    /// sequence has been handed out.
    pub fn send_init_sequence(&mut self) -> (r: Result<Vec<InitStep>, HwDeviceError>)
        ensures
            open_error(*old(self)) is Some ==> r == Err::<Vec<InitStep>, HwDeviceError>(
                open_error(*old(self))->Some_0,
            ) && *final(self) == *old(self),
            open_error(*old(self)) is None ==> r is Ok && is_init_sequence(r->Ok_0@)
                && *final(self) == (RoccatAimoPad { is_initialized: true, ..*old(self) }),
    {
        self.check_open()?;
        let ids: [u8; 4] = [0x06, 0x02, 0x04, 0x01];
        let mut steps: Vec<InitStep> = Vec::new();
        let mut k: usize = 0;
        while k < 4
            invariant
                k <= 4,
                ids@ == init_report_ids(),
                open_error(*self) is None,
                steps@.len() == 2 * k,
                forall|j: int|
                    0 <= j < k ==> {
                        &&& is_report_step(steps@[2 * j], ctrl_report_bytes(ids@[j])->Some_0)
                        &&& steps@[2 * j + 1] == InitStep::Wait(CTRL_SETTLE_MILLIS)
                    },
            decreases 4 - k,
        {
            let report = self.send_ctrl_report(ids[k]);
            let wait = self.wait_for_ctrl_dev();
            match (report, wait) {
                (Ok(bytes), Ok(millis)) => {
                    steps.push(InitStep::FeatureReport(bytes));
                    steps.push(InitStep::Wait(millis));
                },
                _ => {
                    assert(false);
                },
            }
            k = k + 1;
        }
        self.is_initialized = true;
        Ok(steps)
    }

    /// The query buffer for the device info feature report: the report ID
    /// followed by zeroes, `DEVICE_INFO_SIZE` bytes in all.
    pub fn get_device_info(&self) -> (r: Result<Vec<u8>, HwDeviceError>)
        ensures
            open_error(*self) is Some ==> r == Err::<Vec<u8>, HwDeviceError>(
                open_error(*self)->Some_0,
            ),
            open_error(*self) is None ==> r is Ok && r->Ok_0@ == seq![
                DEVICE_INFO_REPORT_ID,
                0u8,
                0u8,
                0u8,
                0u8,
                0u8,
            ],
    {
        self.check_open()?;
        let buf: [u8; 6] = [DEVICE_INFO_REPORT_ID, 0, 0, 0, 0, 0];
        let v = vstd::slice::slice_to_vec(&buf);
        assert(v@ =~= seq![DEVICE_INFO_REPORT_ID, 0u8, 0u8, 0u8, 0u8, 0u8]);
        Ok(v)
    }

    /// Decodes the reply to the device info query: the firmware version is
    /// the byte at offset 2. A failed transfer or a short reply is an
    /// `InvalidResult`.
    pub fn device_info_from_report(&self, reply: Result<Vec<u8>, TransportError>) -> (r: Result<
        crate::hwdevices::DeviceInfo,
        HwDeviceError,
    >)
        ensures
            reply is Err ==> r == Err::<crate::hwdevices::DeviceInfo, HwDeviceError>(
                HwDeviceError::InvalidResult,
            ),
            reply is Ok && reply->Ok_0@.len() < DEVICE_INFO_SIZE ==> r == Err::<
                crate::hwdevices::DeviceInfo,
                HwDeviceError,
            >(HwDeviceError::InvalidResult),
            reply is Ok && reply->Ok_0@.len() >= DEVICE_INFO_SIZE ==> r == Ok::<
                crate::hwdevices::DeviceInfo,
                HwDeviceError,
            >(crate::hwdevices::DeviceInfo { firmware_version: reply->Ok_0@[2] as i32 }),
    {
        match reply {
            Err(_) => Err(HwDeviceError::InvalidResult),
            Ok(buf) => match DeviceInfo::from_bytes(buf.as_slice()) {
                Some(info) => Ok(crate::hwdevices::DeviceInfo::new(info.firmware_version as i32)),
                None => Err(HwDeviceError::InvalidResult),
            },
        }
    }

    /// The firmware revision as shown to users; the pad does not report one.
    pub fn get_firmware_revision(&self) -> (r: String)
        ensures
            r@ == "<unknown>"@,
    {
        String::from_str("<unknown>")
    }

    /// The OS path of the bound HID device.
    pub fn get_usb_path(&self) -> (r: String)
        ensures
            r == self.ctrl_hiddev_info.path,
    {
        self.ctrl_hiddev_info.path.clone()
    }

    pub fn get_usb_vid(&self) -> (r: u16)
        ensures
            r == self.ctrl_hiddev_info.vendor_id,
    {
        self.ctrl_hiddev_info.vendor_id
    }

    pub fn get_usb_pid(&self) -> (r: u16)
        ensures
            r == self.ctrl_hiddev_info.product_id,
    {
        self.ctrl_hiddev_info.product_id
    }

    pub fn get_serial(&self) -> (r: Option<&String>)
        ensures
            r == match self.ctrl_hiddev_info.serial_number {
                Some(s) => Some(&s),
                None => None::<&String>,
            },
    {
        match &self.ctrl_hiddev_info.serial_number {
            Some(s) => Some(s),
            None => None,
        }
    }

    /// The support script that drives this model.
    pub fn get_support_script_file(&self) -> (r: String)
        ensures
            r@ == "misc/roccat_aimo_pad"@,
    {
        String::from_str("misc/roccat_aimo_pad")
    }

    /// Records the outcome of opening the OS handle of `ctrl_hiddev_info`.
    /// A driver that is not bound reports `DeviceNotBound` whatever the
    /// outcome; its owner opens no handle for it.
    pub fn open(&mut self, handle: Result<(), TransportError>) -> (r: Result<(), HwDeviceError>)
        ensures
            !old(self).is_bound ==> r == Err::<(), HwDeviceError>(HwDeviceError::DeviceNotBound)
                && *final(self) == *old(self),
            old(self).is_bound && handle is Err ==> r == Err::<(), HwDeviceError>(
                HwDeviceError::DeviceOpenError,
            ) && *final(self) == *old(self),
            old(self).is_bound && handle is Ok ==> r is Ok && *final(self) == (RoccatAimoPad {
                is_opened: true,
                ..*old(self)
            }),
    {
        if !self.is_bound {
            Err(HwDeviceError::DeviceNotBound)
        } else {
            match handle {
                Ok(()) => {
                    self.is_opened = true;
                    Ok(())
                },
                Err(_) => Err(HwDeviceError::DeviceOpenError),
            }
        }
    }

    /// Marks the HID handle closed; its owner drops it.
    pub fn close_all(&mut self) -> (r: Result<(), HwDeviceError>)
        ensures
            open_error(*old(self)) is Some ==> r == Err::<(), HwDeviceError>(
                open_error(*old(self))->Some_0,
            ) && *final(self) == *old(self),
            open_error(*old(self)) is None ==> r is Ok && *final(self) == (RoccatAimoPad {
                is_opened: false,
                ..*old(self)
            }),
    {
        self.check_open()?;
        self.is_opened = false;
        Ok(())
    }

    /// The lifecycle flags, for status reporting.
    pub fn health(&self) -> (r: DeviceHealth)
        ensures
            r == (DeviceHealth {
                is_bound: self.is_bound,
                is_opened: self.is_opened,
                is_initialized: self.is_initialized,
                has_failed: self.has_failed,
            }),
    {
        DeviceHealth {
            is_bound: self.is_bound,
            is_opened: self.is_opened,
            is_initialized: self.is_initialized,
            has_failed: self.has_failed,
        }
    }

    pub fn is_initialized(&self) -> (r: Result<bool, HwDeviceError>)
        ensures
            r == Ok::<bool, HwDeviceError>(self.is_initialized),
    {
        Ok(self.is_initialized)
    }

    pub fn has_failed(&self) -> (r: Result<bool, HwDeviceError>)
        ensures
            r == Ok::<bool, HwDeviceError>(self.has_failed),
    {
        Ok(self.has_failed)
    }

    /// The bytes to write as an output report: `buf` unchanged, once the
    /// device is ready. The owner of the transport maps the outcome with
    /// `transport_result`.
    pub fn write_data_raw(&self, buf: &[u8]) -> (r: Result<Vec<u8>, HwDeviceError>)
        ensures
            ready_error(*self) is Some ==> r == Err::<Vec<u8>, HwDeviceError>(
                ready_error(*self)->Some_0,
            ),
            ready_error(*self) is None ==> r is Ok && r->Ok_0@ == buf@,
    {
        self.check_ready()?;
        Ok(vstd::slice::slice_to_vec(buf))
    }

    /// The number of bytes to read as an input report, once the device is
    /// ready. The owner of the transport maps the outcome with
    /// `transport_result`.
    pub fn read_data_raw(&self, size: usize) -> (r: Result<usize, HwDeviceError>)
        ensures
            ready_error(*self) is Some ==> r == Err::<usize, HwDeviceError>(
                ready_error(*self)->Some_0,
            ),
            ready_error(*self) is None ==> r == Ok::<usize, HwDeviceError>(size),
    {
        self.check_ready()?;
        Ok(size)
    }

    /// The pad has no telemetry: its status has no entries.
    pub fn device_status(&self) -> (r: Result<DeviceStatus, HwDeviceError>)
        ensures
            r is Ok && r->Ok_0.entries@.len() == 0,
    {
        Ok(DeviceStatus::new())
    }

    /// The pad has no input interface.
    pub fn has_input_device(&self) -> (r: bool)
        ensures
            !r,
    {
        false
    }

    pub fn set_local_brightness(&mut self, brightness: i32) -> (r: Result<(), HwDeviceError>)
        ensures
            r is Ok,
            *final(self) == (RoccatAimoPad { brightness, ..*old(self) }),
    {
        self.brightness = brightness;
        Ok(())
    }

    pub fn get_local_brightness(&self) -> (r: Result<i32, HwDeviceError>)
        ensures
            r == Ok::<i32, HwDeviceError>(self.brightness),
    {
        Ok(self.brightness)
    }

    /// The LED feature report for `led_map`: report ID `LED_REPORT_ID`, then
    /// for cells `LED_0` and `LED_1` the red, green and blue components
    /// scaled by the local brightness and the scaled alpha subtracted from
    /// 255. The caller sends it and hands the outcome to `led_map_sent`.
    pub fn send_led_map(&self, led_map: &[RGBA]) -> (r: Result<Vec<u8>, HwDeviceError>)
        requires
            LED_1 < led_map@.len(),
        ensures
            r is Ok <==> led_map_outcome(*self, led_map@) is Ok,
            r is Ok ==> r->Ok_0@ == led_map_outcome(*self, led_map@)->Ok_0,
            r is Err ==> r->Err_0 == led_map_outcome(*self, led_map@)->Err_0,
    {
        self.check_ready()?;
        let indices: [usize; 2] = [LED_0, LED_1];
        assert(indices@ =~= seq![LED_0, LED_1]);
        Ok(led_frame(led_map, &indices, self.brightness))
    }

    /// Records the outcome of sending an LED feature report. A failed
    /// transfer means the device failed or went away: the driver enters the
    /// failed state, which bars further transfers until it is opened again.
    pub fn led_map_sent(&mut self, outcome: Result<(), TransportError>) -> (r: Result<
        (),
        HwDeviceError,
    >)
        ensures
            outcome is Ok ==> r is Ok && *final(self) == *old(self),
            outcome is Err ==> r == Err::<(), HwDeviceError>(HwDeviceError::InvalidResult)
                && *final(self) == failed_state(*old(self)),
    {
        match outcome {
            Ok(()) => Ok(()),
            Err(_) => {
                self.is_initialized = false;
                self.is_opened = false;
                self.has_failed = true;
                Err(HwDeviceError::InvalidResult)
            },
        }
    }

    /// The LED report that shows the init pattern: every LED dark.
    pub fn set_led_init_pattern(&self) -> (r: Result<Vec<u8>, HwDeviceError>)
        ensures
            r is Ok <==> led_map_outcome(*self, dark_canvas()) is Ok,
            r is Ok ==> r->Ok_0@ == led_map_outcome(*self, dark_canvas())->Ok_0,
            r is Err ==> r->Err_0 == led_map_outcome(*self, dark_canvas())->Err_0,
    {
        self.check_ready()?;
        let canvas = crate::canvas::Canvas::new();
        assert(canvas@ =~= dark_canvas());
        self.send_led_map(canvas.cells())
    }

    /// The LED report that shows the off pattern: every LED dark.
    pub fn set_led_off_pattern(&self) -> (r: Result<Vec<u8>, HwDeviceError>)
        ensures
            r is Ok <==> led_map_outcome(*self, dark_canvas()) is Ok,
            r is Ok ==> r->Ok_0@ == led_map_outcome(*self, dark_canvas())->Ok_0,
            r is Err ==> r->Err_0 == led_map_outcome(*self, dark_canvas())->Err_0,
    {
        self.check_ready()?;
        let canvas = crate::canvas::Canvas::new();
        self.send_led_map(canvas.cells())
    }
}

/// A full canvas of blank cells.
pub open spec fn dark_canvas() -> Seq<RGBA> {
    Seq::new(CANVAS_SIZE as nat, |_i: int| crate::canvas::blank())
}

/// Finds the LED interface of the device with the given IDs and serial
/// number among `devices` and binds a driver to the first match.
pub fn bind_hiddev(devices: &[HidDeviceDescriptor], usb_vid: u16, usb_pid: u16, serial: &str) -> (r:
    Result<RoccatAimoPad, HwDeviceError>)
    ensures
        r is Err <==> !(exists|k: int|
            0 <= k < devices@.len() && is_led_interface_of(devices@[k], usb_vid, usb_pid, serial@)),
        r is Err ==> r->Err_0 == HwDeviceError::EnumerationError,
        r is Ok ==> exists|k: int|
            0 <= k < devices@.len() && is_led_interface_of(devices@[k], usb_vid, usb_pid, serial@)
                && (forall|j: int|
                0 <= j < k ==> !is_led_interface_of(devices@[j], usb_vid, usb_pid, serial@))
                && r->Ok_0 == (RoccatAimoPad {
                is_initialized: false,
                is_bound: true,
                ctrl_hiddev_info: devices@[k],
                is_opened: false,
                has_failed: false,
                brightness: 100,
            }),
{
    let wanted = String::from_str(serial);
    let mut k: usize = 0;
    while k < devices.len()
        invariant
            k <= devices@.len(),
            wanted@ == serial@,
            forall|j: int|
                0 <= j < k ==> !is_led_interface_of(devices@[j], usb_vid, usb_pid, serial@),
        decreases devices@.len() - k,
    {
        let d = &devices[k];
        if d.vendor_id == usb_vid && d.product_id == usb_pid && d.interface_number == LED_INTERFACE {
            let serial_matches = match &d.serial_number {
                Some(s) => *s == wanted,
                None => wanted.as_str().unicode_len() == 0,
            };
            if serial_matches {
                proof {
                    if d.serial_number is None {
                        assert(serial@ =~= serial_of(*d));
                    }
                }
                return Ok(RoccatAimoPad::bind(d));
            }
        }
        proof {
            if d.serial_number is None && serial@.len() == 0 {
                assert(serial@ =~= serial_of(*d));
            }
        }
        k = k + 1;
    }
    Err(HwDeviceError::EnumerationError)
}

/// Whether `d` is the LED interface of the device with these IDs and serial.
pub open spec fn is_led_interface_of(d: HidDeviceDescriptor, usb_vid: u16, usb_pid: u16, serial: Seq<
    char,
>) -> bool {
    &&& d.vendor_id == usb_vid
    &&& d.product_id == usb_pid
    &&& serial_of(d) == serial
    &&& d.interface_number == LED_INTERFACE
}

} // verus!
