use vstd::prelude::*;

verus! {

/// Events that the daemon announces on the message bus, as a client sees them.
#[derive(Debug)]
pub enum Message {
    /// The active slot has changed.
    SlotChanged(usize),
    /// The slot names have changed.
    SlotNamesChanged(Vec<String>),
    /// The active profile has changed.
    ProfileChanged(String),
    /// A device has been hot-plugged: USB vendor ID, product ID, and whether
    /// it was removed.
    DeviceHotplug((u16, u16, bool)),
    /// The global brightness has changed.
    BrightnessChanged(i64),
    /// Sound effects have been switched on or off.
    SoundFxChanged(bool),
    /// The process monitor rules have changed.
    RulesChanged,
}

/// Errors of a message bus client.
#[derive(Debug, Clone)]
pub enum DbusClientError {
    UnknownError { description: String },
    AuthError { description: String },
    MethodFailed { description: String },
}

/// Signal: the active slot has changed.
#[derive(Debug, Clone, Copy, PartialEq, Eq, Structural)]
pub struct OrgEruptionSlotActiveSlotChanged {
    pub slot: u64,
}

/// Signal: the active profile has changed.
#[derive(Debug, Clone)]
pub struct OrgEruptionProfileActiveProfileChanged {
    pub profile_name: String,
}

/// Signal: the set of profiles has changed.
#[derive(Debug, Clone, Copy, PartialEq, Eq, Structural)]
pub struct OrgEruptionProfileProfilesChanged {}

/// Signal: the global brightness has changed.
#[derive(Debug, Clone, Copy, PartialEq, Eq, Structural)]
pub struct OrgEruptionConfigBrightnessChanged {
    pub brightness: i64,
}

/// Signal: a device has been hot-plugged.
#[derive(Debug, Clone, Copy)]
pub struct OrgEruptionDeviceDeviceHotplug {
    pub device_info: (u16, u16, bool),
}

/// Signal: the status of a device has changed; the status is JSON text.
#[derive(Debug, Clone)]
pub struct OrgEruptionDeviceDeviceStatusChanged {
    pub status: String,
}

/// Signal: the process monitor rules have changed.
#[derive(Debug, Clone)]
pub struct OrgEruptionProcessMonitorRulesRulesChanged {
    pub rules: Vec<(String, String, String, String)>,
}

impl OrgEruptionSlotActiveSlotChanged {
    /// The client event for this signal.
    pub fn into_message(self) -> (r: Message)
        ensures
            r == Message::SlotChanged(self.slot as usize),
    {
        Message::SlotChanged(#[verifier::truncate] (self.slot as usize))
    }
}

impl OrgEruptionProfileActiveProfileChanged {
    /// The client event for this signal.
    pub fn into_message(self) -> (r: Message)
        ensures
            r == Message::ProfileChanged(self.profile_name),
    {
        Message::ProfileChanged(self.profile_name)
    }
}

impl OrgEruptionConfigBrightnessChanged {
    /// The client event for this signal.
    pub fn into_message(self) -> (r: Message)
        ensures
            r == Message::BrightnessChanged(self.brightness),
    {
        Message::BrightnessChanged(self.brightness)
    }
}

impl OrgEruptionDeviceDeviceHotplug {
    /// The client event for this signal.
    pub fn into_message(self) -> (r: Message)
        ensures
            r == Message::DeviceHotplug(self.device_info),
    {
        Message::DeviceHotplug(self.device_info)
    }
}

impl OrgEruptionProcessMonitorRulesRulesChanged {
    /// The client event for this signal.
    pub fn into_message(self) -> (r: Message)
        ensures
            r == Message::RulesChanged,
    {
        Message::RulesChanged
    }
}

} // verus!
