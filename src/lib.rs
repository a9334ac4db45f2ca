//! Device abstraction and protocol layer of an RGB lighting daemon for USB HID
//! peripherals: the shared LED canvas, per-model LED report encoding, the
//! driver lifecycle, and device enumeration bookkeeping.

pub mod canvas;
pub mod color;
pub mod device_config;
pub mod hardware;
pub mod hwdevices;
pub mod paths;
pub mod registry;
pub mod roccat_aimo_pad;
pub mod signals;
pub mod state;
pub mod text;
