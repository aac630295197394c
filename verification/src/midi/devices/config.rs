use vstd::prelude::*;

verus! {

/// How a device is configured: the name the MIDI system gives it, and its kind.
#[derive(Clone, Debug)]
pub struct DeviceConfig {
    pub name: String,
    pub device_type: DeviceType,
}

/// The kinds of devices that get specific support.
#[derive(Clone, Copy, Debug, PartialEq, Eq)]
pub enum DeviceType {
    Default,
    LaunchpadPro,
}

/// The configuration of all devices: an identifier for each device, with its configuration.
pub type Config = Vec<(String, DeviceConfig)>;

} // verus!
