use vstd::prelude::*;

verus! {

/// The battery state that one reading of a headset reports.
#[derive(Clone, Copy, Debug, PartialEq, Eq, Structural)]
pub enum BatteryState {
    /// Discharging normally.
    BatteryAvailable,
    BatteryCharging,
    BatteryDisconnected,
    /// The device is present but its battery cannot be read.
    BatteryUnavailable,
}

/// The display theme that the host reports.
#[derive(Clone, Copy, Debug, PartialEq, Eq, Structural)]
pub enum Theme {
    Light,
    Dark,
}

/// One battery reading: a percentage (`-1` when unknown) and a state.
#[derive(Clone, Copy, Debug, PartialEq, Eq, Structural)]
pub struct BatterySample {
    pub level: isize,
    pub status: BatteryState,
}

/// A headset as one poll enumerated it.
pub struct Device {
    pub product: String,
    pub battery: BatterySample,
}

impl Device {
    pub fn new(product: String, level: isize, status: BatteryState) -> (r: Device)
        ensures
            r.product@ == product@,
            r.battery == (BatterySample { level, status }),
    {
        Device { product, battery: BatterySample { level, status } }
    }
}

} // verus!
