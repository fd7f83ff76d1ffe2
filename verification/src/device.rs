//! The settings of the Bijou machine that the interface keeps between runs.

use vstd::prelude::*;

verus! {

/// The serial device the machine is connected to, and the set points of its
/// pump and two heaters.
#[derive(PartialEq, Debug, Clone)]
pub struct BijouDevice {
    pub device: String,
    pub pump_state: bool,
    pub pump: u16,
    pub heater_1_state: bool,
    pub heater_1: u16,
    pub heater_2_state: bool,
    pub heater_2: u16,
}

impl Default for BijouDevice {
    /// No device chosen; pump and heaters off, with set points 0.
    fn default() -> (settings: BijouDevice)
        ensures
            settings.device@ == Seq::<char>::empty(),
            !settings.pump_state,
            settings.pump == 0,
            !settings.heater_1_state,
            settings.heater_1 == 0,
            !settings.heater_2_state,
            settings.heater_2 == 0,
    {
        BijouDevice {
            device: String::new(),
            pump_state: false,
            pump: 0,
            heater_1_state: false,
            heater_1: 0,
            heater_2_state: false,
            heater_2: 0,
        }
    }
}

} // verus!
