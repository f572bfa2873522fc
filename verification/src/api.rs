//! The telemetry of the simulator, as the vehicle mapping reads it: the
//! text flags as they were reported, every number already whole.

use vstd::prelude::*;

verus! {

/// The brightness of the lamps, each cut to a whole number.
#[derive(Clone, Copy, Debug, PartialEq, Eq, Structural)]
pub struct LampLevels {
    pub light_main: u8,
    pub traveller_light: u8,
    pub front_door_light: u8,
    pub second_door_light: u8,
    pub led_stop_request: u8,
    pub light_stopbrake: u8,
}

/// One reading of the vehicle.
///
/// The flags hold the text `"true"` for "on". `speed` and `allowed_speed`
/// are speeds without sign, rounded; `display_fuel` is the fuel level in
/// hundredths. `indicator_state` is -1 for left, 1 for right, 0 for off.
#[derive(Clone, Debug)]
pub struct TelemetryReading {
    pub actor_name: String,
    pub vehicle_model: String,
    pub ignition_enabled: String,
    pub engine_started: String,
    pub warning_lights: String,
    pub passenger_doors_open: String,
    pub fixing_brake: String,
    pub speed: u32,
    pub allowed_speed: u32,
    pub display_fuel: u32,
    pub indicator_state: i8,
    pub all_lamps: LampLevels,
}

} // verus!
