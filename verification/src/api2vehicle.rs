//! Maps a reading of the simulator to a vehicle state.

use vstd::prelude::*;
use crate::api::TelemetryReading;
use crate::vehicle::VehicleState;

verus! {

/// The value of a text flag: 1 for `"true"`, 0 for anything else.
pub open spec fn flag_value(text: Seq<char>) -> u8 {
    if text == "true"@ {
        1
    } else {
        0
    }
}

/// The indicator signal for the simulator's indicator state: 1 for left
/// (-1), 2 for right (1), 0 for off and for anything else.
pub open spec fn indicator_value(state: int) -> u8 {
    if state == -1 {
        1
    } else if state == 1 {
        2
    } else {
        0
    }
}

/// The vehicle state that a reading stands for.
pub open spec fn vehicle_state_of(reading: TelemetryReading) -> VehicleState {
    VehicleState {
        ignition: flag_value(reading.ignition_enabled@),
        engine: flag_value(reading.engine_started@),
        doors: flag_value(reading.passenger_doors_open@),
        speed: reading.speed,
        maxspeed: reading.allowed_speed,
        fuel: reading.display_fuel,
        indicator: indicator_value(reading.indicator_state as int),
        fixing_brake: flag_value(reading.fixing_brake@),
        lights_warning: flag_value(reading.warning_lights@),
        lights_main: reading.all_lamps.light_main,
        lights_front_door: reading.all_lamps.front_door_light,
        lights_second_door: reading.all_lamps.second_door_light,
        lights_stop_request: reading.all_lamps.led_stop_request,
        lights_stop_brake: reading.all_lamps.light_stopbrake,
        lights_high_beam: reading.all_lamps.traveller_light,
        battery_light: 0,
    }
}

/// Reads a text flag.
fn read_flag(text: &String) -> (value: u8)
    ensures
        value == flag_value(text@),
{
    let on = String::from_str("true");
    if *text == on {
        1
    } else {
        0
    }
}

/// Reads the indicator state.
fn read_indicator(state: i8) -> (value: u8)
    ensures
        value == indicator_value(state as int),
{
    match state {
        0 => 0,
        -1 => 1,
        1 => 2,
        _ => 0,
    }
}

/// Builds the vehicle state from a reading of the simulator.
pub fn get_vehicle_state_from_api(reading: TelemetryReading) -> (s: VehicleState)
    ensures
        s == vehicle_state_of(reading),
{
    VehicleState {
        ignition: read_flag(&reading.ignition_enabled),
        engine: read_flag(&reading.engine_started),
        doors: read_flag(&reading.passenger_doors_open),
        speed: reading.speed,
        maxspeed: reading.allowed_speed,
        fuel: reading.display_fuel,
        indicator: read_indicator(reading.indicator_state),
        fixing_brake: read_flag(&reading.fixing_brake),
        lights_warning: read_flag(&reading.warning_lights),
        lights_main: reading.all_lamps.light_main,
        lights_front_door: reading.all_lamps.front_door_light,
        lights_second_door: reading.all_lamps.second_door_light,
        lights_stop_request: reading.all_lamps.led_stop_request,
        lights_stop_brake: reading.all_lamps.light_stopbrake,
        lights_high_beam: reading.all_lamps.traveller_light,
        battery_light: 0,
    }
}

} // verus!
