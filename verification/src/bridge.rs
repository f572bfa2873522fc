//! One tick of the bridge: what to remember and what to send for a sample.

use vstd::prelude::*;
use crate::vehicle::init_vehicle_state;
use crate::vehicle::VehicleState;
use crate::vehiclediff::compare_vehicle_states;
use crate::transport::request_for;
use crate::transport::LinkEvent;
use crate::vehiclediff::diff_bytes;
use crate::vehiclediff::diff_is_empty_iff_unchanged;

verus! {

/// What a tick found when it asked the simulator.
#[derive(Clone, Copy, Debug, PartialEq, Eq, Structural)]
pub enum Sample {
    /// A reading of the vehicle.
    Reading(VehicleState),
    /// Nobody sits in a vehicle.
    NoVehicle,
    /// A vehicle is there, but its data could not be read.
    Unreadable,
}

/// What one tick decides.
#[derive(Debug)]
pub struct TickOutcome {
    /// The snapshot to compare the next sample with.
    pub state: VehicleState,
    /// The bytes to send; empty where nothing changed.
    pub commands: Vec<u8>,
}

/// The snapshot that a tick leaves behind: the reading where there is one,
/// neutral where nobody sits in a vehicle, and the snapshot before where
/// the data could not be read.
pub open spec fn state_after_sample(previous: VehicleState, sample: Sample) -> VehicleState {
    match sample {
        Sample::Reading(reading) => reading,
        Sample::NoVehicle => VehicleState::neutral(),
        Sample::Unreadable => previous,
    }
}

/// The commands of a tick: the step from the snapshot before to the
/// reading; nothing without a reading.
pub open spec fn commands_for_sample(previous: VehicleState, sample: Sample) -> Seq<u8> {
    match sample {
        Sample::Reading(reading) => diff_bytes(previous, reading, false),
        _ => Seq::empty(),
    }
}

/// Handles one sample. With a reading of the vehicle, the commands are the
/// step from the snapshot before to the reading, which becomes the new
/// snapshot. Where nobody sits in a vehicle nothing is sent and the
/// snapshot falls back to neutral, so that the next reading sends every
/// signal that is on. Where the data could not be read nothing is sent and
/// the snapshot stays.
pub fn bridge_tick(previous: &VehicleState, sample: Sample) -> (outcome: TickOutcome)
    ensures
        outcome.state == state_after_sample(*previous, sample),
        outcome.commands@ == commands_for_sample(*previous, sample),
{
    match sample {
        Sample::Reading(reading) => {
            let commands = compare_vehicle_states(previous, &reading, false);
            TickOutcome { state: reading, commands }
        },
        Sample::NoVehicle => TickOutcome { state: init_vehicle_state(), commands: Vec::new() },
        Sample::Unreadable => TickOutcome { state: *previous, commands: Vec::new() },
    }
}

/// A tick asks the link to send exactly when it has a reading that
/// differs from the snapshot before. On an unchanged reading, and without
/// a reading, nothing is asked of the link: no byte is written and the
/// device is not opened.
pub proof fn unchanged_tick_asks_nothing(previous: VehicleState, sample: Sample)
    ensures
        request_for(commands_for_sample(previous, sample)) == if sample matches Sample::Reading(
            reading,
        ) && reading != previous {
            Some(LinkEvent::Send)
        } else {
            None
        },
{
    if let Sample::Reading(reading) = sample {
        diff_is_empty_iff_unchanged(previous, reading, false);
    }
}

} // verus!
