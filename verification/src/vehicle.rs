//! The vehicle state model: one snapshot of every signal that the
//! instrument cluster can show.

use vstd::prelude::*;
use crate::komsi::KomsiCommandKind;

verus! {

/// A snapshot of the vehicle. Category signals are small numbers with 0 for
/// "off"; magnitudes are whole numbers (fuel in hundredths).
#[derive(Clone, Copy, Debug, PartialEq, Eq, Structural)]
pub struct VehicleState {
    pub ignition: u8,
    pub engine: u8,
    pub doors: u8,
    pub speed: u32,
    pub maxspeed: u32,
    pub fuel: u32,
    pub indicator: u8,
    pub fixing_brake: u8,
    pub lights_warning: u8,
    pub lights_main: u8,
    pub lights_front_door: u8,
    pub lights_second_door: u8,
    pub lights_stop_request: u8,
    pub lights_stop_brake: u8,
    pub lights_high_beam: u8,
    pub battery_light: u8,
}

impl VehicleState {
    /// The value of one signal in this snapshot.
    pub open spec fn signal(self, kind: KomsiCommandKind) -> nat {
        match kind {
            KomsiCommandKind::Ignition => self.ignition as nat,
            KomsiCommandKind::Engine => self.engine as nat,
            KomsiCommandKind::PassengerDoorsOpen => self.doors as nat,
            KomsiCommandKind::Indicator => self.indicator as nat,
            KomsiCommandKind::FixingBrake => self.fixing_brake as nat,
            KomsiCommandKind::LightsWarning => self.lights_warning as nat,
            KomsiCommandKind::LightsMain => self.lights_main as nat,
            KomsiCommandKind::LightsFrontDoor => self.lights_front_door as nat,
            KomsiCommandKind::LightsSecondDoor => self.lights_second_door as nat,
            KomsiCommandKind::LightsStopRequest => self.lights_stop_request as nat,
            KomsiCommandKind::LightsStopBrake => self.lights_stop_brake as nat,
            KomsiCommandKind::LightsHighBeam => self.lights_high_beam as nat,
            KomsiCommandKind::BatteryLight => self.battery_light as nat,
            KomsiCommandKind::MaxSpeed => self.maxspeed as nat,
            KomsiCommandKind::Fuel => self.fuel as nat,
            KomsiCommandKind::Speed => self.speed as nat,
        }
    }

    /// The snapshot with one signal set to a value and all others kept.
    pub open spec fn with_signal(self, kind: KomsiCommandKind, value: nat) -> VehicleState {
        match kind {
            KomsiCommandKind::Ignition => VehicleState { ignition: value as u8, ..self },
            KomsiCommandKind::Engine => VehicleState { engine: value as u8, ..self },
            KomsiCommandKind::PassengerDoorsOpen => VehicleState { doors: value as u8, ..self },
            KomsiCommandKind::Indicator => VehicleState { indicator: value as u8, ..self },
            KomsiCommandKind::FixingBrake => VehicleState { fixing_brake: value as u8, ..self },
            KomsiCommandKind::LightsWarning => VehicleState { lights_warning: value as u8, ..self },
            KomsiCommandKind::LightsMain => VehicleState { lights_main: value as u8, ..self },
            KomsiCommandKind::LightsFrontDoor => VehicleState {
                lights_front_door: value as u8,
                ..self
            },
            KomsiCommandKind::LightsSecondDoor => VehicleState {
                lights_second_door: value as u8,
                ..self
            },
            KomsiCommandKind::LightsStopRequest => VehicleState {
                lights_stop_request: value as u8,
                ..self
            },
            KomsiCommandKind::LightsStopBrake => VehicleState {
                lights_stop_brake: value as u8,
                ..self
            },
            KomsiCommandKind::LightsHighBeam => VehicleState {
                lights_high_beam: value as u8,
                ..self
            },
            KomsiCommandKind::BatteryLight => VehicleState { battery_light: value as u8, ..self },
            KomsiCommandKind::MaxSpeed => VehicleState { maxspeed: value as u32, ..self },
            KomsiCommandKind::Fuel => VehicleState { fuel: value as u32, ..self },
            KomsiCommandKind::Speed => VehicleState { speed: value as u32, ..self },
        }
    }

    /// The snapshot in which every signal is off.
    pub open spec fn neutral() -> VehicleState {
        VehicleState {
            ignition: 0,
            engine: 0,
            doors: 0,
            speed: 0,
            maxspeed: 0,
            fuel: 0,
            indicator: 0,
            fixing_brake: 0,
            lights_warning: 0,
            lights_main: 0,
            lights_front_door: 0,
            lights_second_door: 0,
            lights_stop_request: 0,
            lights_stop_brake: 0,
            lights_high_beam: 0,
            battery_light: 0,
        }
    }

    /// Reads one signal of the snapshot.
    pub fn value_of(&self, kind: KomsiCommandKind) -> (value: u32)
        ensures
            value == self.signal(kind),
            !kind.spec_is_magnitude() ==> value <= u8::MAX,
    {
        match kind {
            KomsiCommandKind::Ignition => self.ignition as u32,
            KomsiCommandKind::Engine => self.engine as u32,
            KomsiCommandKind::PassengerDoorsOpen => self.doors as u32,
            KomsiCommandKind::Indicator => self.indicator as u32,
            KomsiCommandKind::FixingBrake => self.fixing_brake as u32,
            KomsiCommandKind::LightsWarning => self.lights_warning as u32,
            KomsiCommandKind::LightsMain => self.lights_main as u32,
            KomsiCommandKind::LightsFrontDoor => self.lights_front_door as u32,
            KomsiCommandKind::LightsSecondDoor => self.lights_second_door as u32,
            KomsiCommandKind::LightsStopRequest => self.lights_stop_request as u32,
            KomsiCommandKind::LightsStopBrake => self.lights_stop_brake as u32,
            KomsiCommandKind::LightsHighBeam => self.lights_high_beam as u32,
            KomsiCommandKind::BatteryLight => self.battery_light as u32,
            KomsiCommandKind::MaxSpeed => self.maxspeed,
            KomsiCommandKind::Fuel => self.fuel,
            KomsiCommandKind::Speed => self.speed,
        }
    }
}

/// The signals cover the snapshot: two snapshots are equal exactly when
/// every signal has the same value in both.
pub proof fn signals_determine_state(a: VehicleState, b: VehicleState)
    ensures
        a == b <==> (forall|kind: KomsiCommandKind| a.signal(kind) == b.signal(kind)),
{
    if forall|kind: KomsiCommandKind| a.signal(kind) == b.signal(kind) {
        assert(a.signal(KomsiCommandKind::Ignition) == b.signal(KomsiCommandKind::Ignition));
        assert(a.signal(KomsiCommandKind::Engine) == b.signal(KomsiCommandKind::Engine));
        assert(a.signal(KomsiCommandKind::PassengerDoorsOpen) == b.signal(
            KomsiCommandKind::PassengerDoorsOpen,
        ));
        assert(a.signal(KomsiCommandKind::Indicator) == b.signal(KomsiCommandKind::Indicator));
        assert(a.signal(KomsiCommandKind::FixingBrake) == b.signal(KomsiCommandKind::FixingBrake));
        assert(a.signal(KomsiCommandKind::LightsWarning) == b.signal(
            KomsiCommandKind::LightsWarning,
        ));
        assert(a.signal(KomsiCommandKind::LightsMain) == b.signal(KomsiCommandKind::LightsMain));
        assert(a.signal(KomsiCommandKind::LightsFrontDoor) == b.signal(
            KomsiCommandKind::LightsFrontDoor,
        ));
        assert(a.signal(KomsiCommandKind::LightsSecondDoor) == b.signal(
            KomsiCommandKind::LightsSecondDoor,
        ));
        assert(a.signal(KomsiCommandKind::LightsStopRequest) == b.signal(
            KomsiCommandKind::LightsStopRequest,
        ));
        assert(a.signal(KomsiCommandKind::LightsStopBrake) == b.signal(
            KomsiCommandKind::LightsStopBrake,
        ));
        assert(a.signal(KomsiCommandKind::LightsHighBeam) == b.signal(
            KomsiCommandKind::LightsHighBeam,
        ));
        assert(a.signal(KomsiCommandKind::BatteryLight) == b.signal(KomsiCommandKind::BatteryLight));
        assert(a.signal(KomsiCommandKind::MaxSpeed) == b.signal(KomsiCommandKind::MaxSpeed));
        assert(a.signal(KomsiCommandKind::Fuel) == b.signal(KomsiCommandKind::Fuel));
        assert(a.signal(KomsiCommandKind::Speed) == b.signal(KomsiCommandKind::Speed));
    }
}

/// Setting a signal to a value of another snapshot changes that signal
/// and no other.
pub proof fn signal_after_update(
    state: VehicleState,
    source: VehicleState,
    kind: KomsiCommandKind,
    other: KomsiCommandKind,
)
    ensures
        state.with_signal(kind, source.signal(kind)).signal(other) == if other == kind {
            source.signal(kind)
        } else {
            state.signal(other)
        },
{
}

/// The snapshot at start and after a reset: every signal off.
pub fn init_vehicle_state() -> (s: VehicleState)
    ensures
        s == VehicleState::neutral(),
        forall|kind: KomsiCommandKind| s.signal(kind) == 0,
{
    VehicleState {
        ignition: 0,
        engine: 0,
        doors: 0,
        speed: 0,
        indicator: 0,
        fixing_brake: 0,
        lights_warning: 0,
        lights_main: 0,
        lights_front_door: 0,
        lights_second_door: 0,
        lights_stop_request: 0,
        maxspeed: 0,
        lights_high_beam: 0,
        fuel: 0,
        lights_stop_brake: 0,
        battery_light: 0,
    }
}

} // verus!
