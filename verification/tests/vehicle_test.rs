use the_bus_2_komsi::komsi::KomsiCommandKind;
use the_bus_2_komsi::vehicle::init_vehicle_state;
use the_bus_2_komsi::vehicle::VehicleState;

#[test]
fn test_init_vehicle_state_is_all_zero() {
    let s = init_vehicle_state();
    assert_eq!(
        s,
        VehicleState {
            ignition: 0,
            engine: 0,
            doors: 0,
            speed: 0,
            maxspeed: 0,
            fuel: 0,
            indicator: 0,
            fixing_brake: 0,
            lights_warning: 0,
            lights_main: 0,
            lights_front_door: 0,
            lights_second_door: 0,
            lights_stop_request: 0,
            lights_stop_brake: 0,
            lights_high_beam: 0,
            battery_light: 0,
        }
    );
}

#[test]
fn test_value_of_reads_each_field() {
    let s = VehicleState {
        ignition: 1,
        engine: 2,
        doors: 3,
        speed: 400,
        maxspeed: 500,
        fuel: 600,
        indicator: 7,
        fixing_brake: 8,
        lights_warning: 9,
        lights_main: 10,
        lights_front_door: 11,
        lights_second_door: 12,
        lights_stop_request: 13,
        lights_stop_brake: 14,
        lights_high_beam: 15,
        battery_light: 16,
    };
    assert_eq!(s.value_of(KomsiCommandKind::Ignition), 1);
    assert_eq!(s.value_of(KomsiCommandKind::Engine), 2);
    assert_eq!(s.value_of(KomsiCommandKind::PassengerDoorsOpen), 3);
    assert_eq!(s.value_of(KomsiCommandKind::Speed), 400);
    assert_eq!(s.value_of(KomsiCommandKind::MaxSpeed), 500);
    assert_eq!(s.value_of(KomsiCommandKind::Fuel), 600);
    assert_eq!(s.value_of(KomsiCommandKind::Indicator), 7);
    assert_eq!(s.value_of(KomsiCommandKind::FixingBrake), 8);
    assert_eq!(s.value_of(KomsiCommandKind::LightsWarning), 9);
    assert_eq!(s.value_of(KomsiCommandKind::LightsMain), 10);
    assert_eq!(s.value_of(KomsiCommandKind::LightsFrontDoor), 11);
    assert_eq!(s.value_of(KomsiCommandKind::LightsSecondDoor), 12);
    assert_eq!(s.value_of(KomsiCommandKind::LightsStopRequest), 13);
    assert_eq!(s.value_of(KomsiCommandKind::LightsStopBrake), 14);
    assert_eq!(s.value_of(KomsiCommandKind::LightsHighBeam), 15);
    assert_eq!(s.value_of(KomsiCommandKind::BatteryLight), 16);
}

#[test]
fn test_value_of_neutral_is_zero() {
    let s = init_vehicle_state();
    assert_eq!(s.value_of(KomsiCommandKind::Speed), 0);
    assert_eq!(s.value_of(KomsiCommandKind::Ignition), 0);
    assert_eq!(s.value_of(KomsiCommandKind::BatteryLight), 0);
}
