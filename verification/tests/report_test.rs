use the_bus_2_komsi::komsi::KomsiCommandKind;
use the_bus_2_komsi::report::change_line;
use the_bus_2_komsi::report::name_of;
use the_bus_2_komsi::report::vehicle_state_line;
use the_bus_2_komsi::vehicle::init_vehicle_state;
use the_bus_2_komsi::vehicle::VehicleState;
use the_bus_2_komsi::vehiclediff::list_changes;
use the_bus_2_komsi::vehiclediff::SignalChange;

#[test]
fn test_vehicle_state_line_of_neutral() {
    assert_eq!(
        vehicle_state_line(&init_vehicle_state()),
        "ignition:0 engine:0 indicator:0 fuel:0 warn:0 lights:0 lights-highbeam:0 stop:0 \
         fixingbrake:0 stopbrake:0 doors:0 door1:0 door2:0 speed:0 maxspeed:0 batterylight:0  "
    );
}

#[test]
fn test_vehicle_state_line_with_values() {
    let s = VehicleState {
        ignition: 1,
        engine: 2,
        doors: 3,
        speed: 104,
        maxspeed: 50,
        fuel: 4294967295,
        indicator: 7,
        fixing_brake: 8,
        lights_warning: 9,
        lights_main: 10,
        lights_front_door: 11,
        lights_second_door: 12,
        lights_stop_request: 13,
        lights_stop_brake: 14,
        lights_high_beam: 255,
        battery_light: 16,
    };
    let expected = format!(
        "ignition:{} engine:{} indicator:{} fuel:{} warn:{} lights:{} lights-highbeam:{} stop:{} fixingbrake:{} stopbrake:{} doors:{} door1:{} door2:{} speed:{} maxspeed:{} batterylight:{}  ",
        s.ignition,
        s.engine,
        s.indicator,
        s.fuel,
        s.lights_warning,
        s.lights_main,
        s.lights_high_beam,
        s.lights_stop_request,
        s.fixing_brake,
        s.lights_stop_brake,
        s.doors,
        s.lights_front_door,
        s.lights_second_door,
        s.speed,
        s.maxspeed,
        s.battery_light
    );
    assert_eq!(vehicle_state_line(&s), expected);
}

#[test]
fn test_change_line_of_category() {
    let change = SignalChange { kind: KomsiCommandKind::Ignition, old_value: 0, new_value: 1 };
    assert_eq!(change_line(&change), "ignition: 0 -> 1 ");
    let change = SignalChange { kind: KomsiCommandKind::LightsMain, old_value: 255, new_value: 100 };
    assert_eq!(change_line(&change), "lights_main: 255 -> 100 ");
}

#[test]
fn test_change_line_of_magnitude() {
    let change = SignalChange { kind: KomsiCommandKind::Speed, old_value: 9, new_value: 10 };
    assert_eq!(change_line(&change), "speed:  9 -> 10 ");
    let change = SignalChange { kind: KomsiCommandKind::Fuel, old_value: 7500, new_value: 7499 };
    assert_eq!(change_line(&change), "fuel:  7500 -> 7499 ");
    let change = SignalChange { kind: KomsiCommandKind::MaxSpeed, old_value: 0, new_value: 4294967295 };
    assert_eq!(change_line(&change), "maxspeed:  0 -> 4294967295 ");
}

#[test]
fn test_signal_names() {
    assert_eq!(name_of(KomsiCommandKind::Ignition), "ignition");
    assert_eq!(name_of(KomsiCommandKind::Engine), "engine");
    assert_eq!(name_of(KomsiCommandKind::PassengerDoorsOpen), "doors");
    assert_eq!(name_of(KomsiCommandKind::FixingBrake), "fixing_brake");
    assert_eq!(name_of(KomsiCommandKind::Indicator), "indicator");
    assert_eq!(name_of(KomsiCommandKind::LightsWarning), "lights_warning");
    assert_eq!(name_of(KomsiCommandKind::LightsMain), "lights_main");
    assert_eq!(name_of(KomsiCommandKind::LightsStopRequest), "lights_stop_request");
    assert_eq!(name_of(KomsiCommandKind::LightsStopBrake), "lights_stop_brake");
    assert_eq!(name_of(KomsiCommandKind::LightsFrontDoor), "lights_front_door");
    assert_eq!(name_of(KomsiCommandKind::LightsSecondDoor), "lights_second_door");
    assert_eq!(name_of(KomsiCommandKind::LightsHighBeam), "lights_high_beam");
    assert_eq!(name_of(KomsiCommandKind::BatteryLight), "batterylight");
    assert_eq!(name_of(KomsiCommandKind::Fuel), "fuel");
    assert_eq!(name_of(KomsiCommandKind::Speed), "speed");
    assert_eq!(name_of(KomsiCommandKind::MaxSpeed), "maxspeed");
}

#[test]
fn test_change_lines_of_a_diff() {
    let old = init_vehicle_state();
    let mut new = init_vehicle_state();
    new.engine = 1;
    new.fuel = 80;
    let lines: Vec<String> = list_changes(&old, &new, false).iter().map(change_line).collect();
    assert_eq!(lines, vec!["engine: 0 -> 1 ".to_string(), "fuel:  0 -> 80 ".to_string()]);
}

#[test]
fn test_is_magnitude() {
    assert!(KomsiCommandKind::Speed.is_magnitude());
    assert!(KomsiCommandKind::MaxSpeed.is_magnitude());
    assert!(KomsiCommandKind::Fuel.is_magnitude());
    assert!(!KomsiCommandKind::Ignition.is_magnitude());
    assert!(!KomsiCommandKind::BatteryLight.is_magnitude());
    assert!(!KomsiCommandKind::Indicator.is_magnitude());
}
