use ats_plugin::api::{
    Ats, BeaconData, ConstantSpeed, Handles, Horns, InitPosition, Keys, VehicleSpec, VehicleState,
    API_VERSION,
};
use ats_plugin::ats::{HkhsAts, UserNotch};

#[derive(Default, Debug, PartialEq)]
struct Idle {
    touched: bool,
}

impl Ats for Idle {}

fn frame(time: i32) -> VehicleState {
    VehicleState {
        location: 250.0f64.to_bits(),
        speed: 45.5f32.to_bits(),
        time,
        bc_pressure: 0.0f32.to_bits(),
        mr_pressure: 800.0f32.to_bits(),
        er_pressure: 490.0f32.to_bits(),
        bp_pressure: 490.0f32.to_bits(),
        sap_pressure: 0.0f32.to_bits(),
        current: 310.0f32.to_bits(),
    }
}

#[test]
fn every_default_method_does_nothing() {
    let mut idle = Idle::default();
    let buffer = [7; 256];
    idle.load();
    idle.set_vehicle_spec(VehicleSpec { brake_notches: 8, power_notches: 5, ats_notch: 3, b67_notch: 6, cars: 10 });
    idle.initialize(InitPosition::Emg);
    idle.set_power(2);
    idle.set_brake(3);
    idle.set_reverser(1);
    idle.key_down(Keys::S);
    idle.key_up(Keys::S);
    idle.horn_blow(Horns::Music);
    idle.door_open();
    idle.door_close();
    idle.set_signal(4);
    idle.set_beacon_data(BeaconData { beacon_type: 1, signal: 2, distance: 30.0f32.to_bits(), optional: 9 });
    idle.dispose();
    assert_eq!(idle, Idle { touched: false });
    assert_eq!(idle.elapse(frame(0), &buffer, &buffer), Handles::default());
    assert_eq!(idle, Idle { touched: false });
}

#[test]
fn default_version_is_the_interface_version() {
    let mut idle = Idle::default();
    assert_eq!(idle.get_plugin_version(), API_VERSION);
    let mut ats = HkhsAts::default();
    assert_eq!(ats.get_plugin_version(), 0x0002_0000);
}

#[test]
fn a_fresh_controller_remembers_zero_notches() {
    let ats = HkhsAts::default();
    assert_eq!(ats.user_notch(), UserNotch { power: 0, brake: 0, reverser: 0 });
    assert_eq!(UserNotch::default(), UserNotch { power: 0, brake: 0, reverser: 0 });
}

#[test]
fn the_controller_commands_what_the_driver_set() {
    let mut ats = HkhsAts::default();
    let buffer = [0; 256];
    ats.set_power(4);
    ats.set_brake(2);
    ats.set_reverser(-1);
    assert_eq!(ats.user_notch(), UserNotch { power: 4, brake: 2, reverser: -1 });
    assert_eq!(
        ats.elapse(frame(100), &buffer, &buffer),
        Handles { brake: 2, power: 4, reverser: -1, constant_speed: 0 }
    );
}

#[test]
fn each_handle_moves_alone() {
    let mut ats = HkhsAts::default();
    ats.set_brake(5);
    assert_eq!(ats.user_notch(), UserNotch { power: 0, brake: 5, reverser: 0 });
    ats.set_power(3);
    assert_eq!(ats.user_notch(), UserNotch { power: 3, brake: 5, reverser: 0 });
    ats.set_reverser(1);
    assert_eq!(ats.user_notch(), UserNotch { power: 3, brake: 5, reverser: 1 });
    ats.set_brake(0);
    assert_eq!(ats.user_notch(), UserNotch { power: 3, brake: 0, reverser: 1 });
}

#[test]
fn the_controller_leaves_constant_speed_alone() {
    let mut ats = HkhsAts::default();
    let buffer = [0; 256];
    ats.set_power(1);
    let handles = ats.elapse(frame(0), &buffer, &buffer);
    assert_eq!(handles.constant_speed, ConstantSpeed::Continue.int_value());
    assert_eq!(ConstantSpeed::from_int(handles.constant_speed), Ok(ConstantSpeed::Continue));
}

#[test]
fn a_frame_repeated_commands_the_same_handles() {
    let mut ats = HkhsAts::default();
    let panel = [1; 256];
    let sound = [2; 256];
    ats.set_brake(6);
    ats.set_power(1);
    let before = ats;
    let first = ats.elapse(frame(500), &panel, &sound);
    let second = ats.elapse(frame(500), &panel, &sound);
    assert_eq!(first, Handles { brake: 6, power: 1, reverser: 0, constant_speed: 0 });
    assert_eq!(second, first);
    assert_eq!(ats, before);
}

#[test]
fn a_frame_commands_the_same_whatever_the_host_shows() {
    let mut ats = HkhsAts::default();
    ats.set_reverser(1);
    let quiet = [0; 256];
    let busy = [9; 256];
    let first = ats.elapse(frame(0), &quiet, &quiet);
    let second = ats.elapse(frame(16), &busy, &busy);
    assert_eq!(first, second);
    assert_eq!(second, Handles { brake: 0, power: 0, reverser: 1, constant_speed: 0 });
}

#[test]
fn events_without_a_handler_change_nothing() {
    let mut ats = HkhsAts::default();
    ats.set_brake(3);
    let before = ats;
    ats.load();
    ats.set_vehicle_spec(VehicleSpec::default());
    ats.initialize(InitPosition::Svc);
    ats.key_down(Keys::A1);
    ats.key_up(Keys::A1);
    ats.horn_blow(Horns::Primary);
    ats.door_open();
    ats.door_close();
    ats.set_signal(3);
    ats.set_beacon_data(BeaconData::default());
    ats.dispose();
    assert_eq!(ats, before);
}
