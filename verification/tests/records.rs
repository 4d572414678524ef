use ats_plugin::api::{BeaconData, Handles, VehicleSpec, VehicleState, API_VERSION, BUFFER_SLOTS};

#[test]
fn interface_version_is_two_point_zero() {
    assert_eq!(API_VERSION, 0x0002_0000);
    assert_eq!(API_VERSION, 131072);
}

#[test]
fn a_buffer_has_256_slots() {
    assert_eq!(BUFFER_SLOTS, 256);
}

#[test]
fn default_vehicle_spec_is_all_zero() {
    assert_eq!(
        VehicleSpec::default(),
        VehicleSpec { brake_notches: 0, power_notches: 0, ats_notch: 0, b67_notch: 0, cars: 0 }
    );
}

#[test]
fn default_vehicle_state_is_all_zero() {
    let state = VehicleState::default();
    assert_eq!(f64::from_bits(state.location), 0.0);
    assert_eq!(f32::from_bits(state.speed), 0.0);
    assert_eq!(state.time, 0);
    assert_eq!(f32::from_bits(state.bc_pressure), 0.0);
    assert_eq!(f32::from_bits(state.mr_pressure), 0.0);
    assert_eq!(f32::from_bits(state.er_pressure), 0.0);
    assert_eq!(f32::from_bits(state.bp_pressure), 0.0);
    assert_eq!(f32::from_bits(state.sap_pressure), 0.0);
    assert_eq!(f32::from_bits(state.current), 0.0);
}

#[test]
fn default_beacon_is_all_zero() {
    let beacon = BeaconData::default();
    assert_eq!(beacon, BeaconData { beacon_type: 0, signal: 0, distance: 0, optional: 0 });
    assert_eq!(f32::from_bits(beacon.distance), 0.0);
}

#[test]
fn default_handles_are_all_zero() {
    assert_eq!(
        Handles::default(),
        Handles { brake: 0, power: 0, reverser: 0, constant_speed: 0 }
    );
}

#[test]
fn a_state_keeps_the_bits_it_was_given() {
    let state = VehicleState {
        location: 1234.5f64.to_bits(),
        speed: 72.25f32.to_bits(),
        time: 36_000_000,
        bc_pressure: 440.0f32.to_bits(),
        mr_pressure: 780.0f32.to_bits(),
        er_pressure: 490.0f32.to_bits(),
        bp_pressure: 490.0f32.to_bits(),
        sap_pressure: 0.0f32.to_bits(),
        current: (-120.5f32).to_bits(),
    };
    let copy = state;
    assert_eq!(copy, state);
    assert_eq!(f64::from_bits(copy.location), 1234.5);
    assert_eq!(f32::from_bits(copy.speed), 72.25);
    assert_eq!(f32::from_bits(copy.current), -120.5);
    assert_ne!(state, VehicleState { time: 36_000_001, ..state });
}

#[test]
fn records_differ_when_one_field_differs() {
    let spec = VehicleSpec { brake_notches: 8, power_notches: 5, ats_notch: 3, b67_notch: 6, cars: 10 };
    assert_ne!(spec, VehicleSpec { cars: 11, ..spec });
    assert_ne!(spec, VehicleSpec { brake_notches: 7, ..spec });
    let handles = Handles { brake: 1, power: 2, reverser: 3, constant_speed: 4 };
    assert_ne!(handles, Handles { brake: 2, power: 1, ..handles });
}
