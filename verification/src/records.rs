//! The records that cross the host boundary, field for field.
//!
//! A record here holds what the host's record holds, in the same order. The
//! host writes some fields as IEEE-754 numbers; such a field is kept as its
//! bit pattern, in an unsigned integer of the same width, so that a record
//! passes through the bridge without loss and two records are equal exactly
//! when the host sent the same bits.

use vstd::prelude::*;

verus! {

/// Facts about a vehicle that hold for as long as it is loaded.
#[derive(Clone, Copy, Debug, PartialEq, Eq, Structural)]
pub struct VehicleSpec {
    /// Number of brake notches
    pub brake_notches: i32,
    /// Number of power notches
    pub power_notches: i32,
    /// Notch at which ATS is confirmed
    pub ats_notch: i32,
    /// Notch that corresponds to 67 degrees of the brake valve
    pub b67_notch: i32,
    /// Number of cars
    pub cars: i32,
}

impl Default for VehicleSpec {
    fn default() -> (spec: VehicleSpec)
        ensures
            spec == (VehicleSpec {
                brake_notches: 0,
                power_notches: 0,
                ats_notch: 0,
                b67_notch: 0,
                cars: 0,
            }),
    {
        VehicleSpec { brake_notches: 0, power_notches: 0, ats_notch: 0, b67_notch: 0, cars: 0 }
    }
}

/// The state of the vehicle in one frame.
#[derive(Clone, Copy, Debug, PartialEq, Eq, Structural)]
pub struct VehicleState {
    /// Position in metres: the bits of a binary64 number
    pub location: u64,
    /// Speed in km/h: the bits of a binary32 number
    pub speed: u32,
    /// Time of the simulation in milliseconds
    pub time: i32,
    /// Brake cylinder pressure in kPa: the bits of a binary32 number
    pub bc_pressure: u32,
    /// Main reservoir pressure in kPa: the bits of a binary32 number
    pub mr_pressure: u32,
    /// Equalizing reservoir pressure in kPa: the bits of a binary32 number
    pub er_pressure: u32,
    /// Brake pipe pressure in kPa: the bits of a binary32 number
    pub bp_pressure: u32,
    /// Straight air pipe pressure in kPa: the bits of a binary32 number
    pub sap_pressure: u32,
    /// Current in amperes: the bits of a binary32 number
    pub current: u32,
}

impl Default for VehicleState {
    fn default() -> (state: VehicleState)
        ensures
            state == (VehicleState {
                location: 0,
                speed: 0,
                time: 0,
                bc_pressure: 0,
                mr_pressure: 0,
                er_pressure: 0,
                bp_pressure: 0,
                sap_pressure: 0,
                current: 0,
            }),
    {
        VehicleState {
            location: 0,
            speed: 0,
            time: 0,
            bc_pressure: 0,
            mr_pressure: 0,
            er_pressure: 0,
            bp_pressure: 0,
            sap_pressure: 0,
            current: 0,
        }
    }
}

/// What the vehicle received when it passed a beacon.
#[derive(Clone, Copy, Debug, PartialEq, Eq, Structural)]
pub struct BeaconData {
    /// Type of the beacon
    pub beacon_type: i32,
    /// Signal of the section that the beacon belongs to
    pub signal: i32,
    /// Distance to that section in metres: the bits of a binary32 number
    pub distance: u32,
    /// A value that the route's author set on the beacon
    pub optional: i32,
}

impl Default for BeaconData {
    fn default() -> (beacon: BeaconData)
        ensures
            beacon == (BeaconData { beacon_type: 0, signal: 0, distance: 0, optional: 0 }),
    {
        BeaconData { beacon_type: 0, signal: 0, distance: 0, optional: 0 }
    }
}

/// The handle positions that a controller commands for one frame.
#[derive(Clone, Copy, Debug, PartialEq, Eq, Structural)]
pub struct Handles {
    /// Brake notch
    pub brake: i32,
    /// Power notch
    pub power: i32,
    /// Position of the reverser
    pub reverser: i32,
    /// Code of the constant-speed directive
    pub constant_speed: i32,
}

impl Default for Handles {
    fn default() -> (handles: Handles)
        ensures
            handles == (Handles { brake: 0, power: 0, reverser: 0, constant_speed: 0 }),
    {
        Handles { brake: 0, power: 0, reverser: 0, constant_speed: 0 }
    }
}

} // verus!
