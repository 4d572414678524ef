//! The interface between the host and a controller: the records and codes
//! that are exchanged, and the capability that a controller implements.

pub use crate::codes::{ConstantSpeed, Horns, InitPosition, Keys, Sound};
pub use crate::error::{BridgeError, Domain};
pub use crate::records::{BeaconData, Handles, VehicleSpec, VehicleState};

use vstd::prelude::*;

verus! {

/// Version of the plug-in interface that this library implements.
pub const API_VERSION: i32 = 0x0002_0000;

/// Number of slots in a panel buffer and in a sound buffer.
pub const BUFFER_SLOTS: usize = 256;

/// What a controller does when the host calls.
///
/// Every method has a default that does nothing, so that a controller
/// overrides only the calls it cares for. The host decides the order of the
/// calls; a controller must be ready for any order, also for calls after
/// `dispose`.
///
/// The trait asks nothing of an implementation. What a controller wants its
/// callers to know it states on its own methods, as the defaults do here:
/// each leaves the controller as it is.
pub trait Ats: Default {
    /// Called when the plug-in is loaded.
    fn load(&mut self)
        default_ensures
            *final(self) == *old(self),
    {
    }

    /// Called when the plug-in is released. The host may never call it.
    fn dispose(&mut self)
        default_ensures
            *final(self) == *old(self),
    {
    }

    /// The version of the interface that this controller follows. The default
    /// is [`API_VERSION`].
    fn get_plugin_version(&mut self) -> (version: i32)
        default_ensures
            *final(self) == *old(self),
            version == API_VERSION,
    {
        API_VERSION
    }

    /// Called once when a vehicle is loaded.
    fn set_vehicle_spec(&mut self, spec: VehicleSpec)
        default_ensures
            *final(self) == *old(self),
    {
    }

    /// Called when the simulation starts, with the position of the brake
    /// handle at that moment.
    fn initialize(&mut self, brake: InitPosition)
        default_ensures
            *final(self) == *old(self),
    {
    }

    /// Called once per frame. Returns the handle positions to command, all of
    /// them, also when nothing is to change. The default commands zero for
    /// each.
    ///
    /// `panel` and `sound` are views of the host's buffers. They are read
    /// only, they end with the call, and neither is longer than a buffer has
    /// slots.
    fn elapse(&mut self, state: VehicleState, panel: &[i32], sound: &[i32]) -> (handles: Handles)
        requires
            panel@.len() <= BUFFER_SLOTS,
            sound@.len() <= BUFFER_SLOTS,
        default_ensures
            *final(self) == *old(self),
            handles == (Handles { brake: 0, power: 0, reverser: 0, constant_speed: 0 }),
    {
        Handles::default()
    }

    /// Called when the power handle is moved.
    fn set_power(&mut self, notch: i32)
        default_ensures
            *final(self) == *old(self),
    {
    }

    /// Called when the brake handle is moved.
    fn set_brake(&mut self, notch: i32)
        default_ensures
            *final(self) == *old(self),
    {
    }

    /// Called when the reverser is moved.
    fn set_reverser(&mut self, position: i32)
        default_ensures
            *final(self) == *old(self),
    {
    }

    /// Called when a key is pressed.
    fn key_down(&mut self, key: Keys)
        default_ensures
            *final(self) == *old(self),
    {
    }

    /// Called when a key is released.
    fn key_up(&mut self, key: Keys)
        default_ensures
            *final(self) == *old(self),
    {
    }

    /// Called when a horn is blown.
    fn horn_blow(&mut self, horn: Horns)
        default_ensures
            *final(self) == *old(self),
    {
    }

    /// Called when the passenger doors have opened.
    fn door_open(&mut self)
        default_ensures
            *final(self) == *old(self),
    {
    }

    /// Called when the passenger doors have closed.
    fn door_close(&mut self)
        default_ensures
            *final(self) == *old(self),
    {
    }

    /// Called when the signal of the current section changes.
    fn set_signal(&mut self, signal: i32)
        default_ensures
            *final(self) == *old(self),
    {
    }

    /// Called when the vehicle passes a beacon.
    fn set_beacon_data(&mut self, beacon: BeaconData)
        default_ensures
            *final(self) == *old(self),
    {
    }
}

} // verus!
