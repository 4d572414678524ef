//! The bridge between the host's entry points and one controller.
//!
//! A [`Bridge`] owns its controller. Each entry point of the host has a method
//! here, which takes what the host passes: integers as they come, and the
//! memory behind a buffer as a slice of whatever length it is declared with.
//! The method checks the codes, narrows each buffer to its fixed capacity, and
//! only then calls the controller's method of the same name.
//!
//! A call that cannot be carried out is refused with a [`BridgeError`], and the
//! controller is not called. Every refusal is final: from then on the bridge
//! refuses every call, so that a host which goes on after a failure never gets
//! control values from a controller that has missed an event.
//!
//! What a call does to the controller is stated through the controller's own
//! contract. A clause of the form
//!
//! ```text
//! exists|c: &mut A| *c == before && *final(c) == after
//!     && call_ensures(A::method, (c, arguments), result)
//! ```
//!
//! says that `after` and `result` are what one run of `A::method` on the
//! controller `before` left and returned. Whatever `A` promises of that
//! method then holds of `after` and `result`; of a controller that promises
//! nothing, nothing more is known.
//!
//! Every method takes the bridge by `&mut`, so two calls on one bridge never
//! overlap. A process that shares one bridge among threads keeps it behind a
//! lock.

use vstd::prelude::*;
use vstd::slice::slice_subrange;
use crate::api::{Ats, BUFFER_SLOTS};
use crate::codes::{Horns, InitPosition, Keys};
use crate::error::BridgeError;
use crate::records::{BeaconData, Handles, VehicleSpec, VehicleState};

verus! {

/// The view of a buffer that a controller gets: the first [`BUFFER_SLOTS`]
/// slots of the memory behind it and nothing beyond them, however much memory
/// is declared.
///
/// Fails when fewer slots are declared than a buffer has.
pub fn bounded_view<'a>(backing: &'a [i32]) -> (result: Result<&'a [i32], BridgeError>)
    ensures
        result is Ok <==> backing@.len() >= BUFFER_SLOTS,
        result matches Ok(view) ==> view@ == backing@.subrange(0, BUFFER_SLOTS as int),
        result matches Err(error) ==> error == (BridgeError::BufferBoundsViolation {
            declared: backing@.len() as usize,
        }),
{
    let declared = backing.len();
    if declared < BUFFER_SLOTS {
        Err(BridgeError::BufferBoundsViolation { declared })
    } else {
        Ok(slice_subrange(backing, 0, BUFFER_SLOTS))
    }
}

/// One controller and the entry points through which the host reaches it.
pub struct Bridge<A: Ats> {
    controller: A,
    failed: bool,
}

impl<A: Ats> Bridge<A> {
    /// The controller as it is now.
    pub closed spec fn controller_spec(&self) -> A {
        self.controller
    }

    /// Whether a call has been refused, so that every further call is.
    pub closed spec fn failed_spec(&self) -> bool {
        self.failed
    }

    /// What the bridge answers to a call whose arguments came out of their
    /// checks as `checked`: a bridge that has failed refuses, any other
    /// answers as the checks did.
    pub open spec fn admitted<T>(failed: bool, checked: Result<T, BridgeError>) -> Result<
        T,
        BridgeError,
    > {
        if failed {
            Err(BridgeError::ReentrantFailure)
        } else {
            checked
        }
    }

    /// What the check of a code yields for a call that returns nothing: the
    /// error of the conversion, if it has one.
    pub open spec fn code_checked<T>(converted: Result<T, BridgeError>) -> Result<
        (),
        BridgeError,
    > {
        match converted {
            Ok(_) => Ok(()),
            Err(error) => Err(error),
        }
    }

    /// What the check of the two buffers yields when the memory behind them is
    /// declared with `panel` and `sound` slots: the refusal of the first that
    /// is shorter than a buffer, the panel before the sound.
    pub open spec fn buffers_checked(panel: nat, sound: nat) -> Result<(), BridgeError> {
        if panel < BUFFER_SLOTS {
            Err(BridgeError::BufferBoundsViolation { declared: panel as usize })
        } else if sound < BUFFER_SLOTS {
            Err(BridgeError::BufferBoundsViolation { declared: sound as usize })
        } else {
            Ok(())
        }
    }

    /// A bridge to `controller` that has refused nothing yet.
    pub fn new(controller: A) -> (bridge: Self)
        ensures
            bridge.controller_spec() == controller,
            !bridge.failed_spec(),
    {
        Bridge { controller, failed: false }
    }

    /// Whether a call has been refused, so that every further call is.
    #[verifier::when_used_as_spec(failed_spec)]
    pub fn failed(&self) -> (failed: bool)
        ensures
            failed == self.failed_spec(),
    {
        self.failed
    }

    /// The controller as it is now.
    pub fn controller(&self) -> (controller: &A)
        ensures
            *controller == self.controller_spec(),
    {
        &self.controller
    }

    /// Refuses the call in hand, and with it every call to come.
    fn refuse(&mut self, error: BridgeError) -> (refusal: BridgeError)
        ensures
            final(self).failed_spec(),
            final(self).controller_spec() == old(self).controller_spec(),
            refusal == error,
    {
        self.failed = true;
        error
    }

    /// Entry point `Load`: the plug-in has been loaded.
    ///
    /// Refused once the bridge has failed. Otherwise the controller's `load`
    /// runs once.
    pub fn load(&mut self) -> (result: Result<(), BridgeError>)
        ensures
            result == Self::admitted(old(self).failed_spec(), Ok(())),
            final(self).failed_spec() == old(self).failed_spec(),
            result is Err ==> final(self).controller_spec() == old(self).controller_spec(),
            result is Ok ==> exists|c: &mut A|
                *c == old(self).controller_spec() && *final(c) == final(self).controller_spec()
                    && #[trigger] call_ensures(A::load, (c,), ()),
    {
        if self.failed {
            return Err(BridgeError::ReentrantFailure);
        }
        self.controller.load();
        Ok(())
    }

    /// Entry point `Dispose`: the plug-in is about to be released. Calls that
    /// come after it are served like any other.
    ///
    /// Refused once the bridge has failed. Otherwise the controller's `dispose`
    /// runs once.
    pub fn dispose(&mut self) -> (result: Result<(), BridgeError>)
        ensures
            result == Self::admitted(old(self).failed_spec(), Ok(())),
            final(self).failed_spec() == old(self).failed_spec(),
            result is Err ==> final(self).controller_spec() == old(self).controller_spec(),
            result is Ok ==> exists|c: &mut A|
                *c == old(self).controller_spec() && *final(c) == final(self).controller_spec()
                    && #[trigger] call_ensures(A::dispose, (c,), ()),
    {
        if self.failed {
            return Err(BridgeError::ReentrantFailure);
        }
        self.controller.dispose();
        Ok(())
    }

    /// Entry point `GetPluginVersion`: the version of the interface that the
    /// controller follows.
    ///
    /// Refused once the bridge has failed. Otherwise the controller's
    /// `get_plugin_version` runs once, and the version it declares is handed
    /// on as it is.
    pub fn get_plugin_version(&mut self) -> (result: Result<i32, BridgeError>)
        ensures
            result is Ok <==> !old(self).failed_spec(),
            result matches Err(error) ==> error == BridgeError::ReentrantFailure,
            final(self).failed_spec() == old(self).failed_spec(),
            result is Err ==> final(self).controller_spec() == old(self).controller_spec(),
            result is Ok ==> exists|c: &mut A, version: i32|
                *c == old(self).controller_spec() && *final(c) == final(self).controller_spec()
                    && result == Ok::<i32, BridgeError>(version) && #[trigger] call_ensures(
                    A::get_plugin_version,
                    (c,),
                    version,
                ),
    {
        if self.failed {
            return Err(BridgeError::ReentrantFailure);
        }
        let version = self.controller.get_plugin_version();
        Ok(version)
    }

    /// Entry point `SetVehicleSpec`: a vehicle has been loaded.
    ///
    /// Refused once the bridge has failed. Otherwise the controller's
    /// `set_vehicle_spec` runs once, with `spec` as it came.
    pub fn set_vehicle_spec(&mut self, spec: VehicleSpec) -> (result: Result<(), BridgeError>)
        ensures
            result == Self::admitted(old(self).failed_spec(), Ok(())),
            final(self).failed_spec() == old(self).failed_spec(),
            result is Err ==> final(self).controller_spec() == old(self).controller_spec(),
            result is Ok ==> exists|c: &mut A|
                *c == old(self).controller_spec() && *final(c) == final(self).controller_spec()
                    && #[trigger] call_ensures(A::set_vehicle_spec, (c, spec), ()),
    {
        if self.failed {
            return Err(BridgeError::ReentrantFailure);
        }
        self.controller.set_vehicle_spec(spec);
        Ok(())
    }

    /// Entry point `Initialize`: the simulation starts.
    ///
    /// Refused once the bridge has failed, and refused for good when `brake` is
    /// not the code of a position of the brake handle. Otherwise the
    /// controller's `initialize` runs once, with the position that `brake`
    /// stands for.
    pub fn initialize(&mut self, brake: i32) -> (result: Result<(), BridgeError>)
        ensures
            result == Self::admitted(
                old(self).failed_spec(),
                Self::code_checked(InitPosition::checked(brake)),
            ),
            final(self).failed_spec() == (result is Err),
            result is Err ==> final(self).controller_spec() == old(self).controller_spec(),
            result is Ok ==> exists|c: &mut A, decoded: InitPosition|
                *c == old(self).controller_spec() && *final(c) == final(self).controller_spec()
                    && InitPosition::decode(brake as int) == Some(decoded) && #[trigger] call_ensures(
                    A::initialize,
                    (c, decoded),
                    (),
                ),
    {
        if self.failed {
            return Err(BridgeError::ReentrantFailure);
        }
        match InitPosition::from_int(brake) {
            Ok(decoded) => {
                self.controller.initialize(decoded);
                Ok(())
            },
            Err(error) => Err(self.refuse(error)),
        }
    }

    /// Entry point `Elapse`: one frame of the simulation.
    ///
    /// `panel` and `sound` are the memory behind the host's two buffers, each
    /// as long as it is declared. Refused once the bridge has failed, and
    /// refused for good when either is declared with fewer slots than a
    /// buffer has. Otherwise the controller's `elapse` runs once, with
    /// `state` and with the first [`BUFFER_SLOTS`] slots of each buffer and
    /// nothing beyond them, and the handles it commands are handed on as they
    /// are.
    pub fn elapse(&mut self, state: VehicleState, panel: &[i32], sound: &[i32]) -> (result: Result<
        Handles,
        BridgeError,
    >)
        ensures
            result is Ok <==> Self::admitted(
                old(self).failed_spec(),
                Self::buffers_checked(panel@.len(), sound@.len()),
            ) is Ok,
            result matches Err(error) ==> Self::admitted(
                old(self).failed_spec(),
                Self::buffers_checked(panel@.len(), sound@.len()),
            ) == Err::<(), BridgeError>(error),
            final(self).failed_spec() == (result is Err),
            result is Err ==> final(self).controller_spec() == old(self).controller_spec(),
            result is Ok ==> exists|c: &mut A, p: &[i32], s: &[i32], handles: Handles|
                *c == old(self).controller_spec() && *final(c) == final(self).controller_spec()
                    && p@ == panel@.subrange(0, BUFFER_SLOTS as int) && s@ == sound@.subrange(
                    0,
                    BUFFER_SLOTS as int,
                ) && result == Ok::<Handles, BridgeError>(handles) && #[trigger] call_ensures(
                    A::elapse,
                    (c, state, p, s),
                    handles,
                ),
    {
        if self.failed {
            return Err(BridgeError::ReentrantFailure);
        }
        let panel_view = match bounded_view(panel) {
            Ok(view) => view,
            Err(error) => {
                return Err(self.refuse(error));
            },
        };
        let sound_view = match bounded_view(sound) {
            Ok(view) => view,
            Err(error) => {
                return Err(self.refuse(error));
            },
        };
        let handles = self.controller.elapse(state, panel_view, sound_view);
        Ok(handles)
    }

    /// Entry point `SetPower`: the power handle has been moved.
    ///
    /// Refused once the bridge has failed. Otherwise the controller's
    /// `set_power` runs once, with `notch` as it came.
    pub fn set_power(&mut self, notch: i32) -> (result: Result<(), BridgeError>)
        ensures
            result == Self::admitted(old(self).failed_spec(), Ok(())),
            final(self).failed_spec() == old(self).failed_spec(),
            result is Err ==> final(self).controller_spec() == old(self).controller_spec(),
            result is Ok ==> exists|c: &mut A|
                *c == old(self).controller_spec() && *final(c) == final(self).controller_spec()
                    && #[trigger] call_ensures(A::set_power, (c, notch), ()),
    {
        if self.failed {
            return Err(BridgeError::ReentrantFailure);
        }
        self.controller.set_power(notch);
        Ok(())
    }

    /// Entry point `SetBrake`: the brake handle has been moved.
    ///
    /// Refused once the bridge has failed. Otherwise the controller's
    /// `set_brake` runs once, with `notch` as it came.
    pub fn set_brake(&mut self, notch: i32) -> (result: Result<(), BridgeError>)
        ensures
            result == Self::admitted(old(self).failed_spec(), Ok(())),
            final(self).failed_spec() == old(self).failed_spec(),
            result is Err ==> final(self).controller_spec() == old(self).controller_spec(),
            result is Ok ==> exists|c: &mut A|
                *c == old(self).controller_spec() && *final(c) == final(self).controller_spec()
                    && #[trigger] call_ensures(A::set_brake, (c, notch), ()),
    {
        if self.failed {
            return Err(BridgeError::ReentrantFailure);
        }
        self.controller.set_brake(notch);
        Ok(())
    }

    /// Entry point `SetReverser`: the reverser has been moved.
    ///
    /// Refused once the bridge has failed. Otherwise the controller's
    /// `set_reverser` runs once, with `position` as it came.
    pub fn set_reverser(&mut self, position: i32) -> (result: Result<(), BridgeError>)
        ensures
            result == Self::admitted(old(self).failed_spec(), Ok(())),
            final(self).failed_spec() == old(self).failed_spec(),
            result is Err ==> final(self).controller_spec() == old(self).controller_spec(),
            result is Ok ==> exists|c: &mut A|
                *c == old(self).controller_spec() && *final(c) == final(self).controller_spec()
                    && #[trigger] call_ensures(A::set_reverser, (c, position), ()),
    {
        if self.failed {
            return Err(BridgeError::ReentrantFailure);
        }
        self.controller.set_reverser(position);
        Ok(())
    }

    /// Entry point `KeyDown`: a key has been pressed.
    ///
    /// Refused once the bridge has failed, and refused for good when `key` is
    /// not the code of a key. Otherwise the controller's `key_down` runs once,
    /// with the key that `key` stands for.
    pub fn key_down(&mut self, key: i32) -> (result: Result<(), BridgeError>)
        ensures
            result == Self::admitted(
                old(self).failed_spec(),
                Self::code_checked(Keys::checked(key)),
            ),
            final(self).failed_spec() == (result is Err),
            result is Err ==> final(self).controller_spec() == old(self).controller_spec(),
            result is Ok ==> exists|c: &mut A, decoded: Keys|
                *c == old(self).controller_spec() && *final(c) == final(self).controller_spec()
                    && Keys::decode(key as int) == Some(decoded) && #[trigger] call_ensures(
                    A::key_down,
                    (c, decoded),
                    (),
                ),
    {
        if self.failed {
            return Err(BridgeError::ReentrantFailure);
        }
        match Keys::from_int(key) {
            Ok(decoded) => {
                self.controller.key_down(decoded);
                Ok(())
            },
            Err(error) => Err(self.refuse(error)),
        }
    }

    /// Entry point `KeyUp`: a key has been released.
    ///
    /// Refused once the bridge has failed, and refused for good when `key` is
    /// not the code of a key. Otherwise the controller's `key_up` runs once,
    /// with the key that `key` stands for.
    pub fn key_up(&mut self, key: i32) -> (result: Result<(), BridgeError>)
        ensures
            result == Self::admitted(
                old(self).failed_spec(),
                Self::code_checked(Keys::checked(key)),
            ),
            final(self).failed_spec() == (result is Err),
            result is Err ==> final(self).controller_spec() == old(self).controller_spec(),
            result is Ok ==> exists|c: &mut A, decoded: Keys|
                *c == old(self).controller_spec() && *final(c) == final(self).controller_spec()
                    && Keys::decode(key as int) == Some(decoded) && #[trigger] call_ensures(
                    A::key_up,
                    (c, decoded),
                    (),
                ),
    {
        if self.failed {
            return Err(BridgeError::ReentrantFailure);
        }
        match Keys::from_int(key) {
            Ok(decoded) => {
                self.controller.key_up(decoded);
                Ok(())
            },
            Err(error) => Err(self.refuse(error)),
        }
    }

    /// Entry point `HornBlow`: a horn has been blown.
    ///
    /// Refused once the bridge has failed, and refused for good when `horn` is
    /// not the code of a horn. Otherwise the controller's `horn_blow` runs
    /// once, with the horn that `horn` stands for.
    pub fn horn_blow(&mut self, horn: i32) -> (result: Result<(), BridgeError>)
        ensures
            result == Self::admitted(
                old(self).failed_spec(),
                Self::code_checked(Horns::checked(horn)),
            ),
            final(self).failed_spec() == (result is Err),
            result is Err ==> final(self).controller_spec() == old(self).controller_spec(),
            result is Ok ==> exists|c: &mut A, decoded: Horns|
                *c == old(self).controller_spec() && *final(c) == final(self).controller_spec()
                    && Horns::decode(horn as int) == Some(decoded) && #[trigger] call_ensures(
                    A::horn_blow,
                    (c, decoded),
                    (),
                ),
    {
        if self.failed {
            return Err(BridgeError::ReentrantFailure);
        }
        match Horns::from_int(horn) {
            Ok(decoded) => {
                self.controller.horn_blow(decoded);
                Ok(())
            },
            Err(error) => Err(self.refuse(error)),
        }
    }

    /// Entry point `DoorOpen`: the passenger doors have opened.
    ///
    /// Refused once the bridge has failed. Otherwise the controller's
    /// `door_open` runs once.
    pub fn door_open(&mut self) -> (result: Result<(), BridgeError>)
        ensures
            result == Self::admitted(old(self).failed_spec(), Ok(())),
            final(self).failed_spec() == old(self).failed_spec(),
            result is Err ==> final(self).controller_spec() == old(self).controller_spec(),
            result is Ok ==> exists|c: &mut A|
                *c == old(self).controller_spec() && *final(c) == final(self).controller_spec()
                    && #[trigger] call_ensures(A::door_open, (c,), ()),
    {
        if self.failed {
            return Err(BridgeError::ReentrantFailure);
        }
        self.controller.door_open();
        Ok(())
    }

    /// Entry point `DoorClose`: the passenger doors have closed.
    ///
    /// Refused once the bridge has failed. Otherwise the controller's
    /// `door_close` runs once.
    pub fn door_close(&mut self) -> (result: Result<(), BridgeError>)
        ensures
            result == Self::admitted(old(self).failed_spec(), Ok(())),
            final(self).failed_spec() == old(self).failed_spec(),
            result is Err ==> final(self).controller_spec() == old(self).controller_spec(),
            result is Ok ==> exists|c: &mut A|
                *c == old(self).controller_spec() && *final(c) == final(self).controller_spec()
                    && #[trigger] call_ensures(A::door_close, (c,), ()),
    {
        if self.failed {
            return Err(BridgeError::ReentrantFailure);
        }
        self.controller.door_close();
        Ok(())
    }

    /// Entry point `SetSignal`: the signal of the current section has changed.
    ///
    /// Refused once the bridge has failed. Otherwise the controller's
    /// `set_signal` runs once, with `signal` as it came.
    pub fn set_signal(&mut self, signal: i32) -> (result: Result<(), BridgeError>)
        ensures
            result == Self::admitted(old(self).failed_spec(), Ok(())),
            final(self).failed_spec() == old(self).failed_spec(),
            result is Err ==> final(self).controller_spec() == old(self).controller_spec(),
            result is Ok ==> exists|c: &mut A|
                *c == old(self).controller_spec() && *final(c) == final(self).controller_spec()
                    && #[trigger] call_ensures(A::set_signal, (c, signal), ()),
    {
        if self.failed {
            return Err(BridgeError::ReentrantFailure);
        }
        self.controller.set_signal(signal);
        Ok(())
    }

    /// Entry point `SetBeaconData`: the vehicle has passed a beacon.
    ///
    /// Refused once the bridge has failed. Otherwise the controller's
    /// `set_beacon_data` runs once, with `beacon` as it came.
    pub fn set_beacon_data(&mut self, beacon: BeaconData) -> (result: Result<(), BridgeError>)
        ensures
            result == Self::admitted(old(self).failed_spec(), Ok(())),
            final(self).failed_spec() == old(self).failed_spec(),
            result is Err ==> final(self).controller_spec() == old(self).controller_spec(),
            result is Ok ==> exists|c: &mut A|
                *c == old(self).controller_spec() && *final(c) == final(self).controller_spec()
                    && #[trigger] call_ensures(A::set_beacon_data, (c, beacon), ()),
    {
        if self.failed {
            return Err(BridgeError::ReentrantFailure);
        }
        self.controller.set_beacon_data(beacon);
        Ok(())
    }
}

impl<A: Ats> Default for Bridge<A> {
    /// A bridge that has refused nothing yet, to a controller in the state
    /// that `A::default` gives.
    fn default() -> (bridge: Self)
        ensures
            !bridge.failed_spec(),
            call_ensures(A::default, (), bridge.controller_spec()),
    {
        Bridge { controller: A::default(), failed: false }
    }
}

} // verus!
