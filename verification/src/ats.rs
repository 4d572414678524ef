//! A controller that hands the driver's own handle positions back to the host.

use vstd::prelude::*;
use crate::api::Ats;
use crate::codes::ConstantSpeed;
use crate::records::{Handles, VehicleState};

verus! {

/// The positions in which the driver has left the handles.
#[derive(Clone, Copy, Debug, PartialEq, Eq, Structural)]
pub struct UserNotch {
    /// Power notch
    pub power: i32,
    /// Brake notch
    pub brake: i32,
    /// Position of the reverser
    pub reverser: i32,
}

impl Default for UserNotch {
    fn default() -> (notch: UserNotch)
        ensures
            notch == (UserNotch { power: 0, brake: 0, reverser: 0 }),
    {
        UserNotch { power: 0, brake: 0, reverser: 0 }
    }
}

/// The controller of this plug-in.
///
/// It remembers where the driver has put each handle and commands exactly
/// those positions in every frame. It never touches the constant-speed
/// control.
#[derive(Clone, Copy, Debug, PartialEq, Eq, Structural)]
pub struct HkhsAts {
    user_notch: UserNotch,
}

impl View for HkhsAts {
    type V = UserNotch;

    /// The handle positions that the controller remembers.
    closed spec fn view(&self) -> UserNotch {
        self.user_notch
    }
}

impl HkhsAts {
    /// The handles that a controller commands while it remembers `notch`.
    pub open spec fn commanded(notch: UserNotch) -> Handles {
        Handles {
            brake: notch.brake,
            power: notch.power,
            reverser: notch.reverser,
            constant_speed: ConstantSpeed::Continue.code() as i32,
        }
    }

    /// What one frame does to a controller: it stays as it is, and the
    /// handles are those it remembers.
    pub open spec fn ticked(before: HkhsAts, after: HkhsAts, handles: Handles) -> bool {
        &&& after == before
        &&& handles == HkhsAts::commanded(before@)
    }

    /// Two frames in a row, with no event between them, command the same
    /// handles, whatever state and buffers the host shows in either.
    pub proof fn lemma_tick_repeatable(
        before: HkhsAts,
        between: HkhsAts,
        after: HkhsAts,
        first: Handles,
        second: Handles,
    )
        requires
            HkhsAts::ticked(before, between, first),
            HkhsAts::ticked(between, after, second),
        ensures
            second == first,
            after == before,
    {
    }

    /// The handle positions that the controller remembers.
    pub fn user_notch(&self) -> (notch: UserNotch)
        ensures
            notch == self@,
    {
        self.user_notch
    }
}

impl Default for HkhsAts {
    /// A controller that remembers every handle at zero.
    fn default() -> (ats: HkhsAts)
        ensures
            ats@ == (UserNotch { power: 0, brake: 0, reverser: 0 }),
    {
        HkhsAts { user_notch: UserNotch { power: 0, brake: 0, reverser: 0 } }
    }
}

impl Ats for HkhsAts {
    /// Commands the remembered positions and leaves the constant-speed
    /// control as it is. Looks at neither the state nor the buffers.
    fn elapse(&mut self, state: VehicleState, panel: &[i32], sound: &[i32]) -> (handles: Handles)
        ensures
            HkhsAts::ticked(*old(self), *final(self), handles),
    {
        Handles {
            power: self.user_notch.power,
            brake: self.user_notch.brake,
            reverser: self.user_notch.reverser,
            constant_speed: ConstantSpeed::Continue.int_value(),
        }
    }

    /// Remembers the power notch.
    fn set_power(&mut self, notch: i32)
        ensures
            final(self)@ == (UserNotch { power: notch, ..old(self)@ }),
    {
        self.user_notch.power = notch;
    }

    /// Remembers the brake notch.
    fn set_brake(&mut self, notch: i32)
        ensures
            final(self)@ == (UserNotch { brake: notch, ..old(self)@ }),
    {
        self.user_notch.brake = notch;
    }

    /// Remembers the position of the reverser.
    fn set_reverser(&mut self, position: i32)
        ensures
            final(self)@ == (UserNotch { reverser: position, ..old(self)@ }),
    {
        self.user_notch.reverser = position;
    }
}

} // verus!
