//! The closed sets of integer codes that the host and the controller exchange.
//!
//! Each enumeration has a table `code` from its members to the integers of the
//! wire format, and a predicate `is_code` for the integers that the table
//! reaches. `decode` is the inverse of the table: the member whose code an
//! integer is, if there is one. `int_value` computes `code` and `from_int`
//! computes `decode`.
//!
//! An integer outside a set is never moved into it. The conversion fails, and
//! the error names the set and holds the integer as it came.

use vstd::prelude::*;
use crate::error::{BridgeError, Domain};

verus! {

/// Input keys of the driver's desk.
#[derive(Clone, Copy, Debug, PartialEq, Eq, Structural)]
pub enum Keys {
    /// S key
    S,
    /// A1 key
    A1,
    /// A2 key
    A2,
    /// B1 key
    B1,
    /// B2 key
    B2,
    /// C1 key
    C1,
    /// C2 key
    C2,
    /// D key
    D,
    /// R key
    R,
    /// F key
    F,
    /// G key
    G,
    /// H key
    H,
    /// I key
    I,
    /// J key
    J,
    /// K key
    K,
    /// L key
    L,
}

impl Keys {
    /// The integer that stands for this key on the wire.
    pub open spec fn code(self) -> int {
        match self {
            Keys::S => 0,
            Keys::A1 => 1,
            Keys::A2 => 2,
            Keys::B1 => 3,
            Keys::B2 => 4,
            Keys::C1 => 5,
            Keys::C2 => 6,
            Keys::D => 7,
            Keys::R => 8,
            Keys::F => 9,
            Keys::G => 10,
            Keys::H => 11,
            Keys::I => 12,
            Keys::J => 13,
            Keys::K => 14,
            Keys::L => 15,
        }
    }

    /// Whether `raw` is the code of a key: 0 to 15.
    pub open spec fn is_code(raw: int) -> bool {
        0 <= raw <= 15
    }

    /// The key whose code is `raw`, if there is one.
    pub open spec fn decode(raw: int) -> Option<Keys> {
        if Keys::is_code(raw) {
            Some(choose|key: Keys| key.code() == raw)
        } else {
            None
        }
    }

    /// What converting `raw` yields: the key that `raw` stands for, or the
    /// error that names this set and holds `raw` itself.
    pub open spec fn checked(raw: i32) -> Result<Keys, BridgeError> {
        match Keys::decode(raw as int) {
            Some(key) => Ok(key),
            None => Err(BridgeError::InvalidDomainCode { domain: Domain::Key, value: raw }),
        }
    }

    /// A valid code decodes to a key whose code is that integer again. An
    /// integer that is no valid code decodes to nothing.
    pub proof fn lemma_decode_round_trip(raw: int)
        ensures
            Keys::is_code(raw) ==> Keys::decode(raw) is Some
                && Keys::decode(raw).unwrap().code() == raw,
            !Keys::is_code(raw) ==> Keys::decode(raw) is None,
    {
        if Keys::is_code(raw) {
            if raw == 0 {
                assert(Keys::S.code() == raw);
            } else if raw == 1 {
                assert(Keys::A1.code() == raw);
            } else if raw == 2 {
                assert(Keys::A2.code() == raw);
            } else if raw == 3 {
                assert(Keys::B1.code() == raw);
            } else if raw == 4 {
                assert(Keys::B2.code() == raw);
            } else if raw == 5 {
                assert(Keys::C1.code() == raw);
            } else if raw == 6 {
                assert(Keys::C2.code() == raw);
            } else if raw == 7 {
                assert(Keys::D.code() == raw);
            } else if raw == 8 {
                assert(Keys::R.code() == raw);
            } else if raw == 9 {
                assert(Keys::F.code() == raw);
            } else if raw == 10 {
                assert(Keys::G.code() == raw);
            } else if raw == 11 {
                assert(Keys::H.code() == raw);
            } else if raw == 12 {
                assert(Keys::I.code() == raw);
            } else if raw == 13 {
                assert(Keys::J.code() == raw);
            } else if raw == 14 {
                assert(Keys::K.code() == raw);
            } else if raw == 15 {
                assert(Keys::L.code() == raw);
            }
        }
    }

    /// The code of a key is valid and decodes to that key, so no two
    /// share a code.
    pub proof fn lemma_decode_of_code(self)
        ensures
            Keys::is_code(self.code()),
            Keys::decode(self.code()) == Some(self),
    {
        Keys::lemma_decode_round_trip(self.code());
    }

    /// The wire code of this key.
    pub fn int_value(self) -> (raw: i32)
        ensures
            raw == self.code(),
    {
        match self {
            Keys::S => 0,
            Keys::A1 => 1,
            Keys::A2 => 2,
            Keys::B1 => 3,
            Keys::B2 => 4,
            Keys::C1 => 5,
            Keys::C2 => 6,
            Keys::D => 7,
            Keys::R => 8,
            Keys::F => 9,
            Keys::G => 10,
            Keys::H => 11,
            Keys::I => 12,
            Keys::J => 13,
            Keys::K => 14,
            Keys::L => 15,
        }
    }

    /// The key that `raw` stands for.
    ///
    /// Succeeds exactly on the valid codes, and then returns the key whose
    /// code is `raw`, so that its `int_value` is `raw` again. Any other
    /// integer is rejected and handed back unchanged in the error.
    pub fn from_int(raw: i32) -> (result: Result<Keys, BridgeError>)
        ensures
            result == Keys::checked(raw),
            result is Ok <==> Keys::is_code(raw as int),
            result matches Ok(key) ==> key.code() == raw,
            result matches Err(error) ==> error == (BridgeError::InvalidDomainCode {
                domain: Domain::Key,
                value: raw,
            }),
    {
        proof {
            Keys::lemma_decode_round_trip(raw as int);
        }
        match raw {
            0 => Ok(Keys::S),
            1 => Ok(Keys::A1),
            2 => Ok(Keys::A2),
            3 => Ok(Keys::B1),
            4 => Ok(Keys::B2),
            5 => Ok(Keys::C1),
            6 => Ok(Keys::C2),
            7 => Ok(Keys::D),
            8 => Ok(Keys::R),
            9 => Ok(Keys::F),
            10 => Ok(Keys::G),
            11 => Ok(Keys::H),
            12 => Ok(Keys::I),
            13 => Ok(Keys::J),
            14 => Ok(Keys::K),
            15 => Ok(Keys::L),
            _ => Err(BridgeError::InvalidDomainCode { domain: Domain::Key, value: raw }),
        }
    }
}

/// Position of the brake handle when the simulation starts.
#[derive(Clone, Copy, Debug, PartialEq, Eq, Structural)]
pub enum InitPosition {
    /// Handle removed
    Removed,
    /// Emergency brake
    Emg,
    /// Service brake
    Svc,
}

impl InitPosition {
    /// The integer that stands for this position on the wire.
    pub open spec fn code(self) -> int {
        match self {
            InitPosition::Removed => 2,
            InitPosition::Emg => 1,
            InitPosition::Svc => 0,
        }
    }

    /// Whether `raw` is the code of a position: 0 to 2.
    pub open spec fn is_code(raw: int) -> bool {
        0 <= raw <= 2
    }

    /// The position whose code is `raw`, if there is one.
    pub open spec fn decode(raw: int) -> Option<InitPosition> {
        if InitPosition::is_code(raw) {
            Some(choose|position: InitPosition| position.code() == raw)
        } else {
            None
        }
    }

    /// What converting `raw` yields: the position that `raw` stands for, or the
    /// error that names this set and holds `raw` itself.
    pub open spec fn checked(raw: i32) -> Result<InitPosition, BridgeError> {
        match InitPosition::decode(raw as int) {
            Some(position) => Ok(position),
            None => Err(BridgeError::InvalidDomainCode { domain: Domain::InitPosition, value: raw }),
        }
    }

    /// A valid code decodes to a position whose code is that integer again. An
    /// integer that is no valid code decodes to nothing.
    pub proof fn lemma_decode_round_trip(raw: int)
        ensures
            InitPosition::is_code(raw) ==> InitPosition::decode(raw) is Some
                && InitPosition::decode(raw).unwrap().code() == raw,
            !InitPosition::is_code(raw) ==> InitPosition::decode(raw) is None,
    {
        if InitPosition::is_code(raw) {
            if raw == 2 {
                assert(InitPosition::Removed.code() == raw);
            } else if raw == 1 {
                assert(InitPosition::Emg.code() == raw);
            } else if raw == 0 {
                assert(InitPosition::Svc.code() == raw);
            }
        }
    }

    /// The code of a position is valid and decodes to that position, so no two
    /// share a code.
    pub proof fn lemma_decode_of_code(self)
        ensures
            InitPosition::is_code(self.code()),
            InitPosition::decode(self.code()) == Some(self),
    {
        InitPosition::lemma_decode_round_trip(self.code());
    }

    /// The wire code of this position.
    pub fn int_value(self) -> (raw: i32)
        ensures
            raw == self.code(),
    {
        match self {
            InitPosition::Removed => 2,
            InitPosition::Emg => 1,
            InitPosition::Svc => 0,
        }
    }

    /// The position that `raw` stands for.
    ///
    /// Succeeds exactly on the valid codes, and then returns the position whose
    /// code is `raw`, so that its `int_value` is `raw` again. Any other
    /// integer is rejected and handed back unchanged in the error.
    pub fn from_int(raw: i32) -> (result: Result<InitPosition, BridgeError>)
        ensures
            result == InitPosition::checked(raw),
            result is Ok <==> InitPosition::is_code(raw as int),
            result matches Ok(position) ==> position.code() == raw,
            result matches Err(error) ==> error == (BridgeError::InvalidDomainCode {
                domain: Domain::InitPosition,
                value: raw,
            }),
    {
        proof {
            InitPosition::lemma_decode_round_trip(raw as int);
        }
        match raw {
            2 => Ok(InitPosition::Removed),
            1 => Ok(InitPosition::Emg),
            0 => Ok(InitPosition::Svc),
            _ => Err(BridgeError::InvalidDomainCode { domain: Domain::InitPosition, value: raw }),
        }
    }
}

/// What to do with one sound slot.
#[derive(Clone, Copy, Debug, PartialEq, Eq, Structural)]
pub enum Sound {
    /// Stop
    Stop,
    /// Play once
    Play,
    /// Play repeatedly
    PlayLooping,
    /// Continue
    Continue,
}

impl Sound {
    /// The integer that stands for this directive on the wire.
    pub open spec fn code(self) -> int {
        match self {
            Sound::Stop => -10000,
            Sound::Play => 1,
            Sound::PlayLooping => 0,
            Sound::Continue => 2,
        }
    }

    /// Whether `raw` is the code of a directive: -10000 and 0 to 2.
    pub open spec fn is_code(raw: int) -> bool {
        raw == -10000 || 0 <= raw <= 2
    }

    /// The directive whose code is `raw`, if there is one.
    pub open spec fn decode(raw: int) -> Option<Sound> {
        if Sound::is_code(raw) {
            Some(choose|sound: Sound| sound.code() == raw)
        } else {
            None
        }
    }

    /// What converting `raw` yields: the directive that `raw` stands for, or the
    /// error that names this set and holds `raw` itself.
    pub open spec fn checked(raw: i32) -> Result<Sound, BridgeError> {
        match Sound::decode(raw as int) {
            Some(sound) => Ok(sound),
            None => Err(BridgeError::InvalidDomainCode { domain: Domain::Sound, value: raw }),
        }
    }

    /// A valid code decodes to a directive whose code is that integer again. An
    /// integer that is no valid code decodes to nothing.
    pub proof fn lemma_decode_round_trip(raw: int)
        ensures
            Sound::is_code(raw) ==> Sound::decode(raw) is Some
                && Sound::decode(raw).unwrap().code() == raw,
            !Sound::is_code(raw) ==> Sound::decode(raw) is None,
    {
        if Sound::is_code(raw) {
            if raw == -10000 {
                assert(Sound::Stop.code() == raw);
            } else if raw == 1 {
                assert(Sound::Play.code() == raw);
            } else if raw == 0 {
                assert(Sound::PlayLooping.code() == raw);
            } else if raw == 2 {
                assert(Sound::Continue.code() == raw);
            }
        }
    }

    /// The code of a directive is valid and decodes to that directive, so no two
    /// share a code.
    pub proof fn lemma_decode_of_code(self)
        ensures
            Sound::is_code(self.code()),
            Sound::decode(self.code()) == Some(self),
    {
        Sound::lemma_decode_round_trip(self.code());
    }

    /// The wire code of this directive.
    pub fn int_value(self) -> (raw: i32)
        ensures
            raw == self.code(),
    {
        match self {
            Sound::Stop => -10000,
            Sound::Play => 1,
            Sound::PlayLooping => 0,
            Sound::Continue => 2,
        }
    }

    /// The directive that `raw` stands for.
    ///
    /// Succeeds exactly on the valid codes, and then returns the directive whose
    /// code is `raw`, so that its `int_value` is `raw` again. Any other
    /// integer is rejected and handed back unchanged in the error.
    pub fn from_int(raw: i32) -> (result: Result<Sound, BridgeError>)
        ensures
            result == Sound::checked(raw),
            result is Ok <==> Sound::is_code(raw as int),
            result matches Ok(sound) ==> sound.code() == raw,
            result matches Err(error) ==> error == (BridgeError::InvalidDomainCode {
                domain: Domain::Sound,
                value: raw,
            }),
    {
        proof {
            Sound::lemma_decode_round_trip(raw as int);
        }
        match raw {
            -10000 => Ok(Sound::Stop),
            1 => Ok(Sound::Play),
            0 => Ok(Sound::PlayLooping),
            2 => Ok(Sound::Continue),
            _ => Err(BridgeError::InvalidDomainCode { domain: Domain::Sound, value: raw }),
        }
    }
}

/// The horns of a vehicle.
#[derive(Clone, Copy, Debug, PartialEq, Eq, Structural)]
pub enum Horns {
    /// Horn 1
    Primary,
    /// Horn 2
    Secondary,
    /// Music horn
    Music,
}

impl Horns {
    /// The integer that stands for this horn on the wire.
    pub open spec fn code(self) -> int {
        match self {
            Horns::Primary => 0,
            Horns::Secondary => 1,
            Horns::Music => 2,
        }
    }

    /// Whether `raw` is the code of a horn: 0 to 2.
    pub open spec fn is_code(raw: int) -> bool {
        0 <= raw <= 2
    }

    /// The horn whose code is `raw`, if there is one.
    pub open spec fn decode(raw: int) -> Option<Horns> {
        if Horns::is_code(raw) {
            Some(choose|horn: Horns| horn.code() == raw)
        } else {
            None
        }
    }

    /// What converting `raw` yields: the horn that `raw` stands for, or the
    /// error that names this set and holds `raw` itself.
    pub open spec fn checked(raw: i32) -> Result<Horns, BridgeError> {
        match Horns::decode(raw as int) {
            Some(horn) => Ok(horn),
            None => Err(BridgeError::InvalidDomainCode { domain: Domain::Horn, value: raw }),
        }
    }

    /// A valid code decodes to a horn whose code is that integer again. An
    /// integer that is no valid code decodes to nothing.
    pub proof fn lemma_decode_round_trip(raw: int)
        ensures
            Horns::is_code(raw) ==> Horns::decode(raw) is Some
                && Horns::decode(raw).unwrap().code() == raw,
            !Horns::is_code(raw) ==> Horns::decode(raw) is None,
    {
        if Horns::is_code(raw) {
            if raw == 0 {
                assert(Horns::Primary.code() == raw);
            } else if raw == 1 {
                assert(Horns::Secondary.code() == raw);
            } else if raw == 2 {
                assert(Horns::Music.code() == raw);
            }
        }
    }

    /// The code of a horn is valid and decodes to that horn, so no two
    /// share a code.
    pub proof fn lemma_decode_of_code(self)
        ensures
            Horns::is_code(self.code()),
            Horns::decode(self.code()) == Some(self),
    {
        Horns::lemma_decode_round_trip(self.code());
    }

    /// The wire code of this horn.
    pub fn int_value(self) -> (raw: i32)
        ensures
            raw == self.code(),
    {
        match self {
            Horns::Primary => 0,
            Horns::Secondary => 1,
            Horns::Music => 2,
        }
    }

    /// The horn that `raw` stands for.
    ///
    /// Succeeds exactly on the valid codes, and then returns the horn whose
    /// code is `raw`, so that its `int_value` is `raw` again. Any other
    /// integer is rejected and handed back unchanged in the error.
    pub fn from_int(raw: i32) -> (result: Result<Horns, BridgeError>)
        ensures
            result == Horns::checked(raw),
            result is Ok <==> Horns::is_code(raw as int),
            result matches Ok(horn) ==> horn.code() == raw,
            result matches Err(error) ==> error == (BridgeError::InvalidDomainCode {
                domain: Domain::Horn,
                value: raw,
            }),
    {
        proof {
            Horns::lemma_decode_round_trip(raw as int);
        }
        match raw {
            0 => Ok(Horns::Primary),
            1 => Ok(Horns::Secondary),
            2 => Ok(Horns::Music),
            _ => Err(BridgeError::InvalidDomainCode { domain: Domain::Horn, value: raw }),
        }
    }
}

/// What to do with the constant-speed control.
#[derive(Clone, Copy, Debug, PartialEq, Eq, Structural)]
pub enum ConstantSpeed {
    /// Continue
    Continue,
    /// Enable
    Enable,
    /// Disable
    Disable,
}

impl ConstantSpeed {
    /// The integer that stands for this directive on the wire.
    pub open spec fn code(self) -> int {
        match self {
            ConstantSpeed::Continue => 0,
            ConstantSpeed::Enable => 1,
            ConstantSpeed::Disable => 2,
        }
    }

    /// Whether `raw` is the code of a directive: 0 to 2.
    pub open spec fn is_code(raw: int) -> bool {
        0 <= raw <= 2
    }

    /// The directive whose code is `raw`, if there is one.
    pub open spec fn decode(raw: int) -> Option<ConstantSpeed> {
        if ConstantSpeed::is_code(raw) {
            Some(choose|directive: ConstantSpeed| directive.code() == raw)
        } else {
            None
        }
    }

    /// What converting `raw` yields: the directive that `raw` stands for, or the
    /// error that names this set and holds `raw` itself.
    pub open spec fn checked(raw: i32) -> Result<ConstantSpeed, BridgeError> {
        match ConstantSpeed::decode(raw as int) {
            Some(directive) => Ok(directive),
            None => Err(BridgeError::InvalidDomainCode { domain: Domain::ConstantSpeed, value: raw }),
        }
    }

    /// A valid code decodes to a directive whose code is that integer again. An
    /// integer that is no valid code decodes to nothing.
    pub proof fn lemma_decode_round_trip(raw: int)
        ensures
            ConstantSpeed::is_code(raw) ==> ConstantSpeed::decode(raw) is Some
                && ConstantSpeed::decode(raw).unwrap().code() == raw,
            !ConstantSpeed::is_code(raw) ==> ConstantSpeed::decode(raw) is None,
    {
        if ConstantSpeed::is_code(raw) {
            if raw == 0 {
                assert(ConstantSpeed::Continue.code() == raw);
            } else if raw == 1 {
                assert(ConstantSpeed::Enable.code() == raw);
            } else if raw == 2 {
                assert(ConstantSpeed::Disable.code() == raw);
            }
        }
    }

    /// The code of a directive is valid and decodes to that directive, so no two
    /// share a code.
    pub proof fn lemma_decode_of_code(self)
        ensures
            ConstantSpeed::is_code(self.code()),
            ConstantSpeed::decode(self.code()) == Some(self),
    {
        ConstantSpeed::lemma_decode_round_trip(self.code());
    }

    /// The wire code of this directive.
    pub fn int_value(self) -> (raw: i32)
        ensures
            raw == self.code(),
    {
        match self {
            ConstantSpeed::Continue => 0,
            ConstantSpeed::Enable => 1,
            ConstantSpeed::Disable => 2,
        }
    }

    /// The directive that `raw` stands for.
    ///
    /// Succeeds exactly on the valid codes, and then returns the directive whose
    /// code is `raw`, so that its `int_value` is `raw` again. Any other
    /// integer is rejected and handed back unchanged in the error.
    pub fn from_int(raw: i32) -> (result: Result<ConstantSpeed, BridgeError>)
        ensures
            result == ConstantSpeed::checked(raw),
            result is Ok <==> ConstantSpeed::is_code(raw as int),
            result matches Ok(directive) ==> directive.code() == raw,
            result matches Err(error) ==> error == (BridgeError::InvalidDomainCode {
                domain: Domain::ConstantSpeed,
                value: raw,
            }),
    {
        proof {
            ConstantSpeed::lemma_decode_round_trip(raw as int);
        }
        match raw {
            0 => Ok(ConstantSpeed::Continue),
            1 => Ok(ConstantSpeed::Enable),
            2 => Ok(ConstantSpeed::Disable),
            _ => Err(BridgeError::InvalidDomainCode { domain: Domain::ConstantSpeed, value: raw }),
        }
    }
}

} // verus!
