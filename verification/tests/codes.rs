use ats_plugin::api::{BridgeError, ConstantSpeed, Domain, Horns, InitPosition, Keys, Sound};

const KEYS: [Keys; 16] = [
    Keys::S,
    Keys::A1,
    Keys::A2,
    Keys::B1,
    Keys::B2,
    Keys::C1,
    Keys::C2,
    Keys::D,
    Keys::R,
    Keys::F,
    Keys::G,
    Keys::H,
    Keys::I,
    Keys::J,
    Keys::K,
    Keys::L,
];

fn invalid(domain: Domain, value: i32) -> BridgeError {
    BridgeError::InvalidDomainCode { domain, value }
}

#[test]
fn key_codes_follow_the_table() {
    for (index, key) in KEYS.iter().enumerate() {
        assert_eq!(key.int_value(), index as i32);
    }
    assert_eq!(Keys::S.int_value(), 0);
    assert_eq!(Keys::B1.int_value(), 3);
    assert_eq!(Keys::D.int_value(), 7);
    assert_eq!(Keys::L.int_value(), 15);
}

#[test]
fn key_codes_round_trip() {
    for raw in 0..=15 {
        let key = Keys::from_int(raw).unwrap();
        assert_eq!(key, KEYS[raw as usize]);
        assert_eq!(key.int_value(), raw);
    }
    for key in KEYS {
        assert_eq!(Keys::from_int(key.int_value()), Ok(key));
    }
}

#[test]
fn key_codes_outside_the_range_are_rejected_unchanged() {
    for raw in [-1, 16, 17, 99, 255, 256, -10000, i32::MIN, i32::MAX] {
        assert_eq!(Keys::from_int(raw), Err(invalid(Domain::Key, raw)));
    }
}

#[test]
fn key_code_ninety_nine_is_no_key() {
    let result = Keys::from_int(99);
    assert!(result.is_err());
    assert_eq!(result, Err(invalid(Domain::Key, 99)));
    for key in KEYS {
        assert_ne!(result, Ok(key));
    }
}

#[test]
fn init_position_codes_follow_the_table() {
    assert_eq!(InitPosition::Removed.int_value(), 2);
    assert_eq!(InitPosition::Emg.int_value(), 1);
    assert_eq!(InitPosition::Svc.int_value(), 0);
    assert_eq!(InitPosition::from_int(2), Ok(InitPosition::Removed));
    assert_eq!(InitPosition::from_int(1), Ok(InitPosition::Emg));
    assert_eq!(InitPosition::from_int(0), Ok(InitPosition::Svc));
}

#[test]
fn init_position_codes_outside_the_set_are_rejected() {
    for raw in [-1, 3, 4, 99, i32::MIN, i32::MAX] {
        assert_eq!(InitPosition::from_int(raw), Err(invalid(Domain::InitPosition, raw)));
    }
}

#[test]
fn sound_codes_follow_the_table() {
    assert_eq!(Sound::Stop.int_value(), -10000);
    assert_eq!(Sound::Play.int_value(), 1);
    assert_eq!(Sound::PlayLooping.int_value(), 0);
    assert_eq!(Sound::Continue.int_value(), 2);
    assert_eq!(Sound::from_int(-10000), Ok(Sound::Stop));
    assert_eq!(Sound::from_int(1), Ok(Sound::Play));
    assert_eq!(Sound::from_int(0), Ok(Sound::PlayLooping));
    assert_eq!(Sound::from_int(2), Ok(Sound::Continue));
}

#[test]
fn sound_codes_round_trip() {
    for raw in [-10000, 0, 1, 2] {
        assert_eq!(Sound::from_int(raw).unwrap().int_value(), raw);
    }
    for sound in [Sound::Stop, Sound::Play, Sound::PlayLooping, Sound::Continue] {
        assert_eq!(Sound::from_int(sound.int_value()), Ok(sound));
    }
}

#[test]
fn sound_codes_outside_the_set_are_rejected() {
    for raw in [-10001, -9999, -1, 3, 10000, i32::MIN, i32::MAX] {
        assert_eq!(Sound::from_int(raw), Err(invalid(Domain::Sound, raw)));
    }
}

#[test]
fn horn_codes_follow_the_table() {
    assert_eq!(Horns::Primary.int_value(), 0);
    assert_eq!(Horns::Secondary.int_value(), 1);
    assert_eq!(Horns::Music.int_value(), 2);
    assert_eq!(Horns::from_int(0), Ok(Horns::Primary));
    assert_eq!(Horns::from_int(1), Ok(Horns::Secondary));
    assert_eq!(Horns::from_int(2), Ok(Horns::Music));
}

#[test]
fn horn_codes_round_trip() {
    for raw in 0..=2 {
        assert_eq!(Horns::from_int(raw).unwrap().int_value(), raw);
    }
    for horn in [Horns::Primary, Horns::Secondary, Horns::Music] {
        assert_eq!(Horns::from_int(horn.int_value()), Ok(horn));
    }
}

#[test]
fn horn_codes_outside_the_set_are_rejected() {
    for raw in [-1, 3, 99, i32::MIN, i32::MAX] {
        assert_eq!(Horns::from_int(raw), Err(invalid(Domain::Horn, raw)));
    }
}

#[test]
fn constant_speed_codes_follow_the_table() {
    assert_eq!(ConstantSpeed::Continue.int_value(), 0);
    assert_eq!(ConstantSpeed::Enable.int_value(), 1);
    assert_eq!(ConstantSpeed::Disable.int_value(), 2);
    assert_eq!(ConstantSpeed::from_int(0), Ok(ConstantSpeed::Continue));
    assert_eq!(ConstantSpeed::from_int(1), Ok(ConstantSpeed::Enable));
    assert_eq!(ConstantSpeed::from_int(2), Ok(ConstantSpeed::Disable));
}

#[test]
fn constant_speed_codes_round_trip() {
    for raw in 0..=2 {
        assert_eq!(ConstantSpeed::from_int(raw).unwrap().int_value(), raw);
    }
    for directive in [ConstantSpeed::Continue, ConstantSpeed::Enable, ConstantSpeed::Disable] {
        assert_eq!(ConstantSpeed::from_int(directive.int_value()), Ok(directive));
    }
}

#[test]
fn constant_speed_codes_outside_the_set_are_rejected() {
    for raw in [-1, 3, 99, i32::MIN, i32::MAX] {
        assert_eq!(ConstantSpeed::from_int(raw), Err(invalid(Domain::ConstantSpeed, raw)));
    }
}

#[test]
fn every_integer_near_the_sets_converts_back_or_is_rejected() {
    for raw in -10100..=10100 {
        match Keys::from_int(raw) {
            Ok(key) => assert_eq!(key.int_value(), raw),
            Err(error) => assert_eq!(error, invalid(Domain::Key, raw)),
        }
        match Sound::from_int(raw) {
            Ok(sound) => assert_eq!(sound.int_value(), raw),
            Err(error) => assert_eq!(error, invalid(Domain::Sound, raw)),
        }
        match Horns::from_int(raw) {
            Ok(horn) => assert_eq!(horn.int_value(), raw),
            Err(error) => assert_eq!(error, invalid(Domain::Horn, raw)),
        }
        match ConstantSpeed::from_int(raw) {
            Ok(directive) => assert_eq!(directive.int_value(), raw),
            Err(error) => assert_eq!(error, invalid(Domain::ConstantSpeed, raw)),
        }
        match InitPosition::from_int(raw) {
            Ok(position) => assert_eq!(position.int_value(), raw),
            Err(error) => assert_eq!(error, invalid(Domain::InitPosition, raw)),
        }
        assert_eq!(Keys::from_int(raw).is_ok(), (0..=15).contains(&raw));
        assert_eq!(Sound::from_int(raw).is_ok(), raw == -10000 || (0..=2).contains(&raw));
        assert_eq!(Horns::from_int(raw).is_ok(), (0..=2).contains(&raw));
        assert_eq!(ConstantSpeed::from_int(raw).is_ok(), (0..=2).contains(&raw));
        assert_eq!(InitPosition::from_int(raw).is_ok(), (0..=2).contains(&raw));
    }
}
