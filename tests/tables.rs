use hotmap::{Direction, Key, ProgrammableKeys, SynthKey};

#[test]
fn linux_codes_map_to_buttons() {
    assert_eq!(ProgrammableKeys::from_u32(656), ProgrammableKeys::MACRO1);
    assert_eq!(ProgrammableKeys::from_u32(657), ProgrammableKeys::MACRO2);
    assert_eq!(ProgrammableKeys::from_u32(671), ProgrammableKeys::MACRO16);
    assert_eq!(ProgrammableKeys::from_u32(687), ProgrammableKeys::MACRO32);
}

#[test]
fn linux_codes_outside_range_are_unknown() {
    assert_eq!(ProgrammableKeys::from_u32(0), ProgrammableKeys::MACROUNKNOWN);
    assert_eq!(ProgrammableKeys::from_u32(655), ProgrammableKeys::MACROUNKNOWN);
    assert_eq!(ProgrammableKeys::from_u32(688), ProgrammableKeys::MACROUNKNOWN);
    assert_eq!(ProgrammableKeys::from_u32(u32::MAX), ProgrammableKeys::MACROUNKNOWN);
}

#[test]
fn windows_codes_map_to_buttons() {
    assert_eq!(ProgrammableKeys::from_windows_u32(261), ProgrammableKeys::MACRO1);
    assert_eq!(ProgrammableKeys::from_windows_u32(524293), ProgrammableKeys::MACRO12);
    assert_eq!(ProgrammableKeys::from_windows_u32(207), ProgrammableKeys::MACRO19);
    assert_eq!(ProgrammableKeys::from_windows_u32(134217733), ProgrammableKeys::MACRO20);
    assert_eq!(ProgrammableKeys::from_windows_u32(219), ProgrammableKeys::MACRO32);
    assert_eq!(ProgrammableKeys::from_windows_u32(656), ProgrammableKeys::MACROUNKNOWN);
}

#[test]
fn positions_map_to_buttons() {
    assert_eq!(ProgrammableKeys::get_from_index(1), ProgrammableKeys::MACRO1);
    assert_eq!(ProgrammableKeys::get_from_index(32), ProgrammableKeys::MACRO32);
    assert_eq!(ProgrammableKeys::get_from_index(0), ProgrammableKeys::MACROUNKNOWN);
    assert_eq!(ProgrammableKeys::get_from_index(33), ProgrammableKeys::MACROUNKNOWN);
    assert_eq!(ProgrammableKeys::get_from_index(-1), ProgrammableKeys::MACROUNKNOWN);
    assert_eq!(ProgrammableKeys::MACRO7.index(), 7);
    assert_eq!(ProgrammableKeys::MACROUNKNOWN.index(), 0);
}

#[test]
fn keys_translate_to_synthesis_keys() {
    assert_eq!(Key::KeyA.to_synth(), SynthKey::Unicode('a'));
    assert_eq!(Key::Num0.to_synth(), SynthKey::Unicode('0'));
    assert_eq!(Key::BackSlash.to_synth(), SynthKey::Unicode('\\'));
    assert_eq!(Key::ControlLeft.to_synth(), SynthKey::LControl);
    assert_eq!(Key::MetaRight.to_synth(), SynthKey::Meta);
    assert_eq!(Key::PrintScreen.to_synth(), SynthKey::Print);
    assert_eq!(Key::ScrollLock.to_synth(), SynthKey::ScrollLock);
    assert_eq!(Key::Return.to_synth(), SynthKey::Return);
    assert_eq!(Key::Unknown(7).to_synth(), SynthKey::Other(7));
    assert_ne!(Direction::Press, Direction::Release);
}

#[test]
fn key_names_read_back() {
    assert_eq!(Key::KeyQ.name(), "KeyQ");
    assert_eq!(Key::from_name("KeyQ"), Some(Key::KeyQ));
    assert_eq!(Key::from_name("IntlBackslash"), Some(Key::IntlBackslash));
    assert_eq!(Key::from_name("F10"), Some(Key::F10));
    assert_eq!(Key::from_name("Unknown"), None);
    assert_eq!(Key::from_name("keyq"), None);
    assert_eq!(ProgrammableKeys::MACRO12.name(), "MACRO12");
    assert_eq!(ProgrammableKeys::from_name("MACRO12"), Some(ProgrammableKeys::MACRO12));
    assert_eq!(
        ProgrammableKeys::from_name("MACROUNKNOWN"),
        Some(ProgrammableKeys::MACROUNKNOWN)
    );
    assert_eq!(ProgrammableKeys::from_name("MACRO33"), None);
}
