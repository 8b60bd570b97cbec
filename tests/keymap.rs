use hotmap::{
    plan_for_key, playback_steps, Direction, Keymap, MacroAction, MacroKey, MacroType,
    ProgrammableKeys, SynthKey, SynthStep,
};

fn binding(key: ProgrammableKeys, actions: Vec<MacroAction>) -> MacroKey {
    MacroKey { programmable_key: key, macro_type: MacroType::Once, actions }
}

#[test]
fn new_keymap_is_blank() {
    let k = Keymap::new("test".to_string(), 3);
    assert_eq!(k.map_name(), "test");
    assert_eq!(k.button_count(), 3);
    assert_eq!(k.buttons().len(), 3);
    let expected = [ProgrammableKeys::MACRO1, ProgrammableKeys::MACRO2, ProgrammableKeys::MACRO3];
    for (b, key) in k.buttons().iter().zip(expected.iter()) {
        assert_eq!(b.programmable_key, *key);
        assert_eq!(b.macro_type, MacroType::Once);
        assert_eq!(b.actions, vec![MacroAction::NoOp]);
    }
}

#[test]
fn new_keymap_with_negative_count_is_empty() {
    let k = Keymap::new("empty".to_string(), -2);
    assert_eq!(k.button_count(), 0);
    assert!(k.buttons().is_empty());
}

#[test]
fn new_keymap_beyond_the_pad_uses_unknown() {
    let k = Keymap::new("big".to_string(), 34);
    assert_eq!(k.button_count(), 34);
    assert_eq!(k.buttons()[31].programmable_key, ProgrammableKeys::MACRO32);
    assert_eq!(k.buttons()[32].programmable_key, ProgrammableKeys::MACROUNKNOWN);
    assert_eq!(k.buttons()[33].programmable_key, ProgrammableKeys::MACROUNKNOWN);
}

#[test]
fn add_button_keeps_count_in_step() {
    let mut k = Keymap::new("k".to_string(), 1);
    k.add_button(binding(ProgrammableKeys::MACRO5, vec![MacroAction::Delay(3)]));
    assert_eq!(k.button_count(), 2);
    assert_eq!(k.buttons().len(), 2);
    assert_eq!(k.buttons()[1].programmable_key, ProgrammableKeys::MACRO5);
    k.add_button(binding(ProgrammableKeys::MACRO6, vec![]));
    assert_eq!(k.button_count(), 3);
    assert_eq!(k.buttons().len(), 3);
    assert_eq!(k.map_name(), "k");
}

#[test]
fn replace_and_snapshot() {
    let mut k = Keymap::new("a".to_string(), 1);
    let other = Keymap::new("b".to_string(), 2);
    k.replace(other.snapshot());
    assert_eq!(k, other);
    assert_eq!(k.snapshot(), other);
}

#[test]
fn from_buttons_counts_its_buttons() {
    let k = Keymap::from_buttons(
        "parts".to_string(),
        vec![binding(ProgrammableKeys::MACRO2, vec![]), binding(ProgrammableKeys::MACRO9, vec![])],
    );
    assert_eq!(k.button_count(), 2);
    assert_eq!(k.map_name(), "parts");
}

#[test]
fn duplicate_bindings_resolve_to_the_first() {
    let mut k = Keymap::new("dup".to_string(), 0);
    k.add_button(binding(ProgrammableKeys::MACRO1, vec![MacroAction::Delay(1)]));
    k.add_button(binding(ProgrammableKeys::MACRO2, vec![MacroAction::Delay(2)]));
    k.add_button(binding(ProgrammableKeys::MACRO1, vec![MacroAction::Delay(3)]));
    assert_eq!(k.find_button(ProgrammableKeys::MACRO1), Some(0));
    assert_eq!(k.find_button(ProgrammableKeys::MACRO2), Some(1));
    assert_eq!(k.find_button(ProgrammableKeys::MACRO3), None);
    let found = k.resolve(ProgrammableKeys::MACRO1).unwrap();
    assert_eq!(found.actions, vec![MacroAction::Delay(1)]);
    assert_eq!(k.resolve(ProgrammableKeys::MACRO3), None);
}

#[test]
fn playback_follows_action_order() {
    let m = binding(
        ProgrammableKeys::MACRO1,
        vec![
            MacroAction::Print("Hi".to_string()),
            MacroAction::Delay(50),
            MacroAction::Tap(hotmap::Key::Return),
        ],
    );
    assert_eq!(
        playback_steps(&m),
        vec![
            SynthStep::Text("Hi".to_string()),
            SynthStep::Sleep(50),
            SynthStep::Key(SynthKey::Return, Direction::Click),
        ]
    );
}

#[test]
fn playback_of_press_release_and_noop() {
    let m = MacroKey {
        programmable_key: ProgrammableKeys::MACRO2,
        macro_type: MacroType::Repeat(3),
        actions: vec![
            MacroAction::Press(hotmap::Key::ShiftLeft),
            MacroAction::NoOp,
            MacroAction::Tap(hotmap::Key::KeyA),
            MacroAction::Release(hotmap::Key::ShiftLeft),
        ],
    };
    assert_eq!(
        playback_steps(&m),
        vec![
            SynthStep::Key(SynthKey::LShift, Direction::Press),
            SynthStep::Key(SynthKey::Unicode('a'), Direction::Click),
            SynthStep::Key(SynthKey::LShift, Direction::Release),
        ]
    );
}

#[test]
fn plan_for_unbound_key_is_none() {
    let k = Keymap::new("k".to_string(), 2);
    assert_eq!(plan_for_key(&k, ProgrammableKeys::MACRO3), None);
    assert_eq!(plan_for_key(&k, ProgrammableKeys::MACRO2), Some(vec![]));
}
