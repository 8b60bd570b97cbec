use hotmap::{
    dispatch_tick, key_for_event, Direction, EventQueue, Keymap, MacroAction, MacroKey, MacroType,
    ProgrammableKeys, SynthKey, SynthStep, TickOutcome,
};

#[test]
fn releases_and_unknown_codes_are_not_queued() {
    let mut q = EventQueue::new();
    q.record_event(700, true);
    q.record_event(0, true);
    q.record_event(656, false);
    assert!(q.is_empty());
    assert_eq!(key_for_event(700, true), None);
    assert_eq!(key_for_event(657, false), None);
    assert_eq!(key_for_event(657, true), Some(ProgrammableKeys::MACRO2));
    q.record_event(657, true);
    assert_eq!(q.len(), 1);
    assert_eq!(q.pop_next(), Some(ProgrammableKeys::MACRO2));
}

#[test]
fn unknown_code_triggers_no_playback() {
    let mut k = Keymap::new("k".to_string(), 0);
    k.add_button(MacroKey {
        programmable_key: ProgrammableKeys::MACROUNKNOWN,
        macro_type: MacroType::Once,
        actions: vec![MacroAction::Delay(5)],
    });
    let mut q = EventQueue::new();
    q.record_event(1234, true);
    assert_eq!(dispatch_tick(&mut q, &k), TickOutcome::Idle);
}

#[test]
fn queue_is_first_in_first_out() {
    let mut q = EventQueue::new();
    q.push(ProgrammableKeys::MACRO1);
    q.push(ProgrammableKeys::MACRO2);
    let k = Keymap::new("k".to_string(), 0);
    assert_eq!(dispatch_tick(&mut q, &k), TickOutcome::Unbound(ProgrammableKeys::MACRO1));
    assert_eq!(q.len(), 1);
    assert_eq!(q.pop_next(), Some(ProgrammableKeys::MACRO2));
    assert_eq!(q.pop_next(), None);
}

#[test]
fn tick_on_empty_queue_is_idle() {
    let mut q = EventQueue::new();
    let k = Keymap::new("k".to_string(), 1);
    assert_eq!(dispatch_tick(&mut q, &k), TickOutcome::Idle);
    assert!(q.is_empty());
}

#[test]
fn tick_plays_the_first_binding() {
    let mut k = Keymap::new("k".to_string(), 0);
    k.add_button(MacroKey {
        programmable_key: ProgrammableKeys::MACRO4,
        macro_type: MacroType::Toggle,
        actions: vec![MacroAction::Tap(hotmap::Key::F5)],
    });
    k.add_button(MacroKey {
        programmable_key: ProgrammableKeys::MACRO4,
        macro_type: MacroType::Once,
        actions: vec![MacroAction::Tap(hotmap::Key::F6)],
    });
    let mut q = EventQueue::new();
    q.record_event(659, true);
    assert_eq!(
        dispatch_tick(&mut q, &k),
        TickOutcome::Play(vec![SynthStep::Key(SynthKey::F5, Direction::Click)])
    );
    assert!(q.is_empty());
}
