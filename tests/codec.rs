use hotmap::{
    keymap_file_name, keymap_from_document, DecodeError, Json, Key, Keymap, MacroAction, MacroKey,
    MacroType, Member, ProgrammableKeys,
};

fn member(name: &str, value: Json) -> Member {
    Member { name: name.to_string(), value }
}

fn sample() -> Keymap {
    let mut k = Keymap::new("profile".to_string(), 2);
    k.add_button(MacroKey {
        programmable_key: ProgrammableKeys::MACRO3,
        macro_type: MacroType::Repeat(-4),
        actions: vec![
            MacroAction::Print("Hi".to_string()),
            MacroAction::Delay(u64::MAX),
            MacroAction::Tap(Key::Return),
            MacroAction::Press(Key::Unknown(77)),
            MacroAction::Release(Key::KpMultiply),
            MacroAction::NoOp,
        ],
    });
    k.add_button(MacroKey {
        programmable_key: ProgrammableKeys::MACRO3,
        macro_type: MacroType::Toggle,
        actions: vec![],
    });
    k
}

#[test]
fn keymap_round_trips_through_json() {
    let k = sample();
    let back = Keymap::from_json(&k.to_json());
    assert_eq!(back, Ok(k));
}

#[test]
fn blank_keymap_round_trips_through_json() {
    let k = Keymap::new("blank".to_string(), 0);
    assert_eq!(Keymap::from_json(&k.to_json()), Ok(k));
}

#[test]
fn keymap_json_has_the_documented_shape() {
    let k = Keymap::new("keymap".to_string(), 1);
    let expected = Json::Obj(vec![
        member("map_name", Json::Str("keymap".to_string())),
        member("button_count", Json::Num(1)),
        member(
            "buttons",
            Json::Arr(vec![Json::Obj(vec![
                member("programmable_key", Json::Str("MACRO1".to_string())),
                member("macro_type", Json::Str("Once".to_string())),
                member("actions", Json::Arr(vec![Json::Str("None".to_string())])),
            ])]),
        ),
    ]);
    assert_eq!(k.to_json(), expected);
}

#[test]
fn variants_with_payload_are_single_member_objects() {
    assert_eq!(
        MacroAction::Delay(50).to_json(),
        Json::Obj(vec![member("Delay", Json::Num(50))])
    );
    assert_eq!(
        MacroAction::Tap(Key::Unknown(5)).to_json(),
        Json::Obj(vec![member("Tap", Json::Obj(vec![member("Unknown", Json::Num(5))]))])
    );
    assert_eq!(
        MacroType::Repeat(2).to_json(),
        Json::Obj(vec![member("Repeat", Json::Num(2))])
    );
    assert_eq!(Key::Dot.to_json(), Json::Str("Dot".to_string()));
}

#[test]
fn members_are_found_in_any_order() {
    let doc = Json::Obj(vec![
        member("buttons", Json::Arr(vec![])),
        member("extra", Json::Bool(true)),
        member("button_count", Json::Num(0)),
        member("map_name", Json::Str("x".to_string())),
    ]);
    let k = Keymap::from_json(&doc).unwrap();
    assert_eq!(k.map_name(), "x");
    assert_eq!(k.button_count(), 0);
}

#[test]
fn count_mismatch_is_rejected() {
    let doc = Json::Obj(vec![
        member("map_name", Json::Str("x".to_string())),
        member("button_count", Json::Num(2)),
        member("buttons", Json::Arr(vec![])),
    ]);
    assert_eq!(Keymap::from_json(&doc), Err(DecodeError::CountMismatch));
}

#[test]
fn malformed_documents_are_rejected() {
    assert_eq!(Keymap::from_json(&Json::Null), Err(DecodeError::Malformed));
    let missing = Json::Obj(vec![member("map_name", Json::Str("x".to_string()))]);
    assert_eq!(Keymap::from_json(&missing), Err(DecodeError::Malformed));
    let too_big = Json::Obj(vec![
        member("map_name", Json::Str("x".to_string())),
        member("button_count", Json::Num(1 << 40)),
        member("buttons", Json::Arr(vec![])),
    ]);
    assert_eq!(Keymap::from_json(&too_big), Err(DecodeError::Malformed));
    let bad_key = Json::Obj(vec![
        member("map_name", Json::Str("x".to_string())),
        member("button_count", Json::Num(1)),
        member(
            "buttons",
            Json::Arr(vec![Json::Obj(vec![
                member("programmable_key", Json::Str("MACRO99".to_string())),
                member("macro_type", Json::Str("Once".to_string())),
                member("actions", Json::Arr(vec![])),
            ])]),
        ),
    ]);
    assert_eq!(Keymap::from_json(&bad_key), Err(DecodeError::Malformed));
}

#[test]
fn malformed_actions_are_rejected() {
    assert_eq!(MacroAction::from_json(&Json::Str("Nothing".to_string())), None);
    assert_eq!(MacroAction::from_json(&Json::Obj(vec![member("Delay", Json::Num(-1))])), None);
    assert_eq!(
        MacroAction::from_json(&Json::Obj(vec![
            member("Delay", Json::Num(1)),
            member("Tap", Json::Str("KeyA".to_string())),
        ])),
        None
    );
    assert_eq!(
        MacroAction::from_json(&Json::Obj(vec![member("Tap", Json::Str("KeyA".to_string()))])),
        Some(MacroAction::Tap(Key::KeyA))
    );
    assert_eq!(MacroType::from_json(&Json::Str("Twice".to_string())), None);
    assert_eq!(Key::from_json(&Json::Obj(vec![member("Unknown", Json::Num(-3))])), None);
}

#[test]
fn missing_document_gives_blank_keymap() {
    let k = keymap_from_document(None).unwrap();
    assert_eq!(k.map_name(), "keymap");
    assert_eq!(k.button_count(), 1);
    assert_eq!(k.buttons()[0].programmable_key, ProgrammableKeys::MACRO1);
    assert_eq!(k.buttons()[0].macro_type, MacroType::Once);
    assert_eq!(k.buttons()[0].actions, vec![MacroAction::NoOp]);
}

#[test]
fn present_document_is_decoded() {
    let k = sample();
    let doc = k.to_json();
    assert_eq!(keymap_from_document(Some(&doc)), Ok(k));
    assert_eq!(keymap_from_document(Some(&Json::Bool(false))), Err(DecodeError::Malformed));
}

#[test]
fn keymap_is_stored_under_its_name() {
    assert_eq!(keymap_file_name("profile"), "profile.json");
    assert_eq!(keymap_file_name(""), ".json");
}
