use pot::hotkey::{
    finish_registration, handle_shortcut, prepare_registration, register_shortcut,
    register_shortcut_by_frontend, HotkeyAction, Registration, RequestStep,
};
use pot::registry::ShortcutRegistry;
use std::str::FromStr;

const ALL: [HotkeyAction; 4] = [
    HotkeyAction::SelectionTranslate,
    HotkeyAction::InputTranslate,
    HotkeyAction::OcrRecognize,
    HotkeyAction::OcrTranslate,
];

#[test]
fn action_names_round_trip() {
    for action in ALL {
        assert_eq!(HotkeyAction::from_name(action.name()), Some(action));
        assert_eq!(register_shortcut(action.name(), &vec![]), RequestStep::Register(action));
        assert_eq!(register_shortcut(action.name(), &vec![Ok(())]), RequestStep::Finish(Ok(())));
    }
    assert_eq!(HotkeyAction::SelectionTranslate.name(), "hotkey_selection_translate");
    assert_eq!(HotkeyAction::OcrTranslate.name(), "hotkey_ocr_translate");
    assert_eq!(HotkeyAction::from_name("hotkey_unknown"), None);
}

#[test]
fn register_all_registers_four_in_order() {
    let mut outcomes = Vec::new();
    for action in ALL {
        assert_eq!(register_shortcut("all", &outcomes), RequestStep::Register(action));
        outcomes.push(Ok(()));
    }
    assert_eq!(register_shortcut("all", &outcomes), RequestStep::Finish(Ok(())));
    assert_eq!(register_shortcut("ALL", &vec![]), RequestStep::Finish(Ok(())));
    assert_eq!(register_shortcut("", &vec![]), RequestStep::Finish(Ok(())));
}

#[test]
fn register_all_stops_at_first_failure() {
    let outcomes = vec![Ok(()), Err("taken".to_string())];
    assert_eq!(register_shortcut("all", &outcomes), RequestStep::Finish(Err("taken".to_string())));
    let outcomes = vec![Err("first".to_string()), Err("second".to_string())];
    assert_eq!(register_shortcut("all", &outcomes), RequestStep::Finish(Err("first".to_string())));
    let outcomes = vec![Err("bad".to_string())];
    assert_eq!(
        register_shortcut("hotkey_ocr_recognize", &outcomes),
        RequestStep::Finish(Err("bad".to_string()))
    );
}

#[test]
fn frontend_request_needs_an_action_name() {
    assert_eq!(register_shortcut_by_frontend("hotkey_ocr_recognize"), Some(HotkeyAction::OcrRecognize));
    assert_eq!(register_shortcut_by_frontend("all"), None);
}

#[test]
fn pressed_shortcut_triggers_its_action() {
    let mut registry = ShortcutRegistry::new();
    registry.insert("Ctrl+Q".to_string(), "hotkey_input_translate".to_string());
    registry.insert("Alt+W".to_string(), "not_an_action".to_string());
    assert_eq!(handle_shortcut(&registry, "control+KeyQ"), Some(HotkeyAction::InputTranslate));
    assert_eq!(handle_shortcut(&registry, "alt+KeyW"), None);
    assert_eq!(handle_shortcut(&registry, "shift+KeyQ"), None);
    // The registry keeps the order in which the keys were written.
    assert_eq!(handle_shortcut(&registry, "shift+control+KeyQ"), None);
}

#[test]
fn empty_shortcut_is_skipped() {
    let mut registry = ShortcutRegistry::new();
    match prepare_registration(&mut registry, "hotkey_ocr_translate", "", None) {
        Registration::Skip { store_default } => assert!(store_default),
        _ => panic!("expected a skip"),
    }
    match prepare_registration(&mut registry, "hotkey_ocr_translate", "", Some(String::new())) {
        Registration::Skip { store_default } => assert!(!store_default),
        _ => panic!("expected a skip"),
    }
}

#[test]
fn invalid_shortcut_is_refused() {
    let mut registry = ShortcutRegistry::new();
    registry.insert("Ctrl+Q".to_string(), "hotkey_ocr_translate".to_string());
    match prepare_registration(&mut registry, "hotkey_ocr_translate", "Ctrl+Nope", None) {
        Registration::Invalid { message } => {
            assert_eq!(message, "Invalid shortcut format: Ctrl+Nope")
        }
        _ => panic!("expected a refusal"),
    }
    match prepare_registration(&mut registry, "hotkey_ocr_translate", "", Some("Q+Ctrl".to_string())) {
        Registration::Invalid { message } => assert_eq!(message, "Invalid shortcut format: Q+Ctrl"),
        _ => panic!("expected a refusal"),
    }
    assert_eq!(registry.get_action("ctrl+q").as_deref(), Some("hotkey_ocr_translate"));
}

#[test]
fn given_shortcut_wins_over_stored_one() {
    let mut registry = ShortcutRegistry::new();
    match prepare_registration(&mut registry, "hotkey_ocr_translate", "Alt+O", Some("Ctrl+Q".to_string())) {
        Registration::Bind { hotkey, release, .. } => {
            assert_eq!(hotkey, "Alt+O");
            assert_eq!(release, None);
        }
        _ => panic!("expected a binding"),
    }
}

#[test]
fn registration_moves_action_to_new_shortcut() {
    let mut registry = ShortcutRegistry::new();
    let name = "hotkey_input_translate";
    let hotkey = match prepare_registration(&mut registry, name, "", Some("CmdOrCtrl+Space".to_string())) {
        Registration::Bind { hotkey, release, .. } => {
            assert_eq!(release, None);
            hotkey
        }
        _ => panic!("expected a binding"),
    };
    assert_eq!(finish_registration(&mut registry, name, hotkey, Ok(())), Ok(()));
    // The registry keys by the text as written, which names no known modifier here.
    assert_eq!(registry.get_action("ctrl+space"), None);
    assert_eq!(registry.get_action("CmdOrCtrl + space").as_deref(), Some(name));

    let hotkey = match prepare_registration(&mut registry, name, "Alt+T", None) {
        Registration::Bind { hotkey, release, .. } => {
            assert_eq!(release.as_deref(), Some("cmdorctrl+space"));
            hotkey
        }
        _ => panic!("expected a binding"),
    };
    assert_eq!(registry.get_action("cmdorctrl+space"), None);
    assert_eq!(finish_registration(&mut registry, name, hotkey, Ok(())), Ok(()));
    assert_eq!(registry.get_action("alt+t").as_deref(), Some(name));
    assert_eq!(registry.hotkey_of(name).as_deref(), Some("alt+keyt"));
}

#[test]
fn registering_the_same_shortcut_releases_nothing() {
    let mut registry = ShortcutRegistry::new();
    registry.insert("Alt+T".to_string(), "hotkey_ocr_recognize".to_string());
    match prepare_registration(&mut registry, "hotkey_ocr_recognize", "alt + t", None) {
        Registration::Bind { release, .. } => assert_eq!(release, None),
        _ => panic!("expected a binding"),
    }
    assert_eq!(registry.get_action("alt+t").as_deref(), Some("hotkey_ocr_recognize"));
}

#[test]
fn refused_by_system_leaves_registry() {
    let mut registry = ShortcutRegistry::new();
    registry.insert("Alt+T".to_string(), "hotkey_ocr_recognize".to_string());
    let r = finish_registration(
        &mut registry,
        "hotkey_ocr_translate",
        "Alt+X".to_string(),
        Err("already taken".to_string()),
    );
    assert_eq!(r, Err("already taken".to_string()));
    assert_eq!(registry.get_action("alt+x"), None);
    assert_eq!(registry.get_action("alt+t").as_deref(), Some("hotkey_ocr_recognize"));
}

#[test]
fn new_shortcut_takes_over_another_actions_binding() {
    let mut registry = ShortcutRegistry::new();
    registry.insert("Alt+T".to_string(), "hotkey_ocr_recognize".to_string());
    registry.insert("Alt+S".to_string(), "hotkey_ocr_translate".to_string());
    let name = "hotkey_ocr_translate";
    let hotkey = match prepare_registration(&mut registry, name, "Alt+T", None) {
        Registration::Bind { hotkey, release, .. } => {
            assert_eq!(release.as_deref(), Some("alt+keys"));
            hotkey
        }
        _ => panic!("expected a binding"),
    };
    finish_registration(&mut registry, name, hotkey, Ok(())).unwrap();
    assert_eq!(registry.get_action("alt+t").as_deref(), Some(name));
    assert_eq!(registry.get_action("alt+s"), None);
    assert_eq!(registry.hotkey_of("hotkey_ocr_recognize"), None);
}

#[test]
fn bound_hotkey_is_the_parse_of_the_chosen_text() {
    let mut registry = ShortcutRegistry::new();
    match prepare_registration(&mut registry, "hotkey_input_translate", "", Some("Shift+Alt+K".to_string())) {
        Registration::Bind { hotkey, shortcut, .. } => {
            assert_eq!(hotkey, "Shift+Alt+K");
            let expected = global_hotkey::hotkey::HotKey::from_str("Shift+Alt+K").unwrap();
            assert_eq!(shortcut.into_hotkey(), expected);
        }
        _ => panic!("expected a binding"),
    }
}
