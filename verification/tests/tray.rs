use pot::tray::{
    label, menu_event_handler, on_clipboard_monitor_click, on_tray_click, tray_event_handler,
    tray_menu, update_tray, CopyMode, Language, MenuCommand, MenuItem, MouseButton,
    MouseButtonState, TrayEvent, WindowCommand,
};

const LANGUAGES: [Language; 11] = [
    Language::En,
    Language::ZhCn,
    Language::ZhTw,
    Language::Ja,
    Language::Ko,
    Language::Fr,
    Language::De,
    Language::Ru,
    Language::PtBr,
    Language::Fa,
    Language::Uk,
];

#[test]
fn language_codes_round_trip() {
    for lang in LANGUAGES {
        assert_eq!(Language::from_code(lang.code()), lang);
    }
    assert_eq!(Language::from_code("pt_br"), Language::PtBr);
    assert_eq!(Language::from_code("es"), Language::En);
    assert_eq!(Language::from_code(""), Language::En);
}

#[test]
fn english_menu() {
    let menu = tray_menu(Language::En, true, "target");
    let ids: Vec<&str> = menu.items.iter().map(|e| e.id.as_str()).collect();
    assert_eq!(
        ids,
        vec![
            "input_translate", "clipboard_monitor", "Auto Copy", "ocr_recognize", "ocr_translate",
            "config", "check_update", "view_log", "restart", "quit"
        ]
    );
    let labels: Vec<&str> = menu.items.iter().map(|e| e.label.as_str()).collect();
    assert_eq!(
        labels,
        vec![
            "Input Translate", "Clipboard Monitor", "Auto Copy", "OCR Recognize", "OCR Translate",
            "Config", "Check Update", "View Log", "Restart", "Quit"
        ]
    );
    assert_eq!(menu.items[1].check, Some(true));
    assert!(menu.items[2].submenu);
    assert_eq!(menu.items[0].check, None);
    let sub: Vec<(&str, &str, Option<bool>)> = menu
        .submenu_items
        .iter()
        .map(|e| (e.id.as_str(), e.label.as_str(), e.check))
        .collect();
    assert_eq!(
        sub,
        vec![
            ("copy_source", "Source", Some(false)),
            ("copy_target", "Target", Some(true)),
            ("copy_source_target", "Source+Target", Some(false)),
            ("copy_disable", "Disable", Some(false)),
        ]
    );
}

#[test]
fn translated_labels() {
    assert_eq!(label(Language::ZhCn, MenuItem::InputTranslate), "输入翻译");
    assert_eq!(label(Language::Ja, MenuItem::AutoCopy), "自動コピー");
    assert_eq!(label(Language::Fr, MenuItem::OcrTranslate), "Traduction d'image");
    assert_eq!(label(Language::De, MenuItem::Quit), "Beenden");
    assert_eq!(label(Language::Uk, MenuItem::Config), "Налаштування");
    let menu = tray_menu(Language::Ko, false, "disable");
    assert_eq!(menu.items[2].id, "자동 복사");
    assert_eq!(menu.items[1].check, Some(false));
    assert_eq!(menu.submenu_items[3].check, Some(true));
}

#[test]
fn unknown_copy_mode_checks_nothing() {
    for lang in LANGUAGES {
        let menu = tray_menu(lang, false, "clipboard");
        assert!(menu.submenu_items.iter().all(|e| e.check == Some(false)));
    }
}

#[test]
fn every_menu_entry_is_handled() {
    for lang in LANGUAGES {
        let menu = tray_menu(lang, false, "source");
        for e in menu.items.iter().chain(menu.submenu_items.iter()) {
            assert_eq!(menu_event_handler(&e.id).is_some(), !e.submenu, "{}", e.id);
        }
    }
}

#[test]
fn menu_commands() {
    assert_eq!(menu_event_handler("input_translate"), Some(MenuCommand::InputTranslate));
    assert_eq!(menu_event_handler("copy_source"), Some(MenuCommand::SetCopyMode(CopyMode::Source)));
    assert_eq!(
        menu_event_handler("copy_source_target"),
        Some(MenuCommand::SetCopyMode(CopyMode::SourceTarget))
    );
    assert_eq!(menu_event_handler("clipboard_monitor"), Some(MenuCommand::ToggleClipboardMonitor));
    assert_eq!(menu_event_handler("config"), Some(MenuCommand::OpenConfig));
    assert_eq!(menu_event_handler("quit"), Some(MenuCommand::Quit));
    assert_eq!(menu_event_handler("Quit"), None);
    assert_eq!(menu_event_handler("Auto Copy"), None);
    assert_eq!(CopyMode::SourceTarget.name(), "source_target");
}

#[test]
fn tray_click_event() {
    let click = on_tray_click(None);
    assert_eq!(click.event.value, "config");
    assert!(click.event.store_default);
    assert_eq!(click.window, Some(WindowCommand::Config));
    let click = on_tray_click(Some("translate".to_string()));
    assert!(!click.event.store_default);
    assert_eq!(click.window, Some(WindowCommand::InputTranslate));
    assert_eq!(on_tray_click(Some("ocr_recognize".to_string())).window, Some(WindowCommand::OcrRecognize));
    assert_eq!(on_tray_click(Some("ocr_translate".to_string())).window, Some(WindowCommand::OcrTranslate));
    assert_eq!(on_tray_click(Some("disable".to_string())).window, None);
    assert_eq!(on_tray_click(Some("whatever".to_string())).window, Some(WindowCommand::Config));
}

#[test]
fn only_left_release_runs_tray_click() {
    assert!(tray_event_handler(TrayEvent::Click { button: MouseButton::Left, state: MouseButtonState::Up }));
    assert!(!tray_event_handler(TrayEvent::Click { button: MouseButton::Left, state: MouseButtonState::Down }));
    assert!(!tray_event_handler(TrayEvent::Click { button: MouseButton::Right, state: MouseButtonState::Up }));
    assert!(!tray_event_handler(TrayEvent::Other));
}

#[test]
fn clipboard_monitor_toggles() {
    let first = on_clipboard_monitor_click(None);
    assert!(!first.before.value);
    assert!(first.before.store_default);
    assert!(first.enabled);
    assert_eq!(first.state_text, "true");
    let second = on_clipboard_monitor_click(Some(first.enabled));
    assert!(!second.before.store_default);
    assert!(!second.enabled);
    assert_eq!(second.state_text, "false");
    let third = on_clipboard_monitor_click(Some(second.enabled));
    assert_eq!(third.enabled, first.enabled);
}

#[test]
fn tray_update_defaults() {
    let update = update_tray("", "", None, None, None);
    assert_eq!(update.language.value, "en");
    assert!(update.language.store_default);
    assert_eq!(update.copy_mode.value, "disable");
    assert!(update.copy_mode.store_default);
    assert!(!update.clipboard_monitor.value);
    assert!(update.clipboard_monitor.store_default);
    assert_eq!(update.menu.items[0].label, "Input Translate");
    assert_eq!(update.menu.submenu_items[3].check, Some(true));
}

#[test]
fn tray_update_given_and_stored() {
    let update = update_tray("", "source", Some("zh_tw".to_string()), Some("target".to_string()), Some(true));
    assert_eq!(update.language.value, "zh_tw");
    assert!(!update.language.store_default);
    assert_eq!(update.copy_mode.value, "source");
    assert!(!update.copy_mode.store_default);
    assert!(update.clipboard_monitor.value);
    assert_eq!(update.menu.items[0].label, "輸入翻譯");
    assert_eq!(update.menu.items[1].check, Some(true));
    assert_eq!(update.menu.submenu_items[0].check, Some(true));
    let update = update_tray("tlh", "", None, Some("target".to_string()), Some(false));
    assert_eq!(update.language.value, "tlh");
    assert_eq!(update.menu.items[9].label, "Quit");
    assert_eq!(update.menu.submenu_items[1].check, Some(true));
}
