use pot::settings::{flag_setting, stored_setting, text_setting};
use pot::updater::check_update;

#[test]
fn given_text_wins() {
    let r = text_setting("fr", Some("de".to_string()), "en");
    assert_eq!(r.value, "fr");
    assert!(!r.store_default);
}

#[test]
fn stored_text_then_default() {
    let r = text_setting("", Some("de".to_string()), "en");
    assert_eq!(r.value, "de");
    assert!(!r.store_default);
    let r = text_setting("", None, "en");
    assert_eq!(r.value, "en");
    assert!(r.store_default);
    let r = stored_setting(Some(String::new()), "config");
    assert_eq!(r.value, "");
    assert!(!r.store_default);
}

#[test]
fn flags() {
    let r = flag_setting(Some(false), true);
    assert!(!r.value && !r.store_default);
    let r = flag_setting(None, true);
    assert!(r.value && r.store_default);
}

#[test]
fn update_check_is_on_by_default() {
    let r = check_update(None);
    assert!(r.value);
    assert!(r.store_default);
    assert!(!check_update(Some(false)).value);
    assert!(check_update(Some(true)).value);
}
