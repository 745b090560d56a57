use pot::shortcut::normalize_shortcut;

#[test]
fn normalizes_modifier_aliases_and_single_keys() {
    assert_eq!(normalize_shortcut("Ctrl+Shift+A"), "control+shift+keya");
    assert_eq!(normalize_shortcut("Control+Alt+Z"), "control+alt+keyz");
    assert_eq!(normalize_shortcut("Cmd+Meta+Super+1"), "super+super+super+key1");
}

#[test]
fn keeps_longer_key_names_lowercased() {
    assert_eq!(normalize_shortcut("Alt+F4"), "alt+f4");
    assert_eq!(normalize_shortcut("Shift+Space"), "shift+space");
    assert_eq!(normalize_shortcut("shift+KeyQ"), "shift+keyq");
}

#[test]
fn ignores_spaces_around_keys() {
    assert_eq!(normalize_shortcut(" ctrl + a "), "control+keya");
    assert_eq!(normalize_shortcut("\tCTRL\n+\u{3000}B\u{2003}"), "control+keyb");
    assert_eq!(normalize_shortcut("Ctrl + A"), normalize_shortcut("Ctrl+A"));
}

#[test]
fn keeps_empty_pieces() {
    assert_eq!(normalize_shortcut(""), "");
    assert_eq!(normalize_shortcut("a++b"), "keya++keyb");
    assert_eq!(normalize_shortcut("+"), "+");
}

#[test]
fn prefixes_only_one_byte_keys() {
    // A single character beyond ASCII is more than one byte long.
    assert_eq!(normalize_shortcut("Ä"), "ä");
    assert_eq!(normalize_shortcut("É+ctrl"), "é+control");
    assert_eq!(normalize_shortcut(";"), "key;");
}

#[test]
fn normal_forms_are_stable() {
    for text in ["control+keya", "super+f12", "alt+shift+keyz", "key;"] {
        assert_eq!(normalize_shortcut(text), text);
    }
}

#[test]
fn ascii_case_does_not_matter() {
    assert_eq!(normalize_shortcut("CTRL+SHIFT+a"), normalize_shortcut("ctrl+shift+A"));
    assert_eq!(normalize_shortcut("Alt+F4"), normalize_shortcut("ALT+f4"));
    assert_eq!(normalize_shortcut("CmD+q"), "super+keyq");
}

#[test]
fn normalizing_twice_changes_nothing() {
    for text in ["Ctrl+Shift+A", " alt + F4 ", "CmdOrCtrl+Space", "a++B", "", "Meta+;"] {
        let once = normalize_shortcut(text);
        assert_eq!(normalize_shortcut(&once), once);
    }
}

#[test]
fn lowercases_beyond_ascii() {
    assert_eq!(normalize_shortcut("ΑΣ"), "ας");
    assert_eq!(normalize_shortcut("Ctrl+ÖL"), "control+öl");
}

#[test]
fn normal_form_has_no_capitals() {
    let texts = ["ÄB + Shift", "CTRL+Ω", "Meta + Z", "ÉCOLE+ALT+Q"];
    for t in texts {
        let r = normalize_shortcut(t);
        assert!(!r.chars().any(|c| c.is_ascii_uppercase()), "{r}");
    }
    assert_eq!(normalize_shortcut("ÄB + Shift"), "äb+shift");
}

#[test]
fn pieces_are_normalized_alone_beyond_ascii() {
    let text = "ÄB + ctrl+Ω+ q";
    let whole = normalize_shortcut(text);
    let pieces: Vec<&str> = text.split('+').collect();
    let parts: Vec<&str> = whole.split('+').collect();
    assert_eq!(parts.len(), pieces.len());
    for (p, q) in pieces.iter().zip(parts.iter()) {
        assert_eq!(normalize_shortcut(p), *q);
    }
    assert_eq!(whole, "äb+control+ω+keyq");
}

#[test]
fn white_space_padding_is_ignored() {
    assert_eq!(normalize_shortcut(" \tCtrl \t+\tAlt  +  A\t"), normalize_shortcut("Ctrl+Alt+A"));
    assert_eq!(normalize_shortcut("\u{a0}Ä +\u{3000}ω"), normalize_shortcut("Ä+ω"));
    for piece in normalize_shortcut(" Ctrl + ÖL \t+ x ").split('+') {
        assert_eq!(piece, piece.trim());
    }
}
