use capsense::keys::{
    caps_lock_toggle, execute_custom_shortcut, key_down, key_up, lookup_upper_name, parse_vk,
    KeyInput, VK_CAPITAL, VK_CONTROL, VK_LWIN, VK_MENU, VK_SHIFT, VK_SPACE,
};

#[test]
fn named_keys_parse_case_insensitively() {
    assert_eq!(parse_vk("LWIN"), Some(VK_LWIN));
    assert_eq!(parse_vk("win"), Some(VK_LWIN));
    assert_eq!(parse_vk("Space"), Some(VK_SPACE));
    assert_eq!(parse_vk("lcontrol"), Some(VK_CONTROL));
    assert_eq!(parse_vk("ctrl"), Some(VK_CONTROL));
    assert_eq!(parse_vk("LSHIFT"), Some(VK_SHIFT));
    assert_eq!(parse_vk("shift"), Some(VK_SHIFT));
    assert_eq!(parse_vk("LMENU"), Some(VK_MENU));
    assert_eq!(parse_vk("alt"), Some(VK_MENU));
    assert_eq!(parse_vk("CapsLock"), Some(VK_CAPITAL));
}

#[test]
fn single_characters_give_their_code() {
    assert_eq!(parse_vk("a"), Some(0x41));
    assert_eq!(parse_vk("Z"), Some(0x5A));
    assert_eq!(parse_vk("1"), Some(0x31));
    // the dotless i upper-cases to an ASCII I
    assert_eq!(parse_vk("\u{0131}"), Some(0x49));
}

#[test]
fn unknown_names_are_rejected() {
    assert_eq!(parse_vk(""), None);
    assert_eq!(parse_vk("F13"), None);
    assert_eq!(parse_vk("é"), None);
    assert_eq!(lookup_upper_name("win"), None);
    assert_eq!(lookup_upper_name("WIN"), Some(VK_LWIN));
}

#[test]
fn default_shortcut_presses_then_releases_in_reverse() {
    let keys = vec!["LWIN".to_string(), "SPACE".to_string()];
    let inputs = execute_custom_shortcut(&keys);
    assert_eq!(
        inputs,
        vec![key_down(VK_LWIN), key_down(VK_SPACE), key_up(VK_SPACE), key_up(VK_LWIN)]
    );
}

#[test]
fn unsupported_keys_are_skipped() {
    let keys = vec!["ctrl".to_string(), "bogus".to_string(), "shift".to_string(), "x".to_string()];
    let inputs = execute_custom_shortcut(&keys);
    assert_eq!(
        inputs,
        vec![
            KeyInput { vk: VK_CONTROL, key_up: false },
            KeyInput { vk: VK_SHIFT, key_up: false },
            KeyInput { vk: 0x58, key_up: false },
            KeyInput { vk: 0x58, key_up: true },
            KeyInput { vk: VK_SHIFT, key_up: true },
            KeyInput { vk: VK_CONTROL, key_up: true },
        ]
    );
    assert!(execute_custom_shortcut(&[]).is_empty());
    assert!(execute_custom_shortcut(&["nothing".to_string()]).is_empty());
}

#[test]
fn caps_lock_toggle_is_press_then_release() {
    assert_eq!(caps_lock_toggle(), vec![key_down(VK_CAPITAL), key_up(VK_CAPITAL)]);
}

#[test]
fn key_names_ignore_case() {
    for (a, b) in [("lwin", "LWIN"), ("Win", "WIN"), ("sPaCe", "SPACE"), ("capslock", "CAPSLOCK"), ("q", "Q")] {
        assert_eq!(parse_vk(a), parse_vk(b));
        assert!(parse_vk(a).is_some());
    }
}
