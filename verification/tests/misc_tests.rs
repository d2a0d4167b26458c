use capsense::config::{choose_config, needs_write_back, shows_no_english_tip, Config};
use capsense::ime::{is_chinese_layout, primary_language_id, ImeSync, CHINESE_IME_CONVERSION_MODE};
use capsense::ipc::{message_window_command, IpcCommand, WM_CLOSE, WM_RELOAD_CONFIG};
use capsense::text::{decimal_string, fill_placeholder_text, text_eq};
use capsense::wide::encode_wide;

#[test]
fn defaults_match_the_documentation() {
    let c = Config::default();
    assert_eq!(c.tap_threshold_ms, 300);
    assert_eq!(c.tap_action, "switch_layout");
    assert_eq!(c.tap_shortcut, vec!["LWIN".to_string(), "SPACE".to_string()]);
    assert_eq!(c.layouts, vec![0x0804, 0x0409]);
    assert!(c.no_en);
}

#[test]
fn parsed_config_wins_over_defaults() {
    let mut parsed = Config::default();
    parsed.tap_threshold_ms = 150;
    assert_eq!(choose_config(Some(parsed)).tap_threshold_ms, 150);
    assert_eq!(choose_config(None).tap_threshold_ms, 300);
}

#[test]
fn write_back_only_when_needed() {
    assert!(needs_write_back(None, "a = 1\n"));
    assert!(needs_write_back(Some("a = 1"), "a = 1\nb = 2\n"));
    assert!(!needs_write_back(Some("a = 1\n"), "a = 1\n"));
    assert!(shows_no_english_tip(false, true));
    assert!(!shows_no_english_tip(true, true));
    assert!(!shows_no_english_tip(false, false));
}

#[test]
fn primary_language_masks_sublanguage() {
    assert_eq!(primary_language_id(0x0804), 0x04);
    assert_eq!(primary_language_id(0x0404), 0x04);
    assert_eq!(primary_language_id(0x0409), 0x09);
    assert_eq!(primary_language_id(0xFFFF), 0x03FF);
}

#[test]
fn chinese_layouts_are_recognized() {
    assert!(is_chinese_layout(0x0804_0804));
    assert!(is_chinese_layout(0xE00E_0804));
    assert!(!is_chinese_layout(0x0409_0409));
    assert!(!is_chinese_layout(0));
    assert_eq!(CHINESE_IME_CONVERSION_MODE, 0x0401);
}

#[test]
fn only_the_latest_sync_request_is_wanted() {
    let mut sync = ImeSync::new();
    assert_eq!(sync.schedule(0), None);
    assert_eq!(sync, ImeSync::new());
    let first = sync.schedule(42).unwrap();
    assert!(sync.still_wanted(first, true, 42, 42));
    assert!(!sync.still_wanted(first, true, 7, 42));
    assert!(sync.still_wanted(first, false, 7, 42));
    let second = sync.schedule(42).unwrap();
    assert_ne!(first, second);
    assert!(!sync.still_wanted(first, false, 42, 42));
    assert!(sync.still_wanted(second, false, 42, 42));
}

#[test]
fn sync_request_ids_wrap_around() {
    let mut sync = ImeSync { latest_request_id: u32::MAX };
    assert_eq!(sync.schedule(1), Some(0));
}

#[test]
fn hidden_window_commands() {
    assert_eq!(message_window_command(WM_CLOSE), IpcCommand::Shutdown);
    assert_eq!(message_window_command(WM_RELOAD_CONFIG), IpcCommand::ReloadConfig);
    assert_eq!(WM_RELOAD_CONFIG, 0x0401);
    assert_eq!(message_window_command(0x0001), IpcCommand::Default);
}

#[test]
fn wide_strings_end_with_nul() {
    assert_eq!(encode_wide(""), vec![0]);
    assert_eq!(encode_wide("Capsense"), "Capsense".encode_utf16().chain([0]).collect::<Vec<u16>>());
    assert_eq!(encode_wide("中文"), vec![0x4E2D, 0x6587, 0]);
    assert_eq!(encode_wide("a\u{1F600}"), vec![0x61, 0xD83D, 0xDE00, 0]);
    assert_eq!(encode_wide("\u{10FFFF}"), vec![0xDBFF, 0xDFFF, 0]);
}

#[test]
fn decimal_and_placeholders() {
    assert_eq!(decimal_string(0), "0");
    assert_eq!(decimal_string(7), "7");
    assert_eq!(decimal_string(1234), "1234");
    assert_eq!(decimal_string(u32::MAX), "4294967295");
    assert_eq!(fill_placeholder_text("PID: {}", "12"), "PID: 12");
    assert_eq!(fill_placeholder_text("{}{}", "x"), "xx");
    assert_eq!(fill_placeholder_text("{{}}", "x"), "{x}");
    assert_eq!(fill_placeholder_text("no holes", "x"), "no holes");
    assert_eq!(fill_placeholder_text("{", "x"), "{");
    assert!(text_eq("abc", "abc"));
    assert!(!text_eq("abc", "abd"));
    assert!(!text_eq("abc", "ab"));
}

#[test]
fn wide_strings_have_a_single_nul() {
    for s in ["Capsense", "Software\\Microsoft\\Windows\\CurrentVersion\\Run", "中文 \u{1F600}"] {
        let w = encode_wide(s);
        assert_eq!(w.iter().filter(|&&u| u == 0).count(), 1);
        assert_eq!(*w.last().unwrap(), 0);
    }
    // ASCII: one unit per character, holding its code
    let w = encode_wide("CapsCustomHookClass");
    assert_eq!(w.len(), "CapsCustomHookClass".len() + 1);
    for (i, b) in "CapsCustomHookClass".bytes().enumerate() {
        assert_eq!(w[i], b as u16);
    }
}

#[test]
fn wide_strings_decode_back() {
    for s in ["", "Capsense", "中文", "a\u{1F600}b", "\u{10FFFF}\u{FFFF}\u{E000}"] {
        let w = encode_wide(s);
        assert_eq!(String::from_utf16(&w[..w.len() - 1]).unwrap(), s);
        assert_eq!(w.iter().position(|&c| c == 0), Some(w.len() - 1));
    }
}
