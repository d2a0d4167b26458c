use capsense::config::Config;
use capsense::hook::{
    HookAction, HookState, KeyEvent, TapAction, HC_ACTION, LLKHF_INJECTED, WM_KEYDOWN, WM_KEYUP,
    WM_SYSKEYDOWN, WM_SYSKEYUP,
};
use capsense::keys::VK_CAPITAL;

const MS: u64 = 1_000_000;

fn caps(message: u32, now_ms: u64) -> KeyEvent {
    KeyEvent { code: HC_ACTION, message, vk_code: VK_CAPITAL as u32, flags: 0, now_ns: now_ms * MS }
}

fn injected(message: u32) -> KeyEvent {
    KeyEvent {
        code: HC_ACTION,
        message,
        vk_code: VK_CAPITAL as u32,
        flags: LLKHF_INJECTED,
        now_ns: 0,
    }
}

#[test]
fn short_tap_switches_layout() {
    let config = Config::default();
    let mut s = HookState::new();
    let a = s.on_key_event(&caps(WM_KEYDOWN, 1000), &config);
    assert_eq!(a, HookAction::StartTimer { press_id: 1, delay_ms: 300 });
    let b = s.on_key_event(&caps(WM_KEYUP, 1299), &config);
    assert_eq!(b, HookAction::Tap(TapAction::SwitchLayout));
    assert!(!s.caps_down);
    assert_eq!(s.active_press_id, 0);
}

#[test]
fn tap_with_shortcut_action() {
    let mut config = Config::default();
    config.tap_action = "shortcut".to_string();
    let mut s = HookState::new();
    s.on_key_event(&caps(WM_SYSKEYDOWN, 0), &config);
    let b = s.on_key_event(&caps(WM_SYSKEYUP, 10), &config);
    assert_eq!(b, HookAction::Tap(TapAction::Shortcut));
}

#[test]
fn release_at_threshold_is_no_tap() {
    let config = Config::default();
    let mut s = HookState::new();
    s.on_key_event(&caps(WM_KEYDOWN, 1000), &config);
    let b = s.on_key_event(&caps(WM_KEYUP, 1300), &config);
    assert_eq!(b, HookAction::Swallow);
}

#[test]
fn auto_repeat_is_swallowed_without_new_timer() {
    let config = Config::default();
    let mut s = HookState::new();
    s.on_key_event(&caps(WM_KEYDOWN, 0), &config);
    let before = s;
    let a = s.on_key_event(&caps(WM_KEYDOWN, 50), &config);
    assert_eq!(a, HookAction::Swallow);
    assert_eq!(s, before);
}

#[test]
fn long_press_toggles_caps_lock_once() {
    let config = Config::default();
    let mut s = HookState::new();
    let a = s.on_key_event(&caps(WM_KEYDOWN, 0), &config);
    let id = match a {
        HookAction::StartTimer { press_id, .. } => press_id,
        _ => panic!("no timer started"),
    };
    assert!(s.on_timer(id));
    assert_eq!(s.ignore_injected, 2);
    assert!(!s.on_timer(id));
    // the injected toggle passes through and counts down
    assert_eq!(s.on_key_event(&injected(WM_KEYDOWN), &config), HookAction::PassThrough);
    assert_eq!(s.on_key_event(&injected(WM_KEYUP), &config), HookAction::PassThrough);
    assert_eq!(s.ignore_injected, 0);
    assert_eq!(s.on_key_event(&injected(WM_KEYUP), &config), HookAction::PassThrough);
    assert_eq!(s.ignore_injected, 0);
    // release after the long press: no tap, even if quick by the clock
    assert_eq!(s.on_key_event(&caps(WM_KEYUP, 1), &config), HookAction::Swallow);
}

#[test]
fn stale_timer_does_nothing() {
    let config = Config::default();
    let mut s = HookState::new();
    s.on_key_event(&caps(WM_KEYDOWN, 0), &config);
    s.on_key_event(&caps(WM_KEYUP, 10), &config);
    let before = s;
    assert!(!s.on_timer(1));
    assert_eq!(s, before);
    // a second press gets a fresh identifier; the old timer stays stale
    let a = s.on_key_event(&caps(WM_KEYDOWN, 20), &config);
    assert_eq!(a, HookAction::StartTimer { press_id: 2, delay_ms: 300 });
    assert!(!s.on_timer(1));
    assert!(s.on_timer(2));
}

#[test]
fn other_keys_and_codes_pass_through() {
    let config = Config::default();
    let mut s = HookState::new();
    let other = KeyEvent { code: HC_ACTION, message: WM_KEYDOWN, vk_code: 0x41, flags: 0, now_ns: 0 };
    assert_eq!(s.on_key_event(&other, &config), HookAction::PassThrough);
    let not_action = KeyEvent { code: 3, ..caps(WM_KEYDOWN, 0) };
    assert_eq!(s.on_key_event(&not_action, &config), HookAction::PassThrough);
    assert_eq!(s, HookState::new());
    let other_message = caps(0x0102, 0);
    assert_eq!(s.on_key_event(&other_message, &config), HookAction::PassThrough);
}

#[test]
fn release_without_press_is_swallowed() {
    let config = Config::default();
    let mut s = HookState::new();
    assert_eq!(s.on_key_event(&caps(WM_KEYUP, 0), &config), HookAction::Swallow);
    assert_eq!(s, HookState::new());
}

#[test]
fn press_ids_wrap_around() {
    let config = Config::default();
    let mut s = HookState::new();
    s.next_press_id = u32::MAX;
    let a = s.on_key_event(&caps(WM_KEYDOWN, 0), &config);
    assert_eq!(a, HookAction::StartTimer { press_id: u32::MAX, delay_ms: 300 });
    assert_eq!(s.next_press_id, 0);
}

#[test]
fn zero_threshold_never_taps() {
    let mut config = Config::default();
    config.tap_threshold_ms = 0;
    let mut s = HookState::new();
    s.on_key_event(&caps(WM_KEYDOWN, 5), &config);
    assert_eq!(s.on_key_event(&caps(WM_KEYUP, 5), &config), HookAction::Swallow);
}

#[test]
fn clock_going_backwards_counts_as_no_time() {
    let config = Config::default();
    let mut s = HookState::new();
    s.on_key_event(&caps(WM_KEYDOWN, 500), &config);
    assert_eq!(
        s.on_key_event(&caps(WM_KEYUP, 100), &config),
        HookAction::Tap(TapAction::SwitchLayout)
    );
}
