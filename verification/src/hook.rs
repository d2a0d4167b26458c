//! The CapsLock state machine behind the low-level keyboard hook.
//!
//! The hook reports every keyboard event to `HookState::on_key_event`, and
//! the timer started for a press reports its expiry to `HookState::on_timer`.
//! A short tap triggers the configured tap action; a press held for the tap
//! threshold toggles CapsLock by injecting a CapsLock press and release, which
//! come back to the hook as injected events and pass through.
use vstd::prelude::*;
use crate::config::Config;
use crate::keys::VK_CAPITAL;

verus! {

/// `HC_ACTION`: the hook code of an event that the hook must handle.
pub const HC_ACTION: i32 = 0;

/// `WM_KEYDOWN`.
pub const WM_KEYDOWN: u32 = 0x0100;

/// `WM_KEYUP`.
pub const WM_KEYUP: u32 = 0x0101;

/// `WM_SYSKEYDOWN`.
pub const WM_SYSKEYDOWN: u32 = 0x0104;

/// `WM_SYSKEYUP`.
pub const WM_SYSKEYUP: u32 = 0x0105;

/// `LLKHF_INJECTED`: the flag of an event that a program injected.
pub const LLKHF_INJECTED: u32 = 0x10;

/// How many injected CapsLock events follow a long press.
pub const INJECTED_EVENTS_PER_TOGGLE: u32 = 2;

/// One event reported to the low-level keyboard hook.
#[derive(Clone, Copy, Debug)]
pub struct KeyEvent {
    /// The hook code.
    pub code: i32,
    /// The window message (`WM_KEYDOWN`, `WM_KEYUP`, ...).
    pub message: u32,
    /// The virtual key code.
    pub vk_code: u32,
    /// The event flags.
    pub flags: u32,
    /// A monotonic clock reading, in nanoseconds, taken when the event arrived.
    pub now_ns: u64,
}

/// What a tap does.
#[derive(Clone, Copy, Debug, PartialEq, Eq, Structural)]
pub enum TapAction {
    /// Rotate through the configured keyboard layouts.
    SwitchLayout,
    /// Send the configured shortcut.
    Shortcut,
}

/// What the hook does with an event.
#[derive(Clone, Copy, Debug, PartialEq, Eq, Structural)]
pub enum HookAction {
    /// Hand the event on to the next hook.
    PassThrough,
    /// Swallow the event.
    Swallow,
    /// Swallow the event and start the long-press timer of this press.
    StartTimer { press_id: u32, delay_ms: u64 },
    /// Swallow the event and carry out the tap action.
    Tap(TapAction),
}

/// The hook's state across events.
#[derive(Clone, Copy, Debug, PartialEq, Eq, Structural)]
pub struct HookState {
    /// CapsLock is held down.
    pub caps_down: bool,
    /// The long-press action of the current press has fired.
    pub long_fired: bool,
    /// Injected CapsLock events still expected after a long press.
    pub ignore_injected: u32,
    /// When the current press began.
    pub press_start_ns: Option<u64>,
    /// The press whose timer may still fire; 0 when none.
    pub active_press_id: u32,
    /// The identifier that the next press takes.
    pub next_press_id: u32,
}

/// The tap action that the configuration names.
pub open spec fn tap_action_of(config: Config) -> TapAction {
    if config.tap_action@ == "switch_layout"@ {
        TapAction::SwitchLayout
    } else {
        TapAction::Shortcut
    }
}

/// The tap action that the configuration names.
pub fn configured_tap_action(config: &Config) -> (t: TapAction)
    ensures
        t == tap_action_of(*config),
{
    if crate::text::text_eq(config.tap_action.as_str(), "switch_layout") {
        TapAction::SwitchLayout
    } else {
        TapAction::Shortcut
    }
}

/// The identifier after `id`, wrapping around as a 32-bit counter.
pub open spec fn following_id(id: u32) -> u32 {
    if id == u32::MAX {
        0
    } else {
        (id + 1) as u32
    }
}

/// How long, in nanoseconds, a press that began at `start` has been held at `now`.
pub open spec fn held_ns(start: Option<u64>, now: u64) -> int {
    match start {
        Some(t) => if now >= t {
            now - t
        } else {
            0
        },
        None => 0,
    }
}

/// The tap threshold in nanoseconds.
pub open spec fn threshold_ns(threshold_ms: u64) -> int {
    threshold_ms * 1_000_000
}

/// The event concerns CapsLock and the hook must handle it.
pub open spec fn is_caps_action(ev: KeyEvent) -> bool {
    ev.code == HC_ACTION && ev.vk_code == VK_CAPITAL as u32
}

/// The event was injected by a program.
pub open spec fn is_injected(ev: KeyEvent) -> bool {
    ev.flags & LLKHF_INJECTED != 0
}

/// The event is a key press.
pub open spec fn is_press(ev: KeyEvent) -> bool {
    ev.message == WM_KEYDOWN || ev.message == WM_SYSKEYDOWN
}

/// The event is a key release.
pub open spec fn is_release(ev: KeyEvent) -> bool {
    ev.message == WM_KEYUP || ev.message == WM_SYSKEYUP
}

impl HookState {
    /// The state's parts agree: a press start is recorded exactly while
    /// CapsLock is down, and no timer is active while it is up.
    pub open spec fn wf(self) -> bool {
        &&& (self.caps_down <==> self.press_start_ns is Some)
        &&& (!self.caps_down ==> self.active_press_id == 0)
    }

    /// The state and action after a keyboard event.
    pub open spec fn key_step(self, ev: KeyEvent, threshold_ms: u64, tap: TapAction) -> (
        HookState,
        HookAction,
    ) {
        if !is_caps_action(ev) {
            (self, HookAction::PassThrough)
        } else if is_injected(ev) {
            (
                HookState {
                    ignore_injected: if self.ignore_injected > 0 {
                        (self.ignore_injected - 1) as u32
                    } else {
                        0
                    },
                    ..self
                },
                HookAction::PassThrough,
            )
        } else if is_press(ev) {
            if self.caps_down {
                (self, HookAction::Swallow)
            } else {
                (
                    HookState {
                        caps_down: true,
                        long_fired: false,
                        press_start_ns: Some(ev.now_ns),
                        active_press_id: self.next_press_id,
                        next_press_id: following_id(self.next_press_id),
                        ..self
                    },
                    HookAction::StartTimer { press_id: self.next_press_id, delay_ms: threshold_ms },
                )
            }
        } else if is_release(ev) {
            if !self.caps_down {
                (self, HookAction::Swallow)
            } else {
                (
                    HookState {
                        caps_down: false,
                        press_start_ns: None,
                        active_press_id: 0,
                        ..self
                    },
                    if !self.long_fired && held_ns(self.press_start_ns, ev.now_ns) < threshold_ns(
                        threshold_ms,
                    ) {
                        HookAction::Tap(tap)
                    } else {
                        HookAction::Swallow
                    },
                )
            }
        } else {
            (self, HookAction::PassThrough)
        }
    }

    /// The state after the timer of `press_id` expires, and whether CapsLock
    /// is then toggled.
    pub open spec fn timer_step(self, press_id: u32) -> (HookState, bool) {
        if self.active_press_id == press_id && self.caps_down && !self.long_fired {
            (
                HookState {
                    long_fired: true,
                    ignore_injected: INJECTED_EVENTS_PER_TOGGLE,
                    ..self
                },
                true,
            )
        } else {
            (self, false)
        }
    }

    /// The state before any event: CapsLock up, no press seen yet.
    pub fn new() -> (s: HookState)
        ensures
            s.wf(),
            !s.caps_down,
            !s.long_fired,
            s.ignore_injected == 0,
            s.active_press_id == 0,
            s.next_press_id == 1,
    {
        HookState {
            caps_down: false,
            long_fired: false,
            ignore_injected: 0,
            press_start_ns: None,
            active_press_id: 0,
            next_press_id: 1,
        }
    }

    /// Handles one keyboard event and says what to do with it.
    pub fn on_key_event(&mut self, ev: &KeyEvent, config: &Config) -> (action: HookAction)
        ensures
            (*final(self), action) == old(self).key_step(
                *ev,
                config.tap_threshold_ms,
                tap_action_of(*config),
            ),
    {
        if ev.code != HC_ACTION || ev.vk_code != VK_CAPITAL as u32 {
            return HookAction::PassThrough;
        }
        if ev.flags & LLKHF_INJECTED != 0 {
            if self.ignore_injected > 0 {
                self.ignore_injected = self.ignore_injected - 1;
            }
            return HookAction::PassThrough;
        }
        let threshold_ms = config.tap_threshold_ms;
        if ev.message == WM_KEYDOWN || ev.message == WM_SYSKEYDOWN {
            if self.caps_down {
                return HookAction::Swallow;
            }
            let press_id = self.next_press_id;
            self.caps_down = true;
            self.next_press_id = press_id.wrapping_add(1);
            self.active_press_id = press_id;
            self.press_start_ns = Some(ev.now_ns);
            self.long_fired = false;
            return HookAction::StartTimer { press_id, delay_ms: threshold_ms };
        }
        if ev.message == WM_KEYUP || ev.message == WM_SYSKEYUP {
            if !self.caps_down {
                return HookAction::Swallow;
            }
            self.caps_down = false;
            self.active_press_id = 0;
            let long_fired = self.long_fired;
            let held: u64 = match self.press_start_ns {
                Some(start) => ev.now_ns.saturating_sub(start),
                None => 0,
            };
            self.press_start_ns = None;
            if !long_fired && (held as u128) < (threshold_ms as u128) * 1_000_000u128 {
                return HookAction::Tap(configured_tap_action(config));
            }
            return HookAction::Swallow;
        }
        HookAction::PassThrough
    }

    /// Handles the expiry of the long-press timer of `press_id`; returns
    /// whether CapsLock must now be toggled (see `keys::caps_lock_toggle`).
    pub fn on_timer(&mut self, press_id: u32) -> (toggle: bool)
        ensures
            (*final(self), toggle) == old(self).timer_step(press_id),
    {
        if self.active_press_id != press_id {
            return false;
        }
        if self.caps_down && !self.long_fired {
            self.long_fired = true;
            self.ignore_injected = INJECTED_EVENTS_PER_TOGGLE;
            return true;
        }
        false
    }
}

/// Every keyboard event and every timer expiry keeps the state well formed.
pub proof fn lemma_steps_keep_wf(s: HookState, ev: KeyEvent, threshold_ms: u64, tap: TapAction, press_id: u32)
    requires
        s.wf(),
    ensures
        s.key_step(ev, threshold_ms, tap).0.wf(),
        s.timer_step(press_id).0.wf(),
{
}

/// Events of other keys, and events the hook need not handle, pass through
/// and leave the state as it was.
pub proof fn lemma_other_keys_pass_through(s: HookState, ev: KeyEvent, threshold_ms: u64, tap: TapAction)
    requires
        ev.code != HC_ACTION || ev.vk_code != VK_CAPITAL as u32,
    ensures
        s.key_step(ev, threshold_ms, tap) == (s, HookAction::PassThrough),
{
}

/// Injected CapsLock events, such as those of a long press, pass through; they
/// only count down the injected events still expected.
pub proof fn lemma_injected_caps_pass_through(s: HookState, ev: KeyEvent, threshold_ms: u64, tap: TapAction)
    requires
        is_caps_action(ev),
        is_injected(ev),
    ensures
        s.key_step(ev, threshold_ms, tap).1 == HookAction::PassThrough,
        s.key_step(ev, threshold_ms, tap).0 == (HookState {
            ignore_injected: if s.ignore_injected > 0 { (s.ignore_injected - 1) as u32 } else { 0 },
            ..s
        }),
{
}

/// A physical CapsLock press or release never reaches other programs.
pub proof fn lemma_physical_caps_swallowed(s: HookState, ev: KeyEvent, threshold_ms: u64, tap: TapAction)
    requires
        is_caps_action(ev),
        !is_injected(ev),
        is_press(ev) || is_release(ev),
    ensures
        s.key_step(ev, threshold_ms, tap).1 != HookAction::PassThrough,
{
}

/// While CapsLock is held, the repeated key-down events are swallowed and
/// change nothing: no second timer starts.
pub proof fn lemma_auto_repeat_ignored(s: HookState, ev: KeyEvent, threshold_ms: u64, tap: TapAction)
    requires
        s.caps_down,
        is_caps_action(ev),
        !is_injected(ev),
        is_press(ev),
    ensures
        s.key_step(ev, threshold_ms, tap) == (s, HookAction::Swallow),
{
}

/// A press starts the timer of a fresh press identifier, with the tap
/// threshold as its delay.
pub proof fn lemma_press_starts_timer(s: HookState, ev: KeyEvent, threshold_ms: u64, tap: TapAction)
    requires
        !s.caps_down,
        is_caps_action(ev),
        !is_injected(ev),
        is_press(ev),
    ensures
        s.key_step(ev, threshold_ms, tap).1 == (HookAction::StartTimer {
            press_id: s.next_press_id,
            delay_ms: threshold_ms,
        }),
        s.key_step(ev, threshold_ms, tap).0.active_press_id == s.next_press_id,
        s.key_step(ev, threshold_ms, tap).0.next_press_id == following_id(s.next_press_id),
{
}

/// A tap: CapsLock pressed at `t0` and released at `t1`, before the tap
/// threshold has passed and with no timer expiry between, carries out the tap
/// action and leaves CapsLock up.
pub proof fn lemma_short_tap_triggers_action(
    s: HookState,
    down: KeyEvent,
    release: KeyEvent,
    threshold_ms: u64,
    tap: TapAction,
)
    requires
        s.wf(),
        !s.caps_down,
        is_caps_action(down),
        !is_injected(down),
        is_press(down),
        is_caps_action(release),
        !is_injected(release),
        is_release(release),
        down.now_ns <= release.now_ns,
        release.now_ns - down.now_ns < threshold_ns(threshold_ms),
    ensures
        ({
            let s1 = s.key_step(down, threshold_ms, tap).0;
            let (s2, action) = s1.key_step(release, threshold_ms, tap);
            &&& action == HookAction::Tap(tap)
            &&& !s2.caps_down
            &&& s2.wf()
        }),
{
}

/// A press held until the tap threshold has passed triggers no tap action on
/// release.
pub proof fn lemma_slow_release_is_no_tap(
    s: HookState,
    down: KeyEvent,
    release: KeyEvent,
    threshold_ms: u64,
    tap: TapAction,
)
    requires
        !s.caps_down,
        is_caps_action(down),
        !is_injected(down),
        is_press(down),
        is_caps_action(release),
        !is_injected(release),
        is_release(release),
        down.now_ns <= release.now_ns,
        release.now_ns - down.now_ns >= threshold_ns(threshold_ms),
    ensures
        s.key_step(down, threshold_ms, tap).0.key_step(release, threshold_ms, tap).1
            == HookAction::Swallow,
{
}

/// A long press: when the timer of the current press expires while CapsLock
/// is held, CapsLock is toggled once; a second expiry of that timer does
/// nothing, and the release then triggers no tap action.
pub proof fn lemma_long_press_toggles_once(
    s: HookState,
    down: KeyEvent,
    release: KeyEvent,
    threshold_ms: u64,
    tap: TapAction,
)
    requires
        !s.caps_down,
        is_caps_action(down),
        !is_injected(down),
        is_press(down),
        is_caps_action(release),
        !is_injected(release),
        is_release(release),
    ensures
        ({
            let s1 = s.key_step(down, threshold_ms, tap).0;
            let (s2, toggled) = s1.timer_step(s.next_press_id);
            let (s3, toggled_again) = s2.timer_step(s.next_press_id);
            let (s4, action) = s2.key_step(release, threshold_ms, tap);
            &&& toggled
            &&& s2.ignore_injected == INJECTED_EVENTS_PER_TOGGLE
            &&& !toggled_again
            &&& s3 == s2
            &&& action == HookAction::Swallow
            &&& !s4.caps_down
        }),
{
}

/// A timer that is not the active press's, such as the timer of a press that
/// was already released, toggles nothing and changes nothing.
pub proof fn lemma_stale_timer_ignored(s: HookState, press_id: u32)
    requires
        s.active_press_id != press_id || !s.caps_down,
    ensures
        s.timer_step(press_id) == (s, false),
{
}

/// After a release, the timer of the released press toggles nothing.
pub proof fn lemma_released_press_timer_ignored(
    s: HookState,
    down: KeyEvent,
    release: KeyEvent,
    threshold_ms: u64,
    tap: TapAction,
)
    requires
        !s.caps_down,
        is_caps_action(down),
        !is_injected(down),
        is_press(down),
        is_caps_action(release),
        !is_injected(release),
        is_release(release),
    ensures
        ({
            let s2 = s.key_step(down, threshold_ms, tap).0.key_step(release, threshold_ms, tap).0;
            s2.timer_step(s.next_press_id) == (s2, false)
        }),
{
}

/// A timer expiry never ends the press: CapsLock stays held, with the same
/// start, the same active press and the same next identifier; only the
/// long-press flag and the count of injected events may change.
pub proof fn lemma_timer_keeps_press(s: HookState, press_id: u32)
    ensures
        s.timer_step(press_id).0.caps_down == s.caps_down,
        s.timer_step(press_id).0.press_start_ns == s.press_start_ns,
        s.timer_step(press_id).0.active_press_id == s.active_press_id,
        s.timer_step(press_id).0.next_press_id == s.next_press_id,
{
}

/// One toggle per physical press: after a press and the expiry of its timer,
/// the keyboard's auto-repeat key-downs are swallowed and change nothing (no
/// new timer, no new press), a later expiry of the timer toggles nothing, and
/// the release is swallowed without a tap, whenever it comes.
pub proof fn lemma_long_press_survives_auto_repeat(
    s: HookState,
    down: KeyEvent,
    repeat: KeyEvent,
    release: KeyEvent,
    threshold_ms: u64,
    tap: TapAction,
)
    requires
        !s.caps_down,
        ev_is_physical_caps(down),
        down.message == WM_KEYDOWN || down.message == WM_SYSKEYDOWN,
        ev_is_physical_caps(repeat),
        repeat.message == WM_KEYDOWN || repeat.message == WM_SYSKEYDOWN,
        ev_is_physical_caps(release),
        release.message == WM_KEYUP || release.message == WM_SYSKEYUP,
    ensures
        ({
            let s1 = s.key_step(down, threshold_ms, tap).0;
            let (s2, toggled) = s1.timer_step(s.next_press_id);
            let (s3, repeat_action) = s2.key_step(repeat, threshold_ms, tap);
            let (s4, toggled_again) = s3.timer_step(s.next_press_id);
            let (s5, release_action) = s4.key_step(release, threshold_ms, tap);
            &&& toggled
            &&& s2.caps_down
            &&& repeat_action == HookAction::Swallow
            &&& s3 == s2
            &&& !toggled_again
            &&& release_action == HookAction::Swallow
            &&& !s5.caps_down
        }),
{
}

/// A physical (not injected) CapsLock event that the hook must handle,
/// written out over the event's raw fields.
pub open spec fn ev_is_physical_caps(ev: KeyEvent) -> bool {
    ev.code == 0 && ev.vk_code == 0x14 && ev.flags & 0x10 == 0
}

} // verus!
