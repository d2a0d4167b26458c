//! Virtual keys, key names, and the key events that a shortcut sends.
use vstd::prelude::*;
use vstd::utf8::encode_utf8;

verus! {

/// `VK_LWIN`, the left Windows key.
pub const VK_LWIN: u16 = 0x5B;

/// `VK_SPACE`, the space bar.
pub const VK_SPACE: u16 = 0x20;

/// `VK_CONTROL`, the Ctrl key.
pub const VK_CONTROL: u16 = 0x11;

/// `VK_SHIFT`, the Shift key.
pub const VK_SHIFT: u16 = 0x10;

/// `VK_MENU`, the Alt key.
pub const VK_MENU: u16 = 0x12;

/// `VK_CAPITAL`, the CapsLock key.
pub const VK_CAPITAL: u16 = 0x14;

/// One synthetic keyboard event: a virtual key going down or up.
#[derive(Clone, Copy, Debug, PartialEq, Eq, Structural)]
pub struct KeyInput {
    pub vk: u16,
    pub key_up: bool,
}

/// The event that presses `vk`.
pub open spec fn down(vk: u16) -> KeyInput {
    KeyInput { vk, key_up: false }
}

/// The event that releases `vk`.
pub open spec fn up(vk: u16) -> KeyInput {
    KeyInput { vk, key_up: true }
}

/// Builds the event that presses `vk`.
pub fn key_down(vk: u16) -> (k: KeyInput)
    ensures
        k == down(vk),
{
    KeyInput { vk, key_up: false }
}

/// Builds the event that releases `vk`.
pub fn key_up(vk: u16) -> (k: KeyInput)
    ensures
        k == up(vk),
{
    KeyInput { vk, key_up: true }
}

/// What `str::to_uppercase` returns for a string with these characters
/// (Unicode's full uppercase mapping, which depends on the characters alone).
pub uninterp spec fn uppercase(s: Seq<char>) -> Seq<char>;

/// Calls `str::to_uppercase`.
///
/// Claimed: the result's characters are `uppercase` of the argument's.
#[verifier::external_body]
fn to_uppercase(s: &str) -> (r: String)
    ensures
        r@ == uppercase(s@),
{
    s.to_uppercase()
}

/// The virtual key that an upper-case key name stands for: one of the named
/// keys, or the code of a name that is a single byte long.
pub open spec fn vk_for_upper_name(name: Seq<char>) -> Option<u16> {
    if name == "LWIN"@ || name == "WIN"@ {
        Some(VK_LWIN)
    } else if name == "SPACE"@ {
        Some(VK_SPACE)
    } else if name == "LCONTROL"@ || name == "CTRL"@ {
        Some(VK_CONTROL)
    } else if name == "LSHIFT"@ || name == "SHIFT"@ {
        Some(VK_SHIFT)
    } else if name == "LMENU"@ || name == "ALT"@ {
        Some(VK_MENU)
    } else if name == "CAPSLOCK"@ {
        Some(VK_CAPITAL)
    } else if encode_utf8(name).len() == 1 {
        Some(encode_utf8(name)[0] as u16)
    } else {
        None
    }
}

/// The virtual key that a configured key name stands for, case-insensitively.
pub open spec fn vk_for_name(name: Seq<char>) -> Option<u16> {
    vk_for_upper_name(uppercase(name))
}

/// Looks up an already upper-cased key name.
pub fn lookup_upper_name(name: &str) -> (r: Option<u16>)
    ensures
        r == vk_for_upper_name(name@),
{
    if crate::text::text_eq(name, "LWIN") || crate::text::text_eq(name, "WIN") {
        Some(VK_LWIN)
    } else if crate::text::text_eq(name, "SPACE") {
        Some(VK_SPACE)
    } else if crate::text::text_eq(name, "LCONTROL") || crate::text::text_eq(name, "CTRL") {
        Some(VK_CONTROL)
    } else if crate::text::text_eq(name, "LSHIFT") || crate::text::text_eq(name, "SHIFT") {
        Some(VK_SHIFT)
    } else if crate::text::text_eq(name, "LMENU") || crate::text::text_eq(name, "ALT") {
        Some(VK_MENU)
    } else if crate::text::text_eq(name, "CAPSLOCK") {
        Some(VK_CAPITAL)
    } else if name.len() == 1 {
        let bytes = name.as_bytes();
        Some(bytes[0] as u16)
    } else {
        None
    }
}

/// The virtual key of a configured key name, compared case-insensitively;
/// `None` for a name that is not supported.
pub fn parse_vk(key: &str) -> (r: Option<u16>)
    ensures
        r == vk_for_name(key@),
{
    let upper = to_uppercase(key);
    lookup_upper_name(upper.as_str())
}

/// The virtual keys of the configured names that are supported, in order.
pub open spec fn parsed_vks(keys: Seq<String>) -> Seq<u16>
    decreases keys.len(),
{
    if keys.len() == 0 {
        Seq::empty()
    } else {
        let rest = parsed_vks(keys.drop_last());
        match vk_for_name(keys.last()@) {
            Some(vk) => rest.push(vk),
            None => rest,
        }
    }
}

/// The events of a shortcut: every key pressed in order, then released in the
/// reverse order.
pub open spec fn shortcut_events(vks: Seq<u16>) -> Seq<KeyInput> {
    vks.map_values(|vk: u16| down(vk)) + vks.reverse().map_values(|vk: u16| up(vk))
}

/// The key events that carry out the configured shortcut: the supported keys
/// pressed in order, then released in the reverse order.
pub fn execute_custom_shortcut(keys: &[String]) -> (inputs: Vec<KeyInput>)
    ensures
        inputs@ == shortcut_events(parsed_vks(keys@)),
{
    let mut vks: Vec<u16> = Vec::new();
    let mut i: usize = 0;
    while i < keys.len()
        invariant
            i <= keys@.len(),
            vks@ == parsed_vks(keys@.subrange(0, i as int)),
        decreases keys.len() - i,
    {
        let parsed = parse_vk(keys[i].as_str());
        assert(keys@.subrange(0, i + 1).drop_last() =~= keys@.subrange(0, i as int));
        match parsed {
            Some(vk) => vks.push(vk),
            None => {},
        }
        i = i + 1;
    }
    assert(keys@.subrange(0, keys@.len() as int) =~= keys@);
    let n = vks.len();
    let mut inputs: Vec<KeyInput> = Vec::new();
    let mut j: usize = 0;
    while j < n
        invariant
            n == vks@.len(),
            j <= n,
            inputs@ =~= vks@.subrange(0, j as int).map_values(|vk: u16| down(vk)),
        decreases n - j,
    {
        inputs.push(key_down(vks[j]));
        j = j + 1;
        assert(inputs@ =~= vks@.subrange(0, j as int).map_values(|vk: u16| down(vk)));
    }
    assert(vks@.subrange(0, n as int) =~= vks@);
    let ghost downs = inputs@;
    let mut k: usize = 0;
    while k < n
        invariant
            n == vks@.len(),
            k <= n,
            downs == vks@.map_values(|vk: u16| down(vk)),
            inputs@ =~= downs + vks@.reverse().subrange(0, k as int).map_values(|vk: u16| up(vk)),
        decreases n - k,
    {
        inputs.push(key_up(vks[n - 1 - k]));
        assert(vks@.reverse()[k as int] == vks@[n - 1 - k]);
        k = k + 1;
        assert(inputs@ =~= downs + vks@.reverse().subrange(0, k as int).map_values(
            |vk: u16| up(vk),
        ));
    }
    assert(vks@.reverse().subrange(0, n as int) =~= vks@.reverse());
    inputs
}

/// The events that toggle CapsLock once: CapsLock pressed, then released.
pub fn caps_lock_toggle() -> (inputs: Vec<KeyInput>)
    ensures
        inputs@ == seq![down(VK_CAPITAL), up(VK_CAPITAL)],
{
    let inputs = vec![key_down(VK_CAPITAL), key_up(VK_CAPITAL)];
    assert(inputs@ =~= seq![down(VK_CAPITAL), up(VK_CAPITAL)]);
    inputs
}

/// In a shortcut, every key is pressed before any is released, and each
/// key's release mirrors its press: the `i`-th key pressed is the `i`-th key
/// from the end released.
pub proof fn lemma_shortcut_releases_in_reverse(vks: Seq<u16>, i: int)
    requires
        0 <= i < vks.len(),
    ensures
        shortcut_events(vks).len() == 2 * vks.len(),
        shortcut_events(vks)[i] == down(vks[i]),
        shortcut_events(vks)[2 * vks.len() - 1 - i] == up(vks[i]),
{
    let n = vks.len() as int;
    let e = shortcut_events(vks);
    assert(e[n + (n - 1 - i)] == up(vks.reverse()[n - 1 - i]));
}

/// Key names are compared without regard to case: two names with the same
/// upper-case form stand for the same key.
pub proof fn lemma_names_ignore_case(a: Seq<char>, b: Seq<char>)
    requires
        uppercase(a) == uppercase(b),
    ensures
        vk_for_name(a) == vk_for_name(b),
{
}

} // verus!
