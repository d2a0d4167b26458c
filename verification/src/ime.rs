//! Keeping Chinese input methods out of English mode after a layout switch.
//!
//! A switch schedules a sync request; after a short delay the request is
//! carried out only if no later request was scheduled, the window is still in
//! the foreground (where that is required) and its layout is a Chinese input
//! method.
use vstd::prelude::*;

verus! {

/// How long, in milliseconds, a sync request waits before it is carried out.
pub const IME_MODE_SYNC_DELAY_MS: u64 = 50;

/// `LANG_CHINESE`, the primary language identifier of Chinese.
pub const LANG_CHINESE: u16 = 0x04;

/// `IME_CMODE_CHINESE | IME_CMODE_SYMBOL`: the conversion mode that is set.
pub const CHINESE_IME_CONVERSION_MODE: isize = 0x0401;

/// Mask of the primary language in a language identifier.
pub const PRIMARY_LANGUAGE_ID_MASK: u16 = 0x03ff;

/// Extracts the primary language identifier from a language identifier.
pub fn primary_language_id(language_id: u16) -> (r: u16)
    ensures
        r == language_id & PRIMARY_LANGUAGE_ID_MASK,
{
    language_id & PRIMARY_LANGUAGE_ID_MASK
}

/// The layout handle denotes a Chinese layout: it is not null and the primary
/// language of its low 16 bits is Chinese. (Whether that layout is an input
/// method is asked of the system separately.)
pub open spec fn chinese_layout(hkl: usize) -> bool {
    hkl != 0 && ((hkl & 0xFFFF) as u16) & PRIMARY_LANGUAGE_ID_MASK == LANG_CHINESE
}

/// Whether the layout handle denotes a Chinese layout.
pub fn is_chinese_layout(hkl: usize) -> (r: bool)
    ensures
        r == chinese_layout(hkl),
{
    if hkl == 0 {
        return false;
    }
    let language_id = (hkl & 0xFFFF) as u16;
    primary_language_id(language_id) == LANG_CHINESE
}

/// The identifier that follows `id`, wrapping around as a 32-bit counter.
pub open spec fn following_request(id: u32) -> u32 {
    if id == u32::MAX {
        0
    } else {
        (id + 1) as u32
    }
}

/// The sync requests scheduled so far.
#[derive(Clone, Copy, Debug, PartialEq, Eq, Structural)]
pub struct ImeSync {
    /// The identifier of the latest request.
    pub latest_request_id: u32,
}

impl ImeSync {
    /// No request scheduled yet.
    pub fn new() -> (s: ImeSync)
        ensures
            s.latest_request_id == 0,
    {
        ImeSync { latest_request_id: 0 }
    }

    /// Schedules a sync request for window `hwnd` and returns its identifier,
    /// or `None` for a null window, which schedules nothing.
    pub fn schedule(&mut self, hwnd: isize) -> (r: Option<u32>)
        ensures
            hwnd == 0 ==> r is None && *final(self) == *old(self),
            hwnd != 0 ==> r == Some(scheduled(*old(self)).latest_request_id) && *final(self)
                == scheduled(*old(self)),
    {
        if hwnd == 0 {
            return None;
        }
        let id = self.latest_request_id.wrapping_add(1);
        self.latest_request_id = id;
        Some(id)
    }

    /// Whether the request `request_id` for window `hwnd` is still to be
    /// carried out: it is the latest one, and, where `require_same_foreground`
    /// holds, `hwnd` is still the foreground window `foreground`.
    pub fn still_wanted(
        &self,
        request_id: u32,
        require_same_foreground: bool,
        foreground: isize,
        hwnd: isize,
    ) -> (r: bool)
        ensures
            r == wanted(*self, request_id, require_same_foreground, foreground, hwnd),
    {
        self.latest_request_id == request_id && (!require_same_foreground || foreground == hwnd)
    }
}

/// Whether a request is still wanted in state `s` (see `ImeSync::still_wanted`).
pub open spec fn wanted(s: ImeSync, request_id: u32, require_same_foreground: bool, foreground: isize, hwnd: isize) -> bool {
    s.latest_request_id == request_id && (!require_same_foreground || foreground == hwnd)
}

/// The state after a request for a non-null window is scheduled.
pub open spec fn scheduled(s: ImeSync) -> ImeSync {
    ImeSync { latest_request_id: following_request(s.latest_request_id) }
}

/// Only the latest request is carried out: once a second request has been
/// scheduled, the first is no longer wanted, whatever the windows.
pub proof fn lemma_later_request_supersedes(
    s: ImeSync,
    require_same_foreground: bool,
    foreground: isize,
    hwnd: isize,
)
    ensures
        !wanted(
            scheduled(scheduled(s)),
            scheduled(s).latest_request_id,
            require_same_foreground,
            foreground,
            hwnd,
        ),
{
}

/// Every non-null layout whose language identifier has the Chinese primary
/// language (its low 10 bits are 4), whatever the sublanguage (PRC, Taiwan,
/// Hong Kong, Singapore, Macao), is a Chinese layout, and no other is.
pub proof fn lemma_chinese_layout_by_primary_language(hkl: usize)
    ensures
        chinese_layout(hkl) <==> (hkl != 0 && hkl % 1024 == 4),
{
    assert((((hkl & 0xFFFF) as u16) & 0x03ffu16) as usize == hkl % 1024) by (bit_vector);
}

/// The primary language identifier is the low 10 bits of the language
/// identifier; the sublanguage in the upper 6 bits does not change it.
pub proof fn lemma_primary_language_low_bits(language_id: u16, sublanguage: u16)
    requires
        sublanguage < 64,
    ensures
        language_id & PRIMARY_LANGUAGE_ID_MASK == language_id % 1024,
        ((sublanguage * 1024 + language_id % 1024) as u16) & PRIMARY_LANGUAGE_ID_MASK
            == language_id & PRIMARY_LANGUAGE_ID_MASK,
{
    assert(language_id & 0x03ffu16 == language_id % 1024) by (bit_vector);
    let combined = (sublanguage * 1024 + language_id % 1024) as u16;
    assert(combined % 1024 == language_id % 1024) by (nonlinear_arith)
        requires
            sublanguage < 64,
            combined == sublanguage * 1024 + language_id % 1024,
    ;
    assert(combined & 0x03ffu16 == combined % 1024) by (bit_vector);
}

} // verus!
