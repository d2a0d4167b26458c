//! Rotation through the configured keyboard layouts.
use vstd::prelude::*;

verus! {

/// The language identifier in the low 16 bits of a layout value.
pub open spec fn lang_bits(x: i32) -> i32 {
    x & 0xFFFF
}

/// The first index at or after `from` whose layout has language `lang`.
pub open spec fn find_layout(layouts: Seq<i32>, lang: i32, from: int) -> Option<int>
    decreases layouts.len() - from,
{
    if from < 0 || from >= layouts.len() {
        None
    } else if lang_bits(layouts[from]) == lang {
        Some(from)
    } else {
        find_layout(layouts, lang, from + 1)
    }
}

/// The index of the layout that follows the current one: the one after the
/// first configured layout with the current layout's language, wrapping
/// around, or the first when none has that language.
pub open spec fn next_layout(layouts: Seq<i32>, current_hkl: usize) -> int {
    match find_layout(layouts, lang_bits(current_hkl as i32), 0) {
        Some(i) => (i + 1) % (layouts.len() as int),
        None => 0,
    }
}

/// The layout request that a tap makes.
#[derive(Clone, Copy, Debug, PartialEq, Eq, Structural)]
pub struct LayoutRequest {
    /// The layout handle to ask the foreground window for.
    pub hkl: usize,
    /// Whether to set the Chinese input method's conversion mode afterwards.
    pub sync_ime_mode: bool,
}

/// The index of the layout that follows `current_hkl`, if any layout is configured.
pub fn next_layout_index(layouts: &[i32], current_hkl: usize) -> (r: Option<usize>)
    ensures
        layouts@.len() == 0 <==> r is None,
        r matches Some(i) ==> i == next_layout(layouts@, current_hkl) && i < layouts@.len(),
{
    let n = layouts.len();
    if n == 0 {
        return None;
    }
    let current = current_hkl as i32;
    let lang = current & 0xFFFF;
    let mut i: usize = 0;
    while i < n
        invariant
            n == layouts@.len(),
            n > 0,
            i <= n,
            lang == lang_bits(current_hkl as i32),
            find_layout(layouts@, lang, 0) == find_layout(layouts@, lang, i as int),
        decreases n - i,
    {
        if (layouts[i] & 0xFFFF) == lang {
            return Some((i + 1) % n);
        }
        i = i + 1;
    }
    Some(0)
}

/// The layout request of a tap, given the layout of the foreground window;
/// `None` when no layout is configured.
pub fn rotate_layout(layouts: &[i32], no_en: bool, current_hkl: usize) -> (r: Option<LayoutRequest>)
    ensures
        layouts@.len() == 0 <==> r is None,
        r matches Some(req) ==> req.hkl == layouts@[next_layout(layouts@, current_hkl)] as usize
            && req.sync_ime_mode == no_en,
{
    match next_layout_index(layouts, current_hkl) {
        Some(i) => Some(LayoutRequest { hkl: layouts[i] as usize, sync_ime_mode: no_en }),
        None => None,
    }
}

/// No two configured layouts share a language.
pub open spec fn distinct_languages(layouts: Seq<i32>) -> bool {
    forall|i: int, j: int|
        0 <= i < layouts.len() && 0 <= j < layouts.len() && i != j ==> lang_bits(
            #[trigger] layouts[i],
        ) != lang_bits(#[trigger] layouts[j])
}

/// The layout handle after `steps` taps, starting from `start`.
pub open spec fn after_taps(layouts: Seq<i32>, start: usize, steps: nat) -> usize
    decreases steps,
{
    if steps == 0 {
        start
    } else {
        layouts[next_layout(layouts, after_taps(layouts, start, (steps - 1) as nat))] as usize
    }
}

proof fn lemma_find_first(layouts: Seq<i32>, lang: i32, from: int, k: int)
    requires
        0 <= from <= k < layouts.len(),
        lang_bits(layouts[k]) == lang,
        forall|j: int| from <= j < k ==> lang_bits(#[trigger] layouts[j]) != lang,
    ensures
        find_layout(layouts, lang, from) == Some(k),
    decreases k - from,
{
    if from < k {
        lemma_find_first(layouts, lang, from + 1, k);
    }
}

proof fn lemma_layout_roundtrip(l: i32)
    ensures
        lang_bits((l as usize) as i32) == lang_bits(l),
{
    assert(((l as usize) as i32) == l) by (bit_vector);
}

/// When the foreground layout has the language of configured layout `k`, and
/// no two configured layouts share a language, a tap moves to layout
/// `k + 1`, wrapping around to the first.
pub proof fn lemma_tap_advances(layouts: Seq<i32>, current_hkl: usize, k: int)
    requires
        distinct_languages(layouts),
        0 <= k < layouts.len(),
        lang_bits(current_hkl as i32) == lang_bits(layouts[k]),
    ensures
        next_layout(layouts, current_hkl) == (k + 1) % (layouts.len() as int),
{
    assert forall|j: int| 0 <= j < k implies lang_bits(#[trigger] layouts[j]) != lang_bits(
        current_hkl as i32,
    ) by {
        assert(lang_bits(layouts[j]) != lang_bits(layouts[k]));
    }
    lemma_find_first(layouts, lang_bits(current_hkl as i32), 0, k);
}

/// Rotation through the configured layouts: starting from configured layout
/// `k`, and with no two layouts sharing a language, `m` taps reach layout
/// `(k + m) mod n`; after `n` taps the layout is the starting one again, and
/// every configured layout is reached on the way.
pub proof fn lemma_rotation_cycles(layouts: Seq<i32>, k: int, m: nat)
    requires
        distinct_languages(layouts),
        0 <= k < layouts.len(),
    ensures
        after_taps(layouts, layouts[k] as usize, m) == layouts[(k + m) % (layouts.len() as int)]
            as usize,
    decreases m,
{
    let n = layouts.len() as int;
    if m == 0 {
        assert(k % n == k) by (nonlinear_arith)
            requires
                0 <= k < n,
        ;
    } else {
        lemma_rotation_cycles(layouts, k, (m - 1) as nat);
        let p = (k + m - 1) % n;
        assert(0 <= p < n) by (nonlinear_arith)
            requires
                n > 0,
                p == (k + m - 1) % n,
        ;
        lemma_layout_roundtrip(layouts[p]);
        lemma_tap_advances(layouts, layouts[p] as usize, p);
        assert((p + 1) % n == (k + m) % n) by (nonlinear_arith)
            requires
                n > 0,
                p == (k + m - 1) % n,
                k + m - 1 >= 0,
        ;
    }
}

/// A foreground layout that matches no configured layout, comparing the low
/// 16 bits, leads to the first configured layout.
pub proof fn lemma_unknown_layout_goes_first(layouts: Seq<i32>, current_hkl: usize)
    requires
        forall|j: int| 0 <= j < layouts.len() ==> (#[trigger] layouts[j]) & 0xFFFF != (current_hkl as i32) & 0xFFFF,
    ensures
        next_layout(layouts, current_hkl) == 0,
{
    lemma_no_match_none(layouts, (current_hkl as i32) & 0xFFFF, 0);
}

proof fn lemma_no_match_none(layouts: Seq<i32>, lang: i32, from: int)
    requires
        0 <= from,
        forall|j: int| 0 <= j < layouts.len() ==> (#[trigger] layouts[j]) & 0xFFFF != lang,
    ensures
        find_layout(layouts, lang, from) is None,
    decreases layouts.len() - from,
{
    if from < layouts.len() {
        lemma_no_match_none(layouts, lang, from + 1);
    }
}

/// A tap moves to the layout after the first configured layout whose low 16
/// bits match the foreground layout's, wrapping around; later layouts with
/// the same language do not matter.
pub proof fn lemma_next_after_first_match(layouts: Seq<i32>, current_hkl: usize, k: int)
    requires
        0 <= k < layouts.len(),
        layouts[k] & 0xFFFF == (current_hkl as i32) & 0xFFFF,
        forall|j: int| 0 <= j < k ==> (#[trigger] layouts[j]) & 0xFFFF != (current_hkl as i32) & 0xFFFF,
    ensures
        next_layout(layouts, current_hkl) == (k + 1) % (layouts.len() as int),
{
    lemma_find_first(layouts, (current_hkl as i32) & 0xFFFF, 0, k);
}

} // verus!
