use capsense::layout::{next_layout_index, rotate_layout, LayoutRequest};

#[test]
fn rotates_through_default_layouts() {
    let layouts = [0x0804, 0x0409];
    // Chinese (PRC) keyboard active: the next is US English
    assert_eq!(
        rotate_layout(&layouts, true, 0x0804_0804),
        Some(LayoutRequest { hkl: 0x0409, sync_ime_mode: true })
    );
    // US English active: back to Chinese
    assert_eq!(
        rotate_layout(&layouts, false, 0x0409_0409),
        Some(LayoutRequest { hkl: 0x0804, sync_ime_mode: false })
    );
}

#[test]
fn unknown_layout_goes_to_first() {
    assert_eq!(next_layout_index(&[0x0804, 0x0409, 0x0411], 0x0412_0412), Some(0));
}

#[test]
fn empty_list_does_nothing() {
    assert_eq!(next_layout_index(&[], 0x0409), None);
    assert_eq!(rotate_layout(&[], true, 0x0409), None);
}

#[test]
fn first_match_wins_and_wraps() {
    assert_eq!(next_layout_index(&[0x0409, 0x0804, 0x0409], 0x0409), Some(1));
    assert_eq!(next_layout_index(&[0x0804, 0x0409, 0x0411], 0x0411), Some(0));
    assert_eq!(next_layout_index(&[0x0411], 0x0411), Some(0));
}

#[test]
fn only_language_bits_are_compared() {
    // a layout value with high bits set still matches on its low 16 bits
    assert_eq!(next_layout_index(&[0x1234_0804, 0x0409], 0x0804), Some(1));
}

#[test]
fn negative_layout_values_sign_extend() {
    let r = rotate_layout(&[0x0409, -1], false, 0x0409).unwrap();
    assert_eq!(r.hkl, usize::MAX);
}

#[test]
fn n_taps_return_to_start() {
    let layouts = [0x0804, 0x0409, 0x0411];
    let mut hkl: usize = 0x0409;
    let mut seen = Vec::new();
    for _ in 0..3 {
        hkl = rotate_layout(&layouts, false, hkl).unwrap().hkl;
        seen.push(hkl);
    }
    assert_eq!(seen, vec![0x0411, 0x0804, 0x0409]);
}
