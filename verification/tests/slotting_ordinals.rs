use stem_core::slotting::SlottingOrdinals;

#[test]
fn unslotted_core_has_no_ordinals() {
    let mut iter = SlottingOrdinals::new(0, 1);
    assert_eq!(iter.next(), None);
}

#[test]
fn twelve_slots_four_pole_pairs() {
    let mut iter = SlottingOrdinals::new(12, 4);
    assert_eq!(iter.next(), Some((3, 1)));
    assert_eq!(iter.next(), Some((6, 1)));
    assert_eq!(iter.next(), Some((9, 1)));
    assert_eq!(iter.next(), Some((12, 1)));
}

#[test]
fn twelve_slots_five_pole_pairs() {
    let mut iter = SlottingOrdinals::new(12, 5);
    assert_eq!(iter.next(), Some((12, 5)));
    assert_eq!(iter.next(), Some((24, 5)));
    assert_eq!(iter.next(), Some((36, 5)));
    assert_eq!(iter.next(), Some((48, 5)));
}

#[test]
fn twenty_four_slots_ten_pole_pairs() {
    let mut iter = SlottingOrdinals::new(24, 10);
    assert_eq!(iter.next(), Some((12, 5)));
    assert_eq!(iter.next(), Some((24, 5)));
    assert_eq!(iter.next(), Some((36, 5)));
    assert_eq!(iter.next(), Some((48, 5)));
}

#[test]
fn ordinals_are_reduced() {
    // 9 slots, 6 pole pairs: base 3 / 2; the second ordinal 6/2 reduces to 3/1.
    let mut iter = SlottingOrdinals::new(9, 6);
    assert_eq!(iter.next(), Some((3, 2)));
    assert_eq!(iter.next(), Some((3, 1)));
    assert_eq!(iter.next(), Some((9, 2)));
}

#[test]
fn nth_skips_the_remaining_ordinals() {
    let mut iter = SlottingOrdinals::new(12, 4);
    assert_eq!(iter.next(), Some((3, 1)));
    // The 0-th remaining ordinal is the next one.
    assert_eq!(iter.nth(0), Some((6, 1)));
    assert_eq!(iter.next(), Some((9, 1)));
    // Skip 12/1 and 15/1, hand out 18/1.
    assert_eq!(iter.nth(2), Some((18, 1)));
    assert_eq!(iter.next(), Some((21, 1)));
    assert_eq!(iter.position(), 7);
}

#[test]
fn nth_of_unslotted_core_is_none() {
    let mut iter = SlottingOrdinals::new(0, 3);
    assert_eq!(iter.nth(4), None);
    assert_eq!(iter.position(), 0);
}
