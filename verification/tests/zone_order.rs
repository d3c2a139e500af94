use std::cmp::Ordering;
use stem_core::zone::Zone;

#[test]
fn zones_order_by_slot_then_layer() {
    let zone_a = Zone { slot: 0, layer: 0 };
    let zone_b = Zone { slot: 1, layer: 0 };
    let zone_c = Zone { slot: 0, layer: 1 };
    assert!(zone_a < zone_b);
    assert!(zone_a < zone_c);
    assert!(zone_c < zone_b);
    assert!(!(zone_b < zone_c));
}

#[test]
fn zone_partial_cmp_cases() {
    let a = Zone::new(3, 2);
    assert_eq!(a.partial_cmp(&Zone::new(3, 2)), Some(Ordering::Equal));
    assert_eq!(a.partial_cmp(&Zone::new(3, 5)), Some(Ordering::Less));
    assert_eq!(a.partial_cmp(&Zone::new(2, 9)), Some(Ordering::Greater));
    assert_eq!(Zone::new(2, 9).partial_cmp(&a), Some(Ordering::Less));
    assert_eq!(a.cmp(&Zone::new(4, 0)), Ordering::Less);
}

#[test]
fn zone_new_sets_fields() {
    let z = Zone::new(23, 1);
    assert_eq!(z.slot, 23);
    assert_eq!(z.layer, 1);
}

#[test]
fn zone_conversions_round_trip() {
    let z = Zone::new(7, 3);
    let a: [u16; 2] = z.into();
    assert_eq!(a, [7, 3]);
    assert_eq!(Zone::from(a), z);
    assert_eq!(Zone::from((7u16, 3u16)), z);
    assert_eq!(Zone::from([0u16, 65535u16]), Zone { slot: 0, layer: 65535 });
}

#[test]
fn zone_text() {
    assert_eq!(Zone::new(23, 1).to_string(), "zone: slot 23, layer 1 ");
    assert_eq!(Zone::new(0, 0).to_string(), "zone: slot 0, layer 0 ");
    assert_eq!(Zone::new(65535, 10).to_string(), "zone: slot 65535, layer 10 ");
}

#[test]
fn zones_sort_lexicographically() {
    let mut zones = vec![Zone::new(2, 0), Zone::new(0, 1), Zone::new(1, 1), Zone::new(0, 0), Zone::new(1, 0)];
    zones.sort();
    assert_eq!(
        zones,
        vec![Zone::new(0, 0), Zone::new(0, 1), Zone::new(1, 0), Zone::new(1, 1), Zone::new(2, 0)]
    );
}
