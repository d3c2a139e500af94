use stem_core::winding_zones::{WindingZonesEqSpaced, ZonePlacement};
use stem_core::zone::Zone;

fn drain<T, const LIN: bool>(wz: &mut WindingZonesEqSpaced<T, LIN>) -> Vec<ZonePlacement> {
    let mut out = Vec::new();
    while let Some(p) = wz.next() {
        out.push(p);
    }
    out
}

#[test]
fn two_layers_twelve_slots_give_24_zones() {
    let mut wz = WindingZonesEqSpaced::<&str, true>::new(vec!["lower", "upper"], 12, false);
    assert_eq!(wz.slots() * wz.layers(), 24);
    assert_eq!(drain(&mut wz).len(), 24);
    assert!(wz.next().is_none());
}

#[test]
fn zones_come_slot_by_slot_and_reset_restarts() {
    let mut wz = WindingZonesEqSpaced::<&str, true>::new(vec!["lower", "upper"], 12, false);
    assert_eq!(wz.next().unwrap().zone, Zone { slot: 0, layer: 0 });
    assert_eq!(wz.next().unwrap().zone, Zone { slot: 0, layer: 1 });
    assert_eq!(wz.next().unwrap().zone, Zone { slot: 1, layer: 0 });
    wz.reset();
    assert_eq!(wz.next().unwrap().zone, Zone { slot: 0, layer: 0 });
}

#[test]
fn single_layer_three_slots() {
    let mut wz = WindingZonesEqSpaced::<u8, false>::new(vec![0], 3, false);
    let zones: Vec<Zone> = drain(&mut wz).iter().map(|p| p.zone).collect();
    assert_eq!(zones, vec![Zone::new(0, 0), Zone::new(1, 0), Zone::new(2, 0)]);
}

#[test]
fn zones_strictly_increase() {
    let mut wz = WindingZonesEqSpaced::<u8, true>::new(vec![0, 1, 2, 3], 5, true);
    let zones: Vec<Zone> = drain(&mut wz).iter().map(|p| p.zone).collect();
    assert_eq!(zones.len(), 20);
    for w in zones.windows(2) {
        assert!(w[0] < w[1]);
    }
}

#[test]
fn slot_positions_offset_by_half_a_pitch() {
    let mut wz = WindingZonesEqSpaced::<u8, true>::new(vec![0, 1], 3, false);
    let offsets: Vec<(u32, u32)> =
        drain(&mut wz).iter().map(|p| (p.offset_numer, p.offset_denom)).collect();
    assert_eq!(offsets, vec![(1, 6), (1, 6), (3, 6), (3, 6), (5, 6), (5, 6)]);
}

#[test]
fn slot_positions_starting_in_slot_middle() {
    let mut wz = WindingZonesEqSpaced::<u8, false>::new(vec![0], 4, true);
    let offsets: Vec<(u32, u32)> =
        drain(&mut wz).iter().map(|p| (p.offset_numer, p.offset_denom)).collect();
    assert_eq!(offsets, vec![(0, 8), (2, 8), (4, 8), (6, 8)]);
}

#[test]
fn no_slots_yields_nothing() {
    let mut wz = WindingZonesEqSpaced::<u8, true>::no_slots();
    assert_eq!(wz.slots(), 0);
    assert_eq!(wz.layers(), 0);
    assert!(wz.next().is_none());
}

#[test]
fn no_layers_yields_nothing() {
    let mut wz = WindingZonesEqSpaced::<u8, true>::new(Vec::new(), 7, false);
    assert!(wz.next().is_none());
}

#[test]
fn zone_prototypes_are_kept() {
    let wz = WindingZonesEqSpaced::<&str, true>::new(vec!["lower", "upper"], 2, false);
    assert_eq!(wz.zones(), &vec!["lower", "upper"]);
    let copy = wz.clone();
    assert_eq!(copy.zones(), &vec!["lower", "upper"]);
}
