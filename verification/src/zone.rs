//! The index of a winding zone and the order of such indices.

use std::cmp::Ordering;
use vstd::prelude::*;
use vstd::std_specs::cmp::PartialOrdSpec;
use vstd::std_specs::convert::FromSpecImpl;
use vstd::std_specs::convert::FromSpec;
use crate::text::{decimal, push_decimal};

verus! {

/// The index of a winding zone: a coil sits in the `layer`-th layer of the
/// `slot`-th slot.
///
/// Zones are ordered by slot first and by layer second.
#[derive(Debug, Clone, Copy, PartialEq, Eq, Structural, Hash, Ord)]
pub struct Zone {
    /// Slot index of the zone.
    pub slot: u16,
    /// Layer index of the zone.
    pub layer: u16,
}

/// `a` comes strictly before `b`: it sits in an earlier slot, or in an earlier
/// layer of the same slot.
pub open spec fn zone_lt(a: Zone, b: Zone) -> bool {
    ||| a.slot < b.slot
    ||| (a.slot == b.slot && a.layer < b.layer)
}

impl Zone {
    /// Returns the zone in layer `layer` of slot `slot`.
    pub fn new(slot: u16, layer: u16) -> (z: Zone)
        ensures
            z.slot == slot,
            z.layer == layer,
    {
        Zone { slot, layer }
    }

    /// The three-way comparison of `self` against `other`.
    pub open spec fn order_against(self, other: Zone) -> Ordering {
        if zone_lt(self, other) {
            Ordering::Less
        } else if self == other {
            Ordering::Equal
        } else {
            Ordering::Greater
        }
    }
}

impl Zone {
    /// The text `zone: slot <slot>, layer <layer> ` naming this zone.
    pub fn to_string(&self) -> (s: String)
        ensures
            s@ == "zone: slot "@ + decimal(self.slot as nat) + ", layer "@ + decimal(
                self.layer as nat,
            ) + " "@,
    {
        let mut s = String::new();
        s.append("zone: slot ");
        push_decimal(&mut s, self.slot);
        s.append(", layer ");
        push_decimal(&mut s, self.layer);
        s.append(" ");
        s
    }
}

impl PartialOrd for Zone {
    fn partial_cmp(&self, other: &Zone) -> (r: Option<Ordering>) {
        if self.slot < other.slot {
            Some(Ordering::Less)
        } else if self.slot > other.slot {
            Some(Ordering::Greater)
        } else if self.layer < other.layer {
            Some(Ordering::Less)
        } else if self.layer > other.layer {
            Some(Ordering::Greater)
        } else {
            Some(Ordering::Equal)
        }
    }
}

impl vstd::std_specs::cmp::PartialOrdSpecImpl for Zone {
    open spec fn obeys_partial_cmp_spec() -> bool {
        true
    }

    open spec fn partial_cmp_spec(&self, other: &Zone) -> Option<Ordering> {
        Some(self.order_against(*other))
    }
}


impl From<Zone> for [u16; 2] {
    fn from(zone: Zone) -> (r: [u16; 2]) {
        [zone.slot, zone.layer]
    }
}

impl FromSpecImpl<Zone> for [u16; 2] {
    open spec fn obeys_from_spec() -> bool {
        true
    }

    open spec fn from_spec(v: Zone) -> [u16; 2] {
        [v.slot, v.layer]
    }
}

impl From<(u16, u16)> for Zone {
    fn from(value: (u16, u16)) -> (r: Zone) {
        Zone::new(value.0, value.1)
    }
}

impl FromSpecImpl<(u16, u16)> for Zone {
    open spec fn obeys_from_spec() -> bool {
        true
    }

    open spec fn from_spec(v: (u16, u16)) -> Zone {
        Zone { slot: v.0, layer: v.1 }
    }
}

impl From<[u16; 2]> for Zone {
    fn from(value: [u16; 2]) -> (r: Zone) {
        Zone::new(value[0], value[1])
    }
}

impl FromSpecImpl<[u16; 2]> for Zone {
    open spec fn obeys_from_spec() -> bool {
        true
    }

    open spec fn from_spec(v: [u16; 2]) -> Zone {
        Zone { slot: v@[0], layer: v@[1] }
    }
}


/// The zone order is total: of two zones, exactly one comes first, or they are
/// the same zone.
pub proof fn lemma_zone_order_total(a: Zone, b: Zone)
    ensures
        zone_lt(a, b) || a == b || zone_lt(b, a),
        !(zone_lt(a, b) && a == b),
        !(zone_lt(a, b) && zone_lt(b, a)),
        !zone_lt(a, a),
{
}

/// The zone order is transitive.
pub proof fn lemma_zone_order_transitive(a: Zone, b: Zone, c: Zone)
    requires
        zone_lt(a, b),
        zone_lt(b, c),
    ensures
        zone_lt(a, c),
{
}

/// Comparing `a` with `b` gives the reverse of comparing `b` with `a`, and
/// `Equal` exactly when the zones are equal.
pub proof fn lemma_zone_comparison_antisymmetric(a: Zone, b: Zone)
    ensures
        (a.order_against(b) == Ordering::Less) <==> (b.order_against(a) == Ordering::Greater),
        (a.order_against(b) == Ordering::Equal) <==> (a == b),
        (a.order_against(b) == Ordering::Equal) <==> (b.order_against(a) == Ordering::Equal),
{
}

/// Zones compare lexicographically, slot first and layer second: `a < b`
/// exactly when `a` lies in an earlier slot, or in an earlier layer of the
/// same slot. Equivalently, the comparison orders zones as it orders the
/// numbers `slot * 0x10000 + layer`.
pub proof fn lemma_zone_comparison_lexicographic(a: Zone, b: Zone)
    ensures
        Zone::obeys_partial_cmp_spec(),
        (a.partial_cmp_spec(&b) == Some(Ordering::Less)) <==> (a.slot < b.slot || (a.slot
            == b.slot && a.layer < b.layer)),
        (a.partial_cmp_spec(&b) == Some(Ordering::Equal)) <==> (a.slot == b.slot && a.layer
            == b.layer),
        (a.partial_cmp_spec(&b) == Some(Ordering::Greater)) <==> (a.slot > b.slot || (a.slot
            == b.slot && a.layer > b.layer)),
        (a.partial_cmp_spec(&b) == Some(Ordering::Less)) <==> (a.slot * 0x1_0000 + a.layer
            < b.slot * 0x1_0000 + b.layer),
        (a.partial_cmp_spec(&b) == Some(Ordering::Greater)) <==> (a.slot * 0x1_0000 + a.layer
            > b.slot * 0x1_0000 + b.layer),
{
}

/// The array conversions keep slot and layer in place: `[s, l]` becomes the
/// zone in layer `l` of slot `s`, as the tuple `(s, l)` does, and a zone
/// becomes `[slot, layer]`.
pub proof fn lemma_zone_conversions_keep_fields(a: [u16; 2], z: Zone)
    ensures
        <Zone as FromSpec<[u16; 2]>>::obeys_from_spec(),
        <Zone as FromSpec<(u16, u16)>>::obeys_from_spec(),
        <[u16; 2] as FromSpec<Zone>>::obeys_from_spec(),
        <Zone as FromSpec<[u16; 2]>>::from_spec(a).slot == a@[0],
        <Zone as FromSpec<[u16; 2]>>::from_spec(a).layer == a@[1],
        <Zone as FromSpec<[u16; 2]>>::from_spec(a) == <Zone as FromSpec<(u16, u16)>>::from_spec(
            (a@[0], a@[1]),
        ),
        <Zone as FromSpec<(u16, u16)>>::from_spec((z.slot, z.layer)).slot == z.slot,
        <Zone as FromSpec<(u16, u16)>>::from_spec((z.slot, z.layer)).layer == z.layer,
        <[u16; 2] as FromSpec<Zone>>::from_spec(z)@ == seq![z.slot, z.layer],
{
    assert(<[u16; 2] as FromSpec<Zone>>::from_spec(z)@ =~= seq![z.slot, z.layer]);
}

/// Converting a zone into a `[slot, layer]` array and back, or into a tuple,
/// gives the same zone; converting an array into a zone and back gives the
/// same array.
pub proof fn lemma_zone_conversions_round_trip(z: Zone, a: [u16; 2])
    ensures
        <Zone as FromSpec<[u16; 2]>>::from_spec(<[u16; 2] as FromSpec<Zone>>::from_spec(z))
            == z,
        <Zone as FromSpec<(u16, u16)>>::from_spec((z.slot, z.layer)) == z,
        <[u16; 2] as FromSpec<Zone>>::from_spec(<Zone as FromSpec<[u16; 2]>>::from_spec(a))@
            == a@,
{
    let b = <[u16; 2] as FromSpec<Zone>>::from_spec(<Zone as FromSpec<[u16; 2]>>::from_spec(a));
    assert(b@ =~= a@);
}

} // verus!
