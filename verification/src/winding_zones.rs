//! Equidistant placement of the winding zones of a core along its air gap.
//!
//! A winding zone is the space of one coil. The zones of one slot form a group
//! of layers; [`WindingZonesEqSpaced`] repeats such a group once per slot,
//! spreading the slots evenly along the air gap surface, and hands out the
//! zones slot by slot and, within a slot, layer by layer.

use vstd::prelude::*;
use crate::zone::zone_lt;
use crate::steps::{lemma_below_total, lemma_split_index};
pub use crate::zone::Zone;

verus! {

/// Where the zone of one step of a [`WindingZonesEqSpaced`] goes: its index,
/// and the position of its slot along the air gap as the fraction
/// `offset_numer / offset_denom` of the air gap length.
#[derive(Debug, Clone, Copy, PartialEq, Eq, Structural)]
pub struct ZonePlacement {
    /// Index of the zone.
    pub zone: Zone,
    /// Position of the zone's prototype among the layer prototypes (the
    /// layer index before it is narrowed to a `u16`).
    pub prototype: usize,
    /// Numerator of the slot position along the air gap.
    pub offset_numer: u32,
    /// Denominator of the slot position along the air gap.
    pub offset_denom: u32,
}

/// The zone handed out at step `index` when each slot holds `layers` layers.
pub open spec fn zone_at(index: nat, layers: nat) -> Zone {
    Zone { slot: (index / layers) as u16, layer: (index % layers) as u16 }
}

/// The numerator of the position of slot `slot`: slots sit at odd multiples of
/// half a slot pitch, or at whole multiples when the core starts in the middle
/// of a slot.
pub open spec fn slot_offset_numer(slot: nat, starts_in_slot_middle: bool) -> nat {
    2 * slot + if starts_in_slot_middle {
        0nat
    } else {
        1nat
    }
}

/// The placement handed out at step `index`.
pub open spec fn placement_at(
    index: nat,
    slots: nat,
    layers: nat,
    starts_in_slot_middle: bool,
) -> ZonePlacement {
    ZonePlacement {
        zone: zone_at(index, layers),
        prototype: (index % layers) as usize,
        offset_numer: slot_offset_numer(index / layers, starts_in_slot_middle) as u32,
        offset_denom: (2 * slots) as u32,
    }
}

impl<T: Clone, const LIN: bool> Clone for WindingZonesEqSpaced<T, LIN> {
    fn clone(&self) -> (r: Self)
        ensures
            r.slot_count() == self.slot_count(),
            r.prototypes().len() == self.prototypes().len(),
            forall|i: int|
                #![trigger r.prototypes()[i]]
                0 <= i < self.prototypes().len() ==> cloned::<T>(self.prototypes()[i], r.prototypes()[i]),
            r.starts_mid() == self.starts_mid(),
            r.cursor() == self.cursor(),
    {
        WindingZonesEqSpaced {
            slots: self.slots,
            zones: self.zones.clone(),
            starts_in_slot_middle: self.starts_in_slot_middle,
            index: self.index,
        }
    }
}

/// An iterator over the winding zones of a core whose slots are spread evenly
/// along the air gap.
///
/// `zones` holds one prototype per layer of a slot. The iterator yields
/// `slots * layers` zones: slot 0 layer 0, slot 0 layer 1, ..., slot 1 layer 0,
/// and so on.
#[derive(Debug)]
pub struct WindingZonesEqSpaced<T, const LIN: bool> {
    slots: u16,
    zones: Vec<T>,
    starts_in_slot_middle: bool,
    index: usize,
}

impl<T, const LIN: bool> WindingZonesEqSpaced<T, LIN> {
    /// The number of slots.
    pub closed spec fn slot_count(&self) -> nat {
        self.slots as nat
    }

    /// The zone prototypes, one per layer.
    pub closed spec fn prototypes(&self) -> Seq<T> {
        self.zones@
    }

    /// Whether the first slot is centred on the start of the core.
    pub closed spec fn starts_mid(&self) -> bool {
        self.starts_in_slot_middle
    }

    /// The number of zones handed out so far.
    pub closed spec fn cursor(&self) -> nat {
        self.index as nat
    }

    /// The number of zones a full pass hands out.
    pub open spec fn total(&self) -> nat {
        self.slot_count() * self.prototypes().len()
    }

    /// Creates an iterator that spreads `slots` copies of the layer group
    /// `zones` along the air gap.
    pub fn new(zones: Vec<T>, slots: u16, starts_in_slot_middle: bool) -> (r: Self)
        ensures
            r.slot_count() == slots,
            r.prototypes() == zones@,
            r.starts_mid() == starts_in_slot_middle,
            r.cursor() == 0,
    {
        WindingZonesEqSpaced { slots, zones, starts_in_slot_middle, index: 0 }
    }

    /// An iterator without any zone.
    pub fn no_slots() -> (r: Self)
        ensures
            r.slot_count() == 0,
            r.prototypes().len() == 0,
            r.starts_mid(),
            r.cursor() == 0,
    {
        WindingZonesEqSpaced { slots: 0, zones: Vec::new(), starts_in_slot_middle: true, index: 0 }
    }

    /// The number of layers within one slot.
    pub fn layers(&self) -> (n: usize)
        ensures
            n == self.prototypes().len(),
    {
        self.zones.len()
    }

    /// The number of slots fits into a `u16`.
    pub proof fn lemma_slot_count_fits(&self)
        ensures
            self.slot_count() <= 0xffff,
    {
    }

    /// The number of slots.
    pub fn slots(&self) -> (n: usize)
        ensures
            n == self.slot_count(),
            n <= 0xffff,
    {
        self.slots as usize
    }

    /// The zone prototypes, one per layer.
    pub fn zones(&self) -> (z: &Vec<T>)
        ensures
            z@ == self.prototypes(),
    {
        &self.zones
    }

    /// The number of zones handed out so far.
    pub fn position(&self) -> (n: usize)
        ensures
            n == self.cursor(),
    {
        self.index
    }

    /// Starts the iteration over: the next zone is again slot 0, layer 0.
    pub fn reset(&mut self)
        ensures
            final(self).slot_count() == old(self).slot_count(),
            final(self).prototypes() == old(self).prototypes(),
            final(self).starts_mid() == old(self).starts_mid(),
            final(self).cursor() == 0,
    {
        self.index = 0;
    }

    /// Hands out the next zone and the position of its slot, or `None` once all
    /// `slots * layers` zones have been handed out.
    pub fn next(&mut self) -> (r: Option<ZonePlacement>)
        requires
            old(self).cursor() < usize::MAX,
        ensures
            final(self).slot_count() == old(self).slot_count(),
            final(self).prototypes() == old(self).prototypes(),
            final(self).starts_mid() == old(self).starts_mid(),
            old(self).cursor() < old(self).total() ==> {
                &&& r == Some(
                    placement_at(
                        old(self).cursor(),
                        old(self).slot_count(),
                        old(self).prototypes().len(),
                        old(self).starts_mid(),
                    ),
                )
                &&& final(self).cursor() == old(self).cursor() + 1
            },
            old(self).cursor() >= old(self).total() ==> {
                &&& r is None
                &&& final(self).cursor() == old(self).cursor()
            },
            r matches Some(p) ==> {
                &&& p.prototype < old(self).prototypes().len()
                &&& p.prototype == old(self).cursor() % old(self).prototypes().len()
                &&& p.zone.slot == old(self).cursor() / old(self).prototypes().len()
            },
    {
        let layers = self.zones.len();
        if layers == 0 {
            proof {
                let n = old(self).slot_count();
                assert(n * 0 == 0) by (nonlinear_arith);
            }
            return None;
        }
        let current_slot = self.index / layers;
        proof {
            lemma_below_total(self.index as nat, layers as nat, self.slots as nat);
        }
        if current_slot >= self.slots as usize {
            return None;
        }
        let current_layer = self.index % layers;
        self.index = self.index + 1;
        let numer: u32 = 2 * (current_slot as u32) + if self.starts_in_slot_middle {
            0
        } else {
            1
        };
        let denom: u32 = 2 * (self.slots as u32);
        Some(
            ZonePlacement {
                zone: Zone { slot: current_slot as u16, layer: current_layer as u16 },
                prototype: current_layer,
                offset_numer: numer,
                offset_denom: denom,
            },
        )
    }
}

/// The zones come out in strictly increasing order: a later step never hands
/// out a zone that comes before, or equals, an earlier one (as long as the
/// layer indices fit into a `u16`).
pub proof fn lemma_zones_strictly_increasing(i: nat, j: nat, slots: nat, layers: nat)
    requires
        0 < layers <= 0x1_0000,
        slots <= 0xffff,
        i < j < slots * layers,
    ensures
        zone_lt(zone_at(i, layers), zone_at(j, layers)),
{
    lemma_split_index(i, layers);
    lemma_split_index(j, layers);
    lemma_below_total(j, layers, slots);
    let qi = i / layers;
    let qj = j / layers;
    let ri = i % layers;
    let rj = j % layers;
    if qi > qj {
        assert(layers * qi >= layers * (qj + 1)) by (nonlinear_arith)
            requires
                qi >= qj + 1,
                layers > 0,
        ;
        assert(layers * (qj + 1) == layers * qj + layers) by (nonlinear_arith);
    }
    if qi == qj {
        assert(ri < rj);
    }
}

/// The prototype of a zone is that of its layer: at step `k` the zone
/// `(slot, layer)` with `layers * slot + layer == k` is handed out, built from
/// prototype number `layer`, which is `k % layers`.
pub proof fn lemma_prototype_of_layer(k: nat, slots: nat, layers: nat, starts_in_slot_middle: bool)
    requires
        0 < layers <= 0x1_0000,
        slots <= 0xffff,
        k < slots * layers,
    ensures
        ({
            let p = placement_at(k, slots, layers, starts_in_slot_middle);
            &&& p.prototype < layers
            &&& p.prototype == k % layers
            &&& p.prototype == p.zone.layer
            &&& layers * p.zone.slot + p.zone.layer == k
        }),
{
    lemma_below_total(k, layers, slots);
    lemma_split_index(k, layers);
}

/// Every zone with a slot below `slots` and a layer below `layers` is handed
/// out, at step `layers * slot + layer`.
pub proof fn lemma_every_zone_handed_out(slot: nat, layer: nat, slots: nat, layers: nat)
    requires
        slot < slots <= 0xffff,
        layer < layers <= 0x1_0000,
    ensures
        layers * slot + layer < slots * layers,
        zone_at(layers * slot + layer, layers) == (Zone { slot: slot as u16, layer: layer as u16 }),
{
    let k = layers * slot + layer;
    assert(k < slots * layers) by (nonlinear_arith)
        requires
            slot < slots,
            layer < layers,
            k == layers * slot + layer,
    ;
    assert(layers * slot == slot * layers) by (nonlinear_arith);
    vstd::arithmetic::div_mod::lemma_fundamental_div_mod_converse(
        k as int,
        layers as int,
        slot as int,
        layer as int,
    );
}

/// The slots are spread evenly: the zones of one slot share its position, the
/// next slot sits one slot pitch (`2 / (2 * slots)` of the air gap) further,
/// and every position lies within the air gap.
pub proof fn lemma_slots_evenly_spaced(k: nat, slots: nat, layers: nat, starts_in_slot_middle: bool)
    requires
        0 < layers,
        slots <= 0xffff,
        k < slots * layers,
    ensures
        ({
            let p = placement_at(k, slots, layers, starts_in_slot_middle);
            &&& p.offset_denom == 2 * slots
            &&& p.offset_numer < p.offset_denom
            &&& p.offset_numer == 2 * (k / layers) + (if starts_in_slot_middle {
                0nat
            } else {
                1nat
            })
        }),
        k + layers < slots * layers ==> placement_at(k + layers, slots, layers, starts_in_slot_middle).offset_numer
            == placement_at(k, slots, layers, starts_in_slot_middle).offset_numer + 2,
        k % layers + 1 < layers ==> placement_at(k + 1, slots, layers, starts_in_slot_middle).offset_numer
            == placement_at(k, slots, layers, starts_in_slot_middle).offset_numer,
{
    lemma_below_total(k, layers, slots);
    lemma_split_index(k, layers);
    let q = k / layers;
    let r = k % layers;
    if k + layers < slots * layers {
        assert(layers * q + layers == (q + 1) * layers) by (nonlinear_arith);
        vstd::arithmetic::div_mod::lemma_fundamental_div_mod_converse(
            (k + layers) as int,
            layers as int,
            (q + 1) as int,
            r as int,
        );
    }
    if r + 1 < layers {
        assert(layers * q == q * layers) by (nonlinear_arith);
        vstd::arithmetic::div_mod::lemma_fundamental_div_mod_converse(
            (k + 1) as int,
            layers as int,
            q as int,
            (r + 1) as int,
        );
    }
}

} // verus!
