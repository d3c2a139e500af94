//! Arithmetic of the step counter of an iterator that hands out a group of
//! items once per slot or pole.

use vstd::prelude::*;

verus! {

/// `index` lies below `slots * layers` exactly when its slot `index / layers`
/// lies below `slots`.
pub(crate) proof fn lemma_below_total(index: nat, layers: nat, slots: nat)
    requires
        layers > 0,
    ensures
        (index < slots * layers) <==> (index / layers < slots),
{
    vstd::arithmetic::div_mod::lemma_fundamental_div_mod(index as int, layers as int);
    let q = index / layers;
    let r = index % layers;
    assert(index == layers * q + r);
    assert(0 <= r < layers);
    if q < slots {
        assert(layers * q + r < slots * layers) by (nonlinear_arith)
            requires
                q < slots,
                r < layers,
                layers > 0,
        ;
    } else {
        assert(layers * q + r >= slots * layers) by (nonlinear_arith)
            requires
                q >= slots,
                r >= 0,
                layers > 0,
        ;
    }
}


/// Splits `index` into its slot and layer: `index == layers * slot + layer`.
pub(crate) proof fn lemma_split_index(index: nat, layers: nat)
    requires
        layers > 0,
    ensures
        index == layers * (index / layers) + index % layers,
        index % layers < layers,
{
    vstd::arithmetic::div_mod::lemma_fundamental_div_mod(index as int, layers as int);
}

} // verus!
