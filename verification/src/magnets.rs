//! Equidistant placement of the magnets of a core, pole by pole.
//!
//! The magnets of one pole form a group; [`MagnetsEqSpaced`] repeats that
//! group once per pole and hands the magnets out pole by pole. Neighbouring
//! poles have opposite polarity, so the polarity of every magnet of an odd
//! pole is inverted.

use vstd::prelude::*;
use crate::steps::{lemma_below_total, lemma_split_index};

verus! {

/// Where the magnet of one step of a [`MagnetsEqSpaced`] goes.
#[derive(Debug, Clone, Copy, PartialEq, Eq, Structural)]
pub struct MagnetPlacement {
    /// Index of the pole the magnet belongs to.
    pub pole: usize,
    /// Index of the magnet within the group of one pole.
    pub magnet: usize,
    /// Whether the polarity of the magnet is the inverse of its prototype's
    /// (true for the magnets of odd poles).
    pub invert_polarity: bool,
}

impl MagnetPlacement {
    /// Whether the placed magnet's north pole faces the air gap, given that
    /// of its prototype: the prototype's polarity, inverted on odd poles.
    pub fn is_north(&self, prototype_is_north: bool) -> (r: bool)
        ensures
            r == (prototype_is_north != self.invert_polarity),
    {
        if self.invert_polarity {
            !prototype_is_north
        } else {
            prototype_is_north
        }
    }
}

/// The placement handed out at step `index` when each pole holds `per_pole`
/// magnets.
pub open spec fn magnet_placement_at(index: nat, per_pole: nat) -> MagnetPlacement {
    MagnetPlacement {
        pole: (index / per_pole) as usize,
        magnet: (index % per_pole) as usize,
        invert_polarity: (index / per_pole) % 2 == 1,
    }
}

/// An iterator over the magnets of a core whose poles are spread evenly along
/// the air gap.
///
/// `magnets` holds the prototype magnets of one pole. The iterator yields
/// `poles * magnets.len()` magnets, starting with those of the first pole.
#[derive(Debug)]
pub struct MagnetsEqSpaced<T, const LIN: bool> {
    poles: usize,
    magnets: Vec<T>,
    index: usize,
}

impl<T: Clone, const LIN: bool> Clone for MagnetsEqSpaced<T, LIN> {
    fn clone(&self) -> (r: Self)
        ensures
            r.pole_count() == self.pole_count(),
            r.prototypes().len() == self.prototypes().len(),
            forall|i: int|
                #![trigger r.prototypes()[i]]
                0 <= i < self.prototypes().len() ==> cloned::<T>(self.prototypes()[i], r.prototypes()[i]),
            r.cursor() == self.cursor(),
    {
        MagnetsEqSpaced { poles: self.poles, magnets: self.magnets.clone(), index: self.index }
    }
}

impl<T, const LIN: bool> MagnetsEqSpaced<T, LIN> {
    /// The number of poles.
    pub closed spec fn pole_count(&self) -> nat {
        self.poles as nat
    }

    /// The prototype magnets of one pole.
    pub closed spec fn prototypes(&self) -> Seq<T> {
        self.magnets@
    }

    /// The number of magnets handed out so far.
    pub closed spec fn cursor(&self) -> nat {
        self.index as nat
    }

    /// The number of magnets a full pass hands out.
    pub open spec fn total(&self) -> nat {
        self.pole_count() * self.prototypes().len()
    }

    /// Creates an iterator that repeats the magnet group `magnets` once for
    /// each of the `poles` poles.
    pub fn new(magnets: Vec<T>, poles: usize) -> (r: Self)
        ensures
            r.pole_count() == poles,
            r.prototypes() == magnets@,
            r.cursor() == 0,
    {
        MagnetsEqSpaced { poles, magnets, index: 0 }
    }

    /// The prototype magnets of one pole.
    pub fn magnets(&self) -> (m: &Vec<T>)
        ensures
            m@ == self.prototypes(),
    {
        &self.magnets
    }

    /// The number of poles.
    pub fn poles(&self) -> (n: usize)
        ensures
            n == self.pole_count(),
    {
        self.poles
    }

    /// The number of magnets handed out so far.
    pub fn position(&self) -> (n: usize)
        ensures
            n == self.cursor(),
    {
        self.index
    }

    /// Starts the iteration over at the first magnet of the first pole.
    pub fn reset(&mut self)
        ensures
            final(self).pole_count() == old(self).pole_count(),
            final(self).prototypes() == old(self).prototypes(),
            final(self).cursor() == 0,
    {
        self.index = 0;
    }

    /// Hands out the next magnet, or `None` once all `poles * magnets` magnets
    /// have been handed out.
    pub fn next(&mut self) -> (r: Option<MagnetPlacement>)
        requires
            old(self).cursor() < usize::MAX,
        ensures
            final(self).pole_count() == old(self).pole_count(),
            final(self).prototypes() == old(self).prototypes(),
            old(self).cursor() < old(self).total() ==> {
                &&& r == Some(
                    magnet_placement_at(old(self).cursor(), old(self).prototypes().len()),
                )
                &&& final(self).cursor() == old(self).cursor() + 1
            },
            old(self).cursor() >= old(self).total() ==> {
                &&& r is None
                &&& final(self).cursor() == old(self).cursor()
            },
            r matches Some(p) ==> {
                &&& p.magnet < old(self).prototypes().len()
                &&& old(self).prototypes().len() * p.pole + p.magnet == old(self).cursor()
                &&& p.invert_polarity == (p.pole % 2 == 1)
            },
    {
        let per_pole = self.magnets.len();
        if per_pole == 0 {
            proof {
                let n = old(self).pole_count();
                assert(n * 0 == 0) by (nonlinear_arith);
            }
            return None;
        }
        let current_pole = self.index / per_pole;
        proof {
            lemma_below_total(self.index as nat, per_pole as nat, self.poles as nat);
        }
        if current_pole >= self.poles {
            return None;
        }
        let magnet = self.index % per_pole;
        proof {
            lemma_split_index(self.index as nat, per_pole as nat);
        }
        self.index = self.index + 1;
        Some(
            MagnetPlacement {
                pole: current_pole,
                magnet,
                invert_polarity: current_pole % 2 == 1,
            },
        )
    }
}

/// Neighbouring poles have opposite polarity: the magnet handed out one pole
/// later than another one has the opposite polarity inversion, and all magnets
/// of one pole share theirs.
pub proof fn lemma_polarity_alternates(k: nat, poles: nat, per_pole: nat)
    requires
        0 < per_pole,
        k + per_pole < poles * per_pole,
    ensures
        magnet_placement_at(k + per_pole, per_pole).invert_polarity == !magnet_placement_at(
            k,
            per_pole,
        ).invert_polarity,
        magnet_placement_at(k + per_pole, per_pole).magnet == magnet_placement_at(k, per_pole).magnet,
        k % per_pole + 1 < per_pole ==> magnet_placement_at(k + 1, per_pole).invert_polarity
            == magnet_placement_at(k, per_pole).invert_polarity,
{
    lemma_split_index(k, per_pole);
    let q = k / per_pole;
    let r = k % per_pole;
    assert(per_pole * q + per_pole == (q + 1) * per_pole) by (nonlinear_arith);
    vstd::arithmetic::div_mod::lemma_fundamental_div_mod_converse(
        (k + per_pole) as int,
        per_pole as int,
        (q + 1) as int,
        r as int,
    );
    if r + 1 < per_pole {
        assert(per_pole * q == q * per_pole) by (nonlinear_arith);
        vstd::arithmetic::div_mod::lemma_fundamental_div_mod_converse(
            (k + 1) as int,
            per_pole as int,
            q as int,
            (r + 1) as int,
        );
    }
}

/// Every magnet of every pole is handed out: magnet `magnet` of pole `pole`
/// comes at step `per_pole * pole + magnet`, inverted exactly for odd poles.
pub proof fn lemma_every_magnet_placed(pole: nat, magnet: nat, poles: nat, per_pole: nat)
    requires
        pole < poles,
        magnet < per_pole,
        poles * per_pole <= usize::MAX,
    ensures
        per_pole * pole + magnet < poles * per_pole,
        magnet_placement_at(per_pole * pole + magnet, per_pole) == (MagnetPlacement {
            pole: pole as usize,
            magnet: magnet as usize,
            invert_polarity: pole % 2 == 1,
        }),
{
    let k = per_pole * pole + magnet;
    assert(k < poles * per_pole) by (nonlinear_arith)
        requires
            pole < poles,
            magnet < per_pole,
            k == per_pole * pole + magnet,
    ;
    assert(per_pole * pole == pole * per_pole) by (nonlinear_arith);
    vstd::arithmetic::div_mod::lemma_fundamental_div_mod_converse(
        k as int,
        per_pole as int,
        pole as int,
        magnet as int,
    );
}

} // verus!
