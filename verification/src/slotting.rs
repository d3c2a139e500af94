//! The slotting ordinals of a core.
//!
//! The slot openings of a core make the permeance of the air gap vary along
//! the air gap. The electrical ordinals of the harmonics of that variation
//! are `k * N / p` for `k = 1, 2, 3, ...`, with `N` slots and `p` pole pairs
//! (Huth, Electrical Engineering 78 (1995), eq. (8)). [`SlottingOrdinals`]
//! hands them out as fractions in lowest terms.

use vstd::prelude::*;

verus! {

/// The greatest common divisor of `a` and `b` (Euclid's algorithm), with
/// `gcd(a, 0) == a`.
pub open spec fn gcd(a: nat, b: nat) -> nat
    decreases b,
{
    if b == 0 {
        a
    } else {
        gcd(b, a % b)
    }
}

/// The fraction `numer / denom` in lowest terms, as (numerator, denominator).
pub open spec fn lowest_terms(numer: nat, denom: nat) -> (nat, nat) {
    (numer / gcd(numer, denom), denom / gcd(numer, denom))
}

/// The `n`-th slotting ordinal (counting from zero) of a core with `slots`
/// slots and `pole_pairs` pole pairs: `(n + 1) * slots / pole_pairs` in lowest
/// terms.
pub open spec fn ordinal_at(n: nat, slots: nat, pole_pairs: nat) -> (nat, nat) {
    lowest_terms((n + 1) * slots, pole_pairs)
}

/// Calls `num::integer::gcd`, which computes the greatest common divisor of two
/// unsigned integers (with Stein's algorithm; `gcd(0, b) == b`,
/// `gcd(a, 0) == a`). The contract claims that its result is the one of
/// Euclid's algorithm.
#[verifier::external_body]
fn gcd_u16(a: u16, b: u16) -> (g: u16)
    ensures
        g == gcd(a as nat, b as nat),
{
    num::integer::gcd(a, b)
}

/// Calls `num::rational::Ratio::new`, which reduces `numer / denom` by the
/// greatest common divisor of the two (it panics on a zero denominator, which
/// `requires` leaves out), and takes the reduced ratio apart with
/// `Ratio::into_raw`. The contract claims the result is the fraction in lowest
/// terms.
#[verifier::external_body]
fn reduced_ratio(numer: usize, denom: usize) -> (r: (usize, usize))
    requires
        denom != 0,
    ensures
        r.0 == lowest_terms(numer as nat, denom as nat).0,
        r.1 == lowest_terms(numer as nat, denom as nat).1,
{
    num::rational::Ratio::new(numer, denom).into_raw()
}

/// An iterator over the electrical slotting ordinals `k * N / p`,
/// `k = 1, 2, 3, ...`, of a core with `N` slots and `p` pole pairs, each as a
/// (numerator, denominator) pair in lowest terms. An unslotted core has none.
#[derive(Debug, Clone, Copy)]
pub struct SlottingOrdinals {
    slots: u16,
    pole_pairs: u16,
    counter: usize,
}

impl SlottingOrdinals {
    /// The number of slots divided by its greatest common divisor with the
    /// number of pole pairs.
    pub closed spec fn base_slots(&self) -> nat {
        self.slots as nat
    }

    /// The number of pole pairs divided by its greatest common divisor with
    /// the number of slots.
    pub closed spec fn base_pole_pairs(&self) -> nat {
        self.pole_pairs as nat
    }

    /// The number of ordinals handed out so far.
    pub closed spec fn counter(&self) -> nat {
        self.counter as nat
    }

    /// The number of slots after division by the common divisor.
    pub fn slots(&self) -> (n: u16)
        ensures
            n == self.base_slots(),
    {
        self.slots
    }

    /// The number of pole pairs after division by the common divisor.
    pub fn pole_pairs(&self) -> (n: u16)
        ensures
            n == self.base_pole_pairs(),
    {
        self.pole_pairs
    }

    /// The number of ordinals handed out so far.
    pub fn position(&self) -> (n: usize)
        ensures
            n == self.counter(),
    {
        self.counter
    }

    /// Creates the iterator for a core with `slots` slots and `pole_pairs`
    /// pole pairs. Both are first divided by their greatest common divisor:
    /// the winding pattern repeats after that many slots.
    pub fn new(slots: u16, pole_pairs: u16) -> (r: SlottingOrdinals)
        requires
            slots != 0 || pole_pairs != 0,
        ensures
            r.base_slots() == slots as nat / gcd(slots as nat, pole_pairs as nat),
            r.base_pole_pairs() == pole_pairs as nat / gcd(slots as nat, pole_pairs as nat),
            r.counter() == 0,
    {
        let g = gcd_u16(slots, pole_pairs);
        proof {
            lemma_gcd_divides(slots as nat, pole_pairs as nat);
        }
        SlottingOrdinals { slots: slots / g, pole_pairs: pole_pairs / g, counter: 0 }
    }

    /// Skips `n` ordinals and hands out the one after them: the `n`-th of the
    /// ordinals not yet handed out (counting from zero), in lowest terms. An
    /// unslotted core has none.
    pub fn nth(&mut self, n: usize) -> (r: Option<(usize, usize)>)
        requires
            old(self).base_slots() != 0 ==> {
                &&& old(self).base_pole_pairs() != 0
                &&& old(self).counter() + n + 1 <= usize::MAX
                &&& (old(self).counter() + n + 1) * old(self).base_slots() <= usize::MAX
            },
        ensures
            final(self).base_slots() == old(self).base_slots(),
            final(self).base_pole_pairs() == old(self).base_pole_pairs(),
            old(self).base_slots() == 0 ==> r is None && final(self).counter() == old(
                self,
            ).counter(),
            old(self).base_slots() != 0 ==> {
                &&& r matches Some(o) && o.0 == ordinal_at(
                    (old(self).counter() + n) as nat,
                    old(self).base_slots(),
                    old(self).base_pole_pairs(),
                ).0 && o.1 == ordinal_at(
                    (old(self).counter() + n) as nat,
                    old(self).base_slots(),
                    old(self).base_pole_pairs(),
                ).1
                &&& final(self).counter() == old(self).counter() + n + 1
            },
    {
        if self.slots == 0 {
            return None;
        }
        let k: usize = self.counter + n + 1;
        let numer: usize = k * (self.slots as usize);
        let ordinal = reduced_ratio(numer, self.pole_pairs as usize);
        self.counter = k;
        Some(ordinal)
    }

    /// The next ordinal, or `None` for an unslotted core.
    pub fn next(&mut self) -> (r: Option<(usize, usize)>)
        requires
            old(self).base_slots() != 0 ==> {
                &&& old(self).base_pole_pairs() != 0
                &&& old(self).counter() < usize::MAX
                &&& (old(self).counter() + 1) * old(self).base_slots() <= usize::MAX
            },
        ensures
            final(self).base_slots() == old(self).base_slots(),
            final(self).base_pole_pairs() == old(self).base_pole_pairs(),
            old(self).base_slots() == 0 ==> r is None && final(self).counter() == old(
                self,
            ).counter(),
            old(self).base_slots() != 0 ==> {
                &&& r matches Some(o) && o.0 == ordinal_at(
                    old(self).counter(),
                    old(self).base_slots(),
                    old(self).base_pole_pairs(),
                ).0 && o.1 == ordinal_at(
                    old(self).counter(),
                    old(self).base_slots(),
                    old(self).base_pole_pairs(),
                ).1
                &&& final(self).counter() == old(self).counter() + 1
            },
    {
        self.nth(0)
    }
}

/// A common divisor of `a` and `b` that is not zero when they are not both
/// zero: `gcd(a, b)` divides both.
pub proof fn lemma_gcd_divides(a: nat, b: nat)
    requires
        a != 0 || b != 0,
    ensures
        gcd(a, b) > 0,
        a % gcd(a, b) == 0,
        b % gcd(a, b) == 0,
    decreases b,
{
    if b == 0 {
        vstd::arithmetic::div_mod::lemma_mod_self_0(a as int);
        assert(0nat % a == 0);
    } else {
        let r = a % b;
        lemma_gcd_divides(b, r);
        let g = gcd(b, r);
        vstd::arithmetic::div_mod::lemma_fundamental_div_mod(a as int, b as int);
        vstd::arithmetic::div_mod::lemma_fundamental_div_mod(b as int, g as int);
        vstd::arithmetic::div_mod::lemma_fundamental_div_mod(r as int, g as int);
        let q = a / b;
        let x = b / g;
        let y = r / g;
        assert(a == g * (q * x + y)) by (nonlinear_arith)
            requires
                a == b * q + r,
                b == g * x,
                r == g * y,
        ;
        vstd::arithmetic::div_mod::lemma_mod_multiples_basic((q * x + y) as int, g as int);
        assert(g * (q * x + y) == (q * x + y) * g) by (nonlinear_arith);
    }
}


/// Scaling both arguments scales the remainder: `(k * a) % (k * b) == k * (a % b)`.
proof fn lemma_mod_scales(k: nat, a: nat, b: nat)
    requires
        k > 0,
        b > 0,
    ensures
        (k * a) % (k * b) == k * (a % b),
        (k * a) / (k * b) == a / b,
{
    vstd::arithmetic::div_mod::lemma_fundamental_div_mod(a as int, b as int);
    let q = a / b;
    let r = a % b;
    assert(k * a == q * (k * b) + k * r) by (nonlinear_arith)
        requires
            a == b * q + r,
    ;
    assert(k * r < k * b) by (nonlinear_arith)
        requires
            r < b,
            k > 0,
    ;
    assert(k * b > 0) by (nonlinear_arith)
        requires
            k > 0,
            b > 0,
    ;
    vstd::arithmetic::div_mod::lemma_fundamental_div_mod_converse(
        (k * a) as int,
        (k * b) as int,
        q as int,
        (k * r) as int,
    );
}

/// Scaling both arguments scales the greatest common divisor:
/// `gcd(k * a, k * b) == k * gcd(a, b)`.
pub proof fn lemma_gcd_scales(k: nat, a: nat, b: nat)
    requires
        k > 0,
    ensures
        gcd(k * a, k * b) == k * gcd(a, b),
    decreases b,
{
    if b == 0 {
        assert(k * b == 0) by (nonlinear_arith)
            requires
                b == 0,
        ;
    } else {
        assert(k * b > 0) by (nonlinear_arith)
            requires
                k > 0,
                b > 0,
        ;
        lemma_mod_scales(k, a, b);
        lemma_gcd_scales(k, b, a % b);
    }
}

/// Dividing `a` by `d` where `d` divides it: `a == d * (a / d)`.
proof fn lemma_exact_division(a: nat, d: nat)
    requires
        d > 0,
        a % d == 0,
    ensures
        a == d * (a / d),
{
    vstd::arithmetic::div_mod::lemma_fundamental_div_mod(a as int, d as int);
}

/// Only the ratio of slots to pole pairs matters: a core with `k` times the
/// slots and `k` times the pole pairs reduces to the same base configuration,
/// so its slotting ordinals are the same (e.g. 24 slots and 10 pole pairs
/// give the ordinals of 12 slots and 5 pole pairs).
pub proof fn lemma_scaled_core_same_base(k: nat, slots: nat, pole_pairs: nat)
    requires
        k > 0,
        slots != 0 || pole_pairs != 0,
    ensures
        (k * slots) / gcd(k * slots, k * pole_pairs) == slots / gcd(slots, pole_pairs),
        (k * pole_pairs) / gcd(k * slots, k * pole_pairs) == pole_pairs / gcd(slots, pole_pairs),
{
    lemma_gcd_scales(k, slots, pole_pairs);
    lemma_gcd_divides(slots, pole_pairs);
    let g = gcd(slots, pole_pairs);
    lemma_exact_division(slots, g);
    lemma_exact_division(pole_pairs, g);
    let s = slots / g;
    let p = pole_pairs / g;
    assert(k * slots == (k * g) * s) by (nonlinear_arith)
        requires
            slots == g * s,
    ;
    assert(k * pole_pairs == (k * g) * p) by (nonlinear_arith)
        requires
            pole_pairs == g * p,
    ;
    assert(k * g > 0) by (nonlinear_arith)
        requires
            k > 0,
            g > 0,
    ;
    vstd::arithmetic::div_mod::lemma_div_multiples_vanish(s as int, (k * g) as int);
    vstd::arithmetic::div_mod::lemma_div_multiples_vanish(p as int, (k * g) as int);
}

/// The `n`-th slotting ordinal handed out for a core with `slots` slots and
/// `pole_pairs` pole pairs equals `(n + 1) * slots / pole_pairs`, and is a
/// fraction in lowest terms with a positive denominator.
pub proof fn lemma_ordinal_value(n: nat, slots: nat, pole_pairs: nat)
    requires
        pole_pairs > 0,
    ensures
        ({
            let g = gcd(slots, pole_pairs);
            let o = ordinal_at(n, slots / g, pole_pairs / g);
            &&& o.1 > 0
            &&& o.0 * pole_pairs == (n + 1) * slots * o.1
            &&& gcd(o.0, o.1) == 1
        }),
{
    lemma_gcd_divides(slots, pole_pairs);
    let g = gcd(slots, pole_pairs);
    lemma_exact_division(slots, g);
    lemma_exact_division(pole_pairs, g);
    let s = slots / g;
    let p = pole_pairs / g;
    assert(p > 0) by (nonlinear_arith)
        requires
            pole_pairs == g * p,
            pole_pairs > 0,
    ;
    let m = (n + 1) * s;
    lemma_gcd_divides(m, p);
    let h = gcd(m, p);
    lemma_exact_division(m, h);
    lemma_exact_division(p, h);
    let num = m / h;
    let den = p / h;
    assert(den > 0) by (nonlinear_arith)
        requires
            p == h * den,
            p > 0,
    ;
    assert(num * pole_pairs == (n + 1) * slots * den) by (nonlinear_arith)
        requires
            m == h * num,
            p == h * den,
            m == (n + 1) * s,
            slots == g * s,
            pole_pairs == g * p,
    ;
    lemma_gcd_scales(h, num, den);
    assert(h * gcd(num, den) == h * 1);
    assert(gcd(num, den) == 1) by (nonlinear_arith)
        requires
            h * gcd(num, den) == h * 1,
            h > 0,
    ;
}

} // verus!
