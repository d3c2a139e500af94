//! Plain data of the air gap models.

use vstd::prelude::*;

verus! {

/// The models for the Carter factor `k_c`, which describes how a slotted air
/// gap contour increases the magnetic reluctance of the air gap.
#[non_exhaustive]
#[derive(Clone, Copy, Debug, PartialEq, Eq, Structural)]
pub enum CarterFactorModel {
    /// Binder (2012), section 3.6:
    /// `k_c = slot_pitch / (slot_pitch - air_gap_width * zeta)` with
    /// `zeta = 2 / pi * (h * arctan(h/2) - ln(1+(h/2)²))` and
    /// `h = slot_opening_width / air_gap_width`.
    Bin12,
    /// Müller, Vogt and Ponick (2008), section 2.3.2.2:
    /// `k_c = slot_pitch / (slot_pitch - slot_opening_width * gamma)` with
    /// `gamma = 1 / (1 + 5 * air_gap_width / slot_opening_width)`.
    MVP08,
}

} // verus!
