//! Index bookkeeping for the magnetic cores of electric motors: winding zone
//! indices and their ordering, the equidistant placement of winding zones and
//! magnets along the air gap, and the slotting ordinals of a slotted core.

use vstd::prelude::*;

mod steps;
pub mod text;
pub mod zone;
pub mod winding_zones;
pub mod magnets;
pub mod slotting;
pub mod assembly;
pub mod air_gap;

verus! {

/// Whether an entity (such as a magnetic core) is linear or rotary.
#[derive(Debug, Clone, Copy, PartialEq, Eq, Structural)]
pub enum LinOrRot {
    /// Linear entity.
    Lin,
    /// Rotary entity.
    Rot,
}

} // verus!
