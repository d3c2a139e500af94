# stem_core (verified index bookkeeping)

The integer logic of a library for the magnetic cores of electric motors,
written in Verus and verified:

- `zone`: the index of a winding zone (slot, layer), its lexicographic order,
  conversions and text.
- `winding_zones`: which zone comes next when the layer group of a slot is
  repeated once per slot along the air gap, and where its slot sits (as a
  fraction of the air gap length).
- `magnets`: which magnet comes next when the magnet group of a pole is
  repeated once per pole, and whether its polarity is inverted.
- `slotting`: the slotting ordinals `k * N / p` in lowest terms, computed with
  the `num` crate.
- `assembly`: which bodies of an active part (core, winding zones, surface and
  interior magnets) are tested against which, and what a failed test reports.
- `air_gap`: the Carter factor models.

`app/` holds the floating-point geometry around this logic (positioning the
zone contours and magnet shapes, the closed-form factors of a core, and the
geometric tests of the collision check). It is not verified.
