//! The collision check of an active part: a magnetic core, the winding zones
//! of its winding and the magnets mounted on or inside it.
//!
//! The geometric tests themselves (whether one body overlaps another, whether
//! the core contour contains an interior magnet) are handed in as functions;
//! this module decides which bodies are tested against which and what a
//! failed test reports.

use vstd::prelude::*;

verus! {

/// One body of an active part, named by its kind and its position in the
/// sequence of bodies of that kind.
#[derive(Debug, Clone, Copy, PartialEq, Eq, Structural)]
pub enum Component {
    /// The core itself.
    Core,
    /// The `idx`-th winding zone.
    Zone {
        /// Position among the winding zones.
        idx: usize,
    },
    /// The `idx`-th surface magnet.
    SurfaceMagnet {
        /// Position among the surface magnets.
        idx: usize,
    },
    /// The `idx`-th interior magnet.
    InteriorMagnet {
        /// Position among the interior magnets.
        idx: usize,
    },
}

/// Why two bodies collide.
#[derive(Debug, Clone, Copy, PartialEq, Eq, Structural)]
pub enum AssemblyFailureReason {
    /// The two bodies overlap.
    Overlap,
    /// The right body should lie within the left one, but does not.
    NotContained,
}

/// A collision between two bodies of an active part.
#[derive(Debug, Clone, Copy, PartialEq, Eq, Structural)]
pub struct AssemblyFailure {
    /// One of the colliding bodies.
    pub left_component: Component,
    /// The body that collided with `left_component`.
    pub right_component: Component,
    /// Why they collide.
    pub reason: AssemblyFailureReason,
}

/// Whether the check tests body `a` for an overlap with body `b` (by asking
/// `overlaps(a, b)`), for an active part with `zones` winding zones,
/// `surface` surface magnets and `interior` interior magnets: every two bodies
/// are tested once. The core is tested against every other body; of two bodies
/// of the same kind, the earlier one is asked about the later one; a surface
/// magnet is asked about every zone, and an interior magnet about every zone
/// and every surface magnet.
pub open spec fn overlap_tested(zones: nat, surface: nat, interior: nat, a: Component, b: Component) -> bool {
    match a {
        Component::Core => match b {
            Component::Core => false,
            Component::Zone { idx } => idx < zones,
            Component::SurfaceMagnet { idx } => idx < surface,
            Component::InteriorMagnet { idx } => idx < interior,
        },
        Component::Zone { idx: j } => match b {
            Component::Zone { idx: i } => j < i < zones,
            _ => false,
        },
        Component::SurfaceMagnet { idx: j } => match b {
            Component::SurfaceMagnet { idx: i } => j < i < surface,
            Component::Zone { idx: i } => j < surface && i < zones,
            _ => false,
        },
        Component::InteriorMagnet { idx: j } => match b {
            Component::InteriorMagnet { idx: i } => j < i < interior,
            Component::Zone { idx: i } => j < interior && i < zones,
            Component::SurfaceMagnet { idx: i } => j < interior && i < surface,
            Component::Core => false,
        },
    }
}

/// The failure reported when `overlaps(a, b)` finds an overlap. The core is
/// named first; otherwise the body asked about (`b`) is named first: of two
/// bodies of the same kind the later one, and a zone before the magnet that
/// overlaps it, a surface magnet before the interior magnet that overlaps it.
pub open spec fn overlap_failure(a: Component, b: Component) -> AssemblyFailure {
    if a == Component::Core {
        AssemblyFailure {
            left_component: a,
            right_component: b,
            reason: AssemblyFailureReason::Overlap,
        }
    } else {
        AssemblyFailure {
            left_component: b,
            right_component: a,
            reason: AssemblyFailureReason::Overlap,
        }
    }
}

/// The failure reported when the core does not contain interior magnet `idx`.
pub open spec fn containment_failure(idx: usize) -> AssemblyFailure {
    AssemblyFailure {
        left_component: Component::Core,
        right_component: Component::InteriorMagnet { idx },
        reason: AssemblyFailureReason::NotContained,
    }
}

/// A reported overlap names the two bodies that were tested, each once: the
/// core first where it is one of them, and otherwise in either order.
pub proof fn lemma_overlap_failure_names_pair(a: Component, b: Component)
    ensures
        overlap_failure(a, b).reason == AssemblyFailureReason::Overlap,
        ({
            let f = overlap_failure(a, b);
            ||| f.left_component == a && f.right_component == b
            ||| f.left_component == b && f.right_component == a
        }),
        a == Component::Core ==> overlap_failure(a, b).left_component == Component::Core
            && overlap_failure(a, b).right_component == b,
{
}

/// A reported containment failure names the core and the interior magnet
/// that lies outside it.
pub proof fn lemma_containment_failure_names_magnet(idx: usize)
    ensures
        containment_failure(idx).reason == AssemblyFailureReason::NotContained,
        containment_failure(idx).left_component == Component::Core,
        containment_failure(idx).right_component == (Component::InteriorMagnet { idx }),
{
}

/// Asks `overlaps(a, b)` about a tested pair and turns an overlap into the
/// failure it reports.
fn test_pair<O>(
    zones: usize,
    surface: usize,
    interior: usize,
    overlaps: &O,
    a: Component,
    b: Component,
) -> (r: Result<(), AssemblyFailure>) where O: Fn(Component, Component) -> bool
    requires
        overlap_tested(zones as nat, surface as nat, interior as nat, a, b),
        overlaps.requires((a, b)),
    ensures
        r is Ok ==> overlaps.ensures((a, b), false),
        r matches Err(f) ==> overlaps.ensures((a, b), true) && f == overlap_failure(a, b),
        r matches Err(f) ==> {
            &&& f.reason == AssemblyFailureReason::Overlap
            &&& (f.left_component == a && f.right_component == b) || (f.left_component == b
                && f.right_component == a)
            &&& a == Component::Core ==> f.left_component == Component::Core && f.right_component == b
        },
{
    if overlaps(a, b) {
        let failure = if a == Component::Core {
            AssemblyFailure { left_component: a, right_component: b, reason: AssemblyFailureReason::Overlap }
        } else {
            AssemblyFailure { left_component: b, right_component: a, reason: AssemblyFailureReason::Overlap }
        };
        Err(failure)
    } else {
        Ok(())
    }
}

/// Checks whether an active part can be assembled.
///
/// The part has `zones` winding zones, `surface` surface magnets and
/// `interior` interior magnets. `overlaps(a, b)` tells whether body `a`
/// overlaps body `b`; `contained(i)` whether the core contour contains the
/// `i`-th interior magnet. Every interior magnet must lie within the core
/// contour, and no two bodies may overlap (each pair is tested once, as
/// [`overlap_tested`] names it). On success the result is `Ok`; otherwise it
/// names one failed test.
pub fn assembly_check<O, C>(
    zones: usize,
    surface: usize,
    interior: usize,
    overlaps: &O,
    contained: &C,
) -> (r: Result<(), AssemblyFailure>) where O: Fn(Component, Component) -> bool, C: Fn(usize) -> bool
    requires
        forall|a: Component, b: Component|
            #[trigger] overlap_tested(zones as nat, surface as nat, interior as nat, a, b)
                ==> overlaps.requires((a, b)),
        forall|i: usize| i < interior ==> #[trigger] contained.requires((i,)),
    ensures
        r is Ok ==> {
            &&& forall|a: Component, b: Component|
                #[trigger] overlap_tested(zones as nat, surface as nat, interior as nat, a, b)
                    ==> overlaps.ensures((a, b), false)
            &&& forall|i: usize| i < interior ==> #[trigger] contained.ensures((i,), true)
        },
        r matches Err(f) ==> {
            ||| exists|a: Component, b: Component|
                {
                    &&& #[trigger] overlap_tested(zones as nat, surface as nat, interior as nat, a, b)
                    &&& overlaps.ensures((a, b), true)
                    &&& f == overlap_failure(a, b)
                }
            ||| exists|i: usize|
                {
                    &&& i < interior
                    &&& #[trigger] contained.ensures((i,), false)
                    &&& f == containment_failure(i)
                }
        },
        r matches Err(f) ==> (f.reason == AssemblyFailureReason::Overlap ==> exists|a: Component, b: Component|
            {
                &&& #[trigger] overlap_tested(zones as nat, surface as nat, interior as nat, a, b)
                &&& overlaps.ensures((a, b), true)
                &&& (f.left_component == a && f.right_component == b) || (f.left_component == b
                    && f.right_component == a)
            }),
        r matches Err(f) ==> (f.reason == AssemblyFailureReason::NotContained ==> {
            &&& f.left_component == Component::Core
            &&& exists|i: usize|
                {
                    &&& i < interior
                    &&& #[trigger] contained.ensures((i,), false)
                    &&& f.right_component == (Component::InteriorMagnet { idx: i })
                }
        }),
{
    // Winding zones against the core and against each other.
    let mut i1: usize = 0;
    while i1 < zones
        invariant
            i1 <= zones,
            forall|a: Component, b: Component|
                #[trigger] overlap_tested(zones as nat, surface as nat, interior as nat, a, b)
                    ==> overlaps.requires((a, b)),
            forall|i: usize| i < i1 ==> #[trigger] overlaps.ensures(
                (Component::Core, Component::Zone { idx: i }),
                false,
            ),
            forall|i: usize, j: usize| j < i < i1 ==> #[trigger] overlaps.ensures(
                (Component::Zone { idx: j }, Component::Zone { idx: i }),
                false,
            ),
        decreases zones - i1,
    {
        let a = Component::Core;
        let b = Component::Zone { idx: i1 };
        assert(overlap_tested(zones as nat, surface as nat, interior as nat, a, b));
        test_pair(zones, surface, interior, overlaps, a, b)?;
        let mut i2: usize = 0;
        while i2 < i1
            invariant
                i2 <= i1 < zones,
                forall|a: Component, b: Component|
                    #[trigger] overlap_tested(zones as nat, surface as nat, interior as nat, a, b)
                        ==> overlaps.requires((a, b)),
                forall|j: usize| j < i2 ==> #[trigger] overlaps.ensures(
                    (Component::Zone { idx: j }, Component::Zone { idx: i1 }),
                    false,
                ),
            decreases i1 - i2,
        {
            let a = Component::Zone { idx: i2 };
            let b = Component::Zone { idx: i1 };
            assert(overlap_tested(zones as nat, surface as nat, interior as nat, a, b));
            test_pair(zones, surface, interior, overlaps, a, b)?;
            i2 = i2 + 1;
        }
        i1 = i1 + 1;
    }
    // Surface magnets against the core, against each other and against the
    // winding zones.
    let mut m1: usize = 0;
    while m1 < surface
        invariant
            m1 <= surface,
            forall|a: Component, b: Component|
                #[trigger] overlap_tested(zones as nat, surface as nat, interior as nat, a, b)
                    ==> overlaps.requires((a, b)),
            forall|i: usize| i < zones ==> #[trigger] overlaps.ensures(
                (Component::Core, Component::Zone { idx: i }),
                false,
            ),
            forall|i: usize, j: usize| j < i < zones ==> #[trigger] overlaps.ensures(
                (Component::Zone { idx: j }, Component::Zone { idx: i }),
                false,
            ),
            forall|i: usize| i < m1 ==> #[trigger] overlaps.ensures(
                (Component::Core, Component::SurfaceMagnet { idx: i }),
                false,
            ),
            forall|i: usize, j: usize| j < i < m1 ==> #[trigger] overlaps.ensures(
                (Component::SurfaceMagnet { idx: j }, Component::SurfaceMagnet { idx: i }),
                false,
            ),
            forall|i: usize, j: usize| i < m1 && j < zones ==> #[trigger] overlaps.ensures(
                (Component::SurfaceMagnet { idx: i }, Component::Zone { idx: j }),
                false,
            ),
        decreases surface - m1,
    {
        let a = Component::Core;
        let b = Component::SurfaceMagnet { idx: m1 };
        assert(overlap_tested(zones as nat, surface as nat, interior as nat, a, b));
        test_pair(zones, surface, interior, overlaps, a, b)?;
        let mut m2: usize = 0;
        while m2 < m1
            invariant
                m2 <= m1 < surface,
                forall|a: Component, b: Component|
                    #[trigger] overlap_tested(zones as nat, surface as nat, interior as nat, a, b)
                        ==> overlaps.requires((a, b)),
                forall|j: usize| j < m2 ==> #[trigger] overlaps.ensures(
                    (Component::SurfaceMagnet { idx: j }, Component::SurfaceMagnet { idx: m1 }),
                    false,
                ),
            decreases m1 - m2,
        {
            let a = Component::SurfaceMagnet { idx: m2 };
            let b = Component::SurfaceMagnet { idx: m1 };
            assert(overlap_tested(zones as nat, surface as nat, interior as nat, a, b));
            test_pair(zones, surface, interior, overlaps, a, b)?;
            m2 = m2 + 1;
        }
        let mut z: usize = 0;
        while z < zones
            invariant
                z <= zones,
                m1 < surface,
                forall|a: Component, b: Component|
                    #[trigger] overlap_tested(zones as nat, surface as nat, interior as nat, a, b)
                        ==> overlaps.requires((a, b)),
                forall|j: usize| j < z ==> #[trigger] overlaps.ensures(
                    (Component::SurfaceMagnet { idx: m1 }, Component::Zone { idx: j }),
                    false,
                ),
            decreases zones - z,
        {
            let a = Component::SurfaceMagnet { idx: m1 };
            let b = Component::Zone { idx: z };
            assert(overlap_tested(zones as nat, surface as nat, interior as nat, a, b));
            test_pair(zones, surface, interior, overlaps, a, b)?;
            z = z + 1;
        }
        m1 = m1 + 1;
    }
    // Interior magnets: within the core contour, and overlapping neither the
    // core, nor an earlier interior magnet, nor a zone, nor a surface magnet.
    let mut k: usize = 0;
    while k < interior
        invariant
            k <= interior,
            forall|a: Component, b: Component|
                #[trigger] overlap_tested(zones as nat, surface as nat, interior as nat, a, b)
                    ==> overlaps.requires((a, b)),
            forall|i: usize| i < interior ==> #[trigger] contained.requires((i,)),
            forall|i: usize| i < zones ==> #[trigger] overlaps.ensures(
                (Component::Core, Component::Zone { idx: i }),
                false,
            ),
            forall|i: usize, j: usize| j < i < zones ==> #[trigger] overlaps.ensures(
                (Component::Zone { idx: j }, Component::Zone { idx: i }),
                false,
            ),
            forall|i: usize| i < surface ==> #[trigger] overlaps.ensures(
                (Component::Core, Component::SurfaceMagnet { idx: i }),
                false,
            ),
            forall|i: usize, j: usize| j < i < surface ==> #[trigger] overlaps.ensures(
                (Component::SurfaceMagnet { idx: j }, Component::SurfaceMagnet { idx: i }),
                false,
            ),
            forall|i: usize, j: usize| i < surface && j < zones ==> #[trigger] overlaps.ensures(
                (Component::SurfaceMagnet { idx: i }, Component::Zone { idx: j }),
                false,
            ),
            forall|i: usize| i < k ==> #[trigger] contained.ensures((i,), true),
            forall|i: usize| i < k ==> #[trigger] overlaps.ensures(
                (Component::Core, Component::InteriorMagnet { idx: i }),
                false,
            ),
            forall|i: usize, j: usize| j < i < k ==> #[trigger] overlaps.ensures(
                (Component::InteriorMagnet { idx: j }, Component::InteriorMagnet { idx: i }),
                false,
            ),
            forall|i: usize, j: usize| i < k && j < zones ==> #[trigger] overlaps.ensures(
                (Component::InteriorMagnet { idx: i }, Component::Zone { idx: j }),
                false,
            ),
            forall|i: usize, j: usize| i < k && j < surface ==> #[trigger] overlaps.ensures(
                (Component::InteriorMagnet { idx: i }, Component::SurfaceMagnet { idx: j }),
                false,
            ),
        decreases interior - k,
    {
        let inside = contained(k);
        if !inside {
            return Err(
                AssemblyFailure {
                    left_component: Component::Core,
                    right_component: Component::InteriorMagnet { idx: k },
                    reason: AssemblyFailureReason::NotContained,
                },
            );
        }
        let a = Component::Core;
        let b = Component::InteriorMagnet { idx: k };
        assert(overlap_tested(zones as nat, surface as nat, interior as nat, a, b));
        test_pair(zones, surface, interior, overlaps, a, b)?;
        let mut j: usize = 0;
        while j < k
            invariant
                j <= k < interior,
                forall|a: Component, b: Component|
                    #[trigger] overlap_tested(zones as nat, surface as nat, interior as nat, a, b)
                        ==> overlaps.requires((a, b)),
                forall|i: usize| i < j ==> #[trigger] overlaps.ensures(
                    (Component::InteriorMagnet { idx: i }, Component::InteriorMagnet { idx: k }),
                    false,
                ),
            decreases k - j,
        {
            let a = Component::InteriorMagnet { idx: j };
            let b = Component::InteriorMagnet { idx: k };
            assert(overlap_tested(zones as nat, surface as nat, interior as nat, a, b));
            test_pair(zones, surface, interior, overlaps, a, b)?;
            j = j + 1;
        }
        let mut z: usize = 0;
        while z < zones
            invariant
                z <= zones,
                k < interior,
                forall|a: Component, b: Component|
                    #[trigger] overlap_tested(zones as nat, surface as nat, interior as nat, a, b)
                        ==> overlaps.requires((a, b)),
                forall|i: usize| i < z ==> #[trigger] overlaps.ensures(
                    (Component::InteriorMagnet { idx: k }, Component::Zone { idx: i }),
                    false,
                ),
            decreases zones - z,
        {
            let a = Component::InteriorMagnet { idx: k };
            let b = Component::Zone { idx: z };
            assert(overlap_tested(zones as nat, surface as nat, interior as nat, a, b));
            test_pair(zones, surface, interior, overlaps, a, b)?;
            z = z + 1;
        }
        let mut m: usize = 0;
        while m < surface
            invariant
                m <= surface,
                k < interior,
                forall|a: Component, b: Component|
                    #[trigger] overlap_tested(zones as nat, surface as nat, interior as nat, a, b)
                        ==> overlaps.requires((a, b)),
                forall|i: usize| i < m ==> #[trigger] overlaps.ensures(
                    (Component::InteriorMagnet { idx: k }, Component::SurfaceMagnet { idx: i }),
                    false,
                ),
            decreases surface - m,
        {
            let a = Component::InteriorMagnet { idx: k };
            let b = Component::SurfaceMagnet { idx: m };
            assert(overlap_tested(zones as nat, surface as nat, interior as nat, a, b));
            test_pair(zones, surface, interior, overlaps, a, b)?;
            m = m + 1;
        }
        k = k + 1;
    }
    assert forall|a: Component, b: Component|
        #[trigger] overlap_tested(
            zones as nat,
            surface as nat,
            interior as nat,
            a,
            b,
        ) implies overlaps.ensures((a, b), false) by {
        match a {
            Component::Core => match b {
                Component::Zone { idx } => {
                    assert(overlaps.ensures((Component::Core, Component::Zone { idx }), false));
                },
                Component::SurfaceMagnet { idx } => {
                    assert(overlaps.ensures(
                        (Component::Core, Component::SurfaceMagnet { idx }),
                        false,
                    ));
                },
                Component::InteriorMagnet { idx } => {
                    assert(overlaps.ensures(
                        (Component::Core, Component::InteriorMagnet { idx }),
                        false,
                    ));
                },
                Component::Core => {},
            },
            Component::Zone { idx: j } => match b {
                Component::Zone { idx: i } => {
                    assert(overlaps.ensures(
                        (Component::Zone { idx: j }, Component::Zone { idx: i }),
                        false,
                    ));
                },
                _ => {},
            },
            Component::SurfaceMagnet { idx: j } => match b {
                Component::SurfaceMagnet { idx: i } => {
                    assert(overlaps.ensures(
                        (Component::SurfaceMagnet { idx: j }, Component::SurfaceMagnet { idx: i }),
                        false,
                    ));
                },
                Component::Zone { idx: i } => {
                    assert(overlaps.ensures(
                        (Component::SurfaceMagnet { idx: j }, Component::Zone { idx: i }),
                        false,
                    ));
                },
                _ => {},
            },
            Component::InteriorMagnet { idx: j } => match b {
                Component::InteriorMagnet { idx: i } => {
                    assert(overlaps.ensures(
                        (Component::InteriorMagnet { idx: j }, Component::InteriorMagnet { idx: i }),
                        false,
                    ));
                },
                Component::Zone { idx: i } => {
                    assert(overlaps.ensures(
                        (Component::InteriorMagnet { idx: j }, Component::Zone { idx: i }),
                        false,
                    ));
                },
                Component::SurfaceMagnet { idx: i } => {
                    assert(overlaps.ensures(
                        (Component::InteriorMagnet { idx: j }, Component::SurfaceMagnet { idx: i }),
                        false,
                    ));
                },
                Component::Core => {},
            },
        }
    }
    Ok(())
}

} // verus!
