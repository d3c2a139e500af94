use std::cell::RefCell;
use stem_core::assembly::{assembly_check, AssemblyFailure, AssemblyFailureReason, Component};

#[test]
fn nothing_collides() {
    let r = assembly_check(4, 3, 2, &|_: Component, _: Component| false, &|_: usize| true);
    assert!(r.is_ok());
}

#[test]
fn core_overlaps_a_zone() {
    let overlaps = |a: Component, b: Component| a == Component::Core && b == Component::Zone { idx: 2 };
    let r = assembly_check(4, 0, 0, &overlaps, &|_: usize| true);
    assert_eq!(
        r,
        Err(AssemblyFailure {
            left_component: Component::Core,
            right_component: Component::Zone { idx: 2 },
            reason: AssemblyFailureReason::Overlap,
        })
    );
}

#[test]
fn two_zones_overlap() {
    let overlaps = |a: Component, b: Component| {
        a == Component::Zone { idx: 0 } && b == Component::Zone { idx: 3 }
    };
    let r = assembly_check(4, 0, 0, &overlaps, &|_: usize| true);
    assert_eq!(
        r,
        Err(AssemblyFailure {
            left_component: Component::Zone { idx: 3 },
            right_component: Component::Zone { idx: 0 },
            reason: AssemblyFailureReason::Overlap,
        })
    );
}

#[test]
fn surface_magnet_overlaps_a_zone() {
    let overlaps = |a: Component, b: Component| {
        a == Component::SurfaceMagnet { idx: 1 } && b == Component::Zone { idx: 0 }
    };
    let r = assembly_check(2, 2, 0, &overlaps, &|_: usize| true);
    assert_eq!(
        r,
        Err(AssemblyFailure {
            left_component: Component::Zone { idx: 0 },
            right_component: Component::SurfaceMagnet { idx: 1 },
            reason: AssemblyFailureReason::Overlap,
        })
    );
}

#[test]
fn surface_magnets_overlap_each_other() {
    let overlaps = |a: Component, b: Component| {
        matches!((a, b), (Component::SurfaceMagnet { .. }, Component::SurfaceMagnet { .. }))
    };
    let r = assembly_check(0, 3, 0, &overlaps, &|_: usize| true);
    assert_eq!(
        r,
        Err(AssemblyFailure {
            left_component: Component::SurfaceMagnet { idx: 1 },
            right_component: Component::SurfaceMagnet { idx: 0 },
            reason: AssemblyFailureReason::Overlap,
        })
    );
}

#[test]
fn interior_magnet_outside_the_core() {
    let r = assembly_check(1, 1, 3, &|_: Component, _: Component| false, &|i: usize| i != 1);
    assert_eq!(
        r,
        Err(AssemblyFailure {
            left_component: Component::Core,
            right_component: Component::InteriorMagnet { idx: 1 },
            reason: AssemblyFailureReason::NotContained,
        })
    );
}

#[test]
fn interior_magnet_overlaps_the_core() {
    let overlaps = |a: Component, b: Component| {
        a == Component::Core && b == Component::InteriorMagnet { idx: 0 }
    };
    let r = assembly_check(0, 0, 2, &overlaps, &|_: usize| true);
    assert_eq!(
        r,
        Err(AssemblyFailure {
            left_component: Component::Core,
            right_component: Component::InteriorMagnet { idx: 0 },
            reason: AssemblyFailureReason::Overlap,
        })
    );
}

#[test]
fn interior_magnet_overlaps_a_zone() {
    let overlaps = |a: Component, b: Component| {
        a == Component::InteriorMagnet { idx: 0 } && b == Component::Zone { idx: 0 }
    };
    let r = assembly_check(1, 0, 1, &overlaps, &|_: usize| true);
    assert_eq!(
        r,
        Err(AssemblyFailure {
            left_component: Component::Zone { idx: 0 },
            right_component: Component::InteriorMagnet { idx: 0 },
            reason: AssemblyFailureReason::Overlap,
        })
    );
}

#[test]
fn interior_magnet_overlaps_a_surface_magnet() {
    let overlaps = |a: Component, b: Component| {
        a == Component::InteriorMagnet { idx: 1 } && b == Component::SurfaceMagnet { idx: 2 }
    };
    let r = assembly_check(2, 3, 2, &overlaps, &|_: usize| true);
    assert_eq!(
        r,
        Err(AssemblyFailure {
            left_component: Component::SurfaceMagnet { idx: 2 },
            right_component: Component::InteriorMagnet { idx: 1 },
            reason: AssemblyFailureReason::Overlap,
        })
    );
}

#[test]
fn interior_magnets_overlap_each_other() {
    let overlaps = |a: Component, b: Component| {
        a == Component::InteriorMagnet { idx: 0 } && b == Component::InteriorMagnet { idx: 2 }
    };
    let r = assembly_check(0, 0, 3, &overlaps, &|_: usize| true);
    assert_eq!(
        r,
        Err(AssemblyFailure {
            left_component: Component::InteriorMagnet { idx: 2 },
            right_component: Component::InteriorMagnet { idx: 0 },
            reason: AssemblyFailureReason::Overlap,
        })
    );
}

#[test]
fn every_pair_is_asked_once() {
    let asked: RefCell<Vec<(Component, Component)>> = RefCell::new(Vec::new());
    let overlaps = |a: Component, b: Component| {
        asked.borrow_mut().push((a, b));
        false
    };
    assert!(assembly_check(2, 2, 2, &overlaps, &|_: usize| true).is_ok());
    // 7 bodies (core, 2 zones, 2 surface magnets, 2 interior magnets) give 21 pairs.
    let asked = asked.into_inner();
    assert_eq!(asked.len(), 21);
    for (i, p) in asked.iter().enumerate() {
        for q in asked.iter().skip(i + 1) {
            assert!(p != q && (p.0, p.1) != (q.1, q.0));
        }
    }
}
