use stem_core::magnets::{MagnetPlacement, MagnetsEqSpaced};

#[test]
fn polarity_inverts_on_every_odd_pole() {
    // Two magnets per pole, four poles.
    let mut m = MagnetsEqSpaced::<bool, true>::new(vec![true, true], 4);
    let mut inverted = Vec::new();
    while let Some(p) = m.next() {
        inverted.push(p.invert_polarity);
    }
    assert_eq!(inverted, vec![false, false, true, true, false, false, true, true]);
}

#[test]
fn one_magnet_per_pole() {
    let mut m = MagnetsEqSpaced::<u8, false>::new(vec![0], 4);
    assert_eq!(m.next(), Some(MagnetPlacement { pole: 0, magnet: 0, invert_polarity: false }));
    assert_eq!(m.next(), Some(MagnetPlacement { pole: 1, magnet: 0, invert_polarity: true }));
    assert_eq!(m.next(), Some(MagnetPlacement { pole: 2, magnet: 0, invert_polarity: false }));
    assert_eq!(m.next(), Some(MagnetPlacement { pole: 3, magnet: 0, invert_polarity: true }));
    assert!(m.next().is_none());
    m.reset();
    assert_eq!(m.next(), Some(MagnetPlacement { pole: 0, magnet: 0, invert_polarity: false }));
}

#[test]
fn magnets_of_a_pole_in_order() {
    let mut m = MagnetsEqSpaced::<u8, true>::new(vec![10, 20, 30], 2);
    let got: Vec<(usize, usize)> = std::iter::from_fn(|| m.next()).map(|p| (p.pole, p.magnet)).collect();
    assert_eq!(got, vec![(0, 0), (0, 1), (0, 2), (1, 0), (1, 1), (1, 2)]);
    assert_eq!(m.magnets(), &vec![10, 20, 30]);
    assert_eq!(m.poles(), 2);
}

#[test]
fn no_magnets_or_no_poles() {
    let mut m = MagnetsEqSpaced::<u8, true>::new(Vec::new(), 6);
    assert!(m.next().is_none());
    let mut m = MagnetsEqSpaced::<u8, true>::new(vec![1, 2], 0);
    assert!(m.next().is_none());
}

#[test]
fn placed_polarity() {
    let odd = MagnetPlacement { pole: 1, magnet: 0, invert_polarity: true };
    let even = MagnetPlacement { pole: 2, magnet: 0, invert_polarity: false };
    assert!(!odd.is_north(true));
    assert!(odd.is_north(false));
    assert!(even.is_north(true));
    assert!(!even.is_north(false));
}
