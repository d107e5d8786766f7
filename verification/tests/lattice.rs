use ising::lattice::{initialize_lattice, spin_from_draw, Lattice};
use rand::rngs::SmallRng;
use rand::Rng;
use rand::SeedableRng;

fn all_plus(n: usize) -> Vec<i8> {
    vec![1i8; n]
}

#[test]
fn neighbors_4x4_full_table() {
    // Hand-computed periodic neighbors (up, down, left, right) on a 4x4 grid,
    // covering all four corners and every edge row and column.
    let expected: [(usize, usize, usize, usize); 16] = [
        (12, 4, 3, 1),
        (13, 5, 0, 2),
        (14, 6, 1, 3),
        (15, 7, 2, 0),
        (0, 8, 7, 5),
        (1, 9, 4, 6),
        (2, 10, 5, 7),
        (3, 11, 6, 4),
        (4, 12, 11, 9),
        (5, 13, 8, 10),
        (6, 14, 9, 11),
        (7, 15, 10, 8),
        (8, 0, 15, 13),
        (9, 1, 12, 14),
        (10, 2, 13, 15),
        (11, 3, 14, 12),
    ];
    let l = Lattice::from_spins(all_plus(16), 4, 4).unwrap();
    let mut i: usize = 0;
    while i < 16 {
        assert_eq!(l.get_neigbors(i), expected[i], "site {}", i);
        i += 1;
    }
}

#[test]
fn neighbors_single_row() {
    // On a 1x4 grid the vertical neighbors wrap back to the site itself.
    let l = Lattice::from_spins(all_plus(4), 1, 4).unwrap();
    assert_eq!(l.get_neigbors(0), (0, 0, 3, 1));
    assert_eq!(l.get_neigbors(3), (3, 3, 2, 0));
}

#[test]
fn neighbors_single_column() {
    // On a 4x1 grid the horizontal neighbors wrap back to the site itself.
    let l = Lattice::from_spins(all_plus(4), 4, 1).unwrap();
    assert_eq!(l.get_neigbors(0), (3, 1, 0, 0));
    assert_eq!(l.get_neigbors(3), (2, 0, 3, 3));
}

#[test]
fn from_spins_rejects_invalid() {
    // A spin other than +1 or -1.
    assert!(Lattice::from_spins(vec![1i8, 0i8, 1i8, 1i8], 2, 2).is_none());
    // Wrong number of sites.
    assert!(Lattice::from_spins(all_plus(5), 2, 2).is_none());
    // Degenerate dimensions.
    assert!(Lattice::from_spins(Vec::new(), 0, 4).is_none());
    assert!(Lattice::from_spins(Vec::new(), 4, 0).is_none());
}

#[test]
fn from_spins_accepts_valid() {
    let l = Lattice::from_spins(vec![1i8, -1i8, -1i8, 1i8, 1i8, -1i8], 2, 3).unwrap();
    assert_eq!(l.num_rows(), 2);
    assert_eq!(l.num_cols(), 3);
    assert_eq!(l.len(), 6);
    assert_eq!(l.get(1), -1i8);
    assert_eq!(l.spin_values().as_slice(), &[1i8, -1, -1, 1, 1, -1]);
}

#[test]
fn flip_negates_single_site() {
    let mut l = Lattice::from_spins(vec![1i8, -1i8, 1i8, 1i8], 2, 2).unwrap();
    l.flip(1);
    assert_eq!(l.spin_values().as_slice(), &[1i8, 1, 1, 1]);
    l.flip(0);
    assert_eq!(l.spin_values().as_slice(), &[-1i8, 1, 1, 1]);
}

#[test]
fn magnetization_exact() {
    let l = Lattice::from_spins(vec![1i8, 1i8, 1i8, -1i8], 2, 2).unwrap();
    assert_eq!(l.magnetization(), 2);
    let l = Lattice::from_spins(vec![-1i8; 9], 3, 3).unwrap();
    assert_eq!(l.magnetization(), -9);
    let l = Lattice::from_spins(vec![1i8, -1i8], 1, 2).unwrap();
    assert_eq!(l.magnetization(), 0);
}

#[test]
fn spin_from_draw_parity_rule() {
    // +1 exactly when the draw is odd: the lowest bit is the coin.
    assert_eq!(spin_from_draw(0), -1i8);
    assert_eq!(spin_from_draw(1), 1i8);
    assert_eq!(spin_from_draw(2), -1i8);
    assert_eq!(spin_from_draw(0x8000_0000), -1i8);
    assert_eq!(spin_from_draw(u32::MAX), 1i8);
}

#[test]
fn initialize_matches_replayed_draws() {
    // Replaying the same seed stream by hand and mapping each draw through
    // the per-draw rule reproduces the initialized lattice exactly: one
    // fresh draw per site, in site order.
    let mut rng = SmallRng::seed_from_u64(42);
    let l = initialize_lattice(&mut rng, 6, 7);
    let mut replay = SmallRng::seed_from_u64(42);
    for i in 0..42 {
        let d: u32 = replay.gen::<u32>();
        assert_eq!(l.get(i), spin_from_draw(d), "site {}", i);
    }
}

#[test]
fn initialize_lattice_shape_and_values() {
    let mut rng = SmallRng::seed_from_u64(7);
    let l = initialize_lattice(&mut rng, 8, 5);
    assert_eq!(l.num_rows(), 8);
    assert_eq!(l.num_cols(), 5);
    assert_eq!(l.len(), 40);
    for i in 0..40 {
        let s = l.get(i);
        assert!(s == 1i8 || s == -1i8);
    }
    // A seeded initialization is not all one value: both spins occur.
    let v = l.spin_values();
    assert!(v.iter().any(|s| *s == 1i8));
    assert!(v.iter().any(|s| *s == -1i8));
}
