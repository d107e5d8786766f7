use ising::probs::precalculate_probs;

#[test]
fn probs_assembles_table_exactly() {
    let probs = precalculate_probs([0x1000_0000, 0x2000_0000, 0x4000_0000, 0x8000_0000]).unwrap();
    let expected: [u32; 9] = [
        0x1000_0000,
        0x2000_0000,
        0x4000_0000,
        0x8000_0000,
        u32::MAX,
        u32::MAX,
        u32::MAX,
        u32::MAX,
        u32::MAX,
    ];
    assert_eq!(probs, expected);
}

#[test]
fn probs_saturate_for_nonpositive_delta() {
    // Whatever the Boltzmann factors, a flip that does not raise the energy
    // gets the maximum representable threshold, never a wrapped one.
    let inputs: [[u32; 4]; 4] = [
        [0, 0, 0, 0],
        [1, 2, 3, 4],
        [483, 26_390, 1_440_803, 78_665_071],
        [u32::MAX, u32::MAX, u32::MAX, u32::MAX],
    ];
    for raising in inputs {
        let probs = precalculate_probs(raising).unwrap();
        for k in 4..9 {
            assert_eq!(probs[k], u32::MAX, "input {:?} index {}", raising, k);
        }
    }
}

#[test]
fn probs_monotone_in_index() {
    // A costlier flip is never likelier to be accepted: entries are
    // non-decreasing from the largest energy delta down to saturation.
    let inputs: [[u32; 4]; 3] = [
        [0, 0, 0, 0],
        [483, 26_390, 1_440_803, 78_665_071],
        [7, 7, 7, u32::MAX],
    ];
    for raising in inputs {
        let probs = precalculate_probs(raising).unwrap();
        for k in 1..9 {
            assert!(probs[k - 1] <= probs[k], "input {:?} index {}", raising, k);
        }
    }
}

#[test]
fn probs_zero_temperature() {
    // An infinite inverse temperature: every energy-raising flip has
    // threshold zero.
    let probs = precalculate_probs([0, 0, 0, 0]).unwrap();
    assert_eq!(
        probs,
        [0, 0, 0, 0, u32::MAX, u32::MAX, u32::MAX, u32::MAX, u32::MAX]
    );
}

#[test]
fn probs_all_saturated_at_zero_beta() {
    // At beta = 0 every probability is one: all four energy-raising
    // thresholds clamp to the maximum, and the whole table saturates.
    let probs = precalculate_probs([u32::MAX; 4]).unwrap();
    assert_eq!(probs, [u32::MAX; 9]);
}

#[test]
fn probs_reject_decreasing_thresholds() {
    assert!(precalculate_probs([2, 1, 0, 0]).is_none());
    assert!(precalculate_probs([0, 0, 5, 4]).is_none());
    assert!(precalculate_probs([u32::MAX, 0, 0, 0]).is_none());
}
