//! The precomputed Boltzmann acceptance-threshold table.
//!
//! The Metropolis accept test compares a uniform 32-bit draw against a
//! precomputed threshold, so each acceptance probability is stored in fixed
//! point, scaled by 2^32. The caller supplies the four thresholds for the
//! energy-raising flips (the probability exp(-2 * beta * delta) scaled by
//! 2^32 and clamped to fit, for the half energy deltas 4, 3, 2, 1); the
//! library checks them and assembles the full nine-entry table. A flip that
//! does not raise the energy has probability one, which saturates at the
//! largest representable threshold rather than wrapping.

use vstd::prelude::*;

verus! {

/// Whether a threshold sequence never decreases: a costlier flip is never
/// likelier to be accepted.
pub open spec fn non_decreasing(s: Seq<u32>) -> bool {
    forall|j: int, k: int| 0 <= j <= k < s.len() ==> s[j] <= s[k]
}

/// Assemble the nine-entry acceptance-threshold table. Entry `k` stands for
/// the half energy delta `4 - k`; the caller hands in the four energy-raising
/// thresholds, ordered from the largest delta down. The table is produced
/// exactly when those four never decrease; every entry for a flip that does
/// not raise the energy (delta <= 0, indices 4 and above) saturates at the
/// maximum representable threshold, never a wrapped one.
pub fn precalculate_probs(raising: [u32; 4]) -> (r: Option<[u32; 9]>)
    ensures
        match r {
            Some(probs) => {
                &&& non_decreasing(raising@)
                &&& forall|k: int| 0 <= k < 4 ==> #[trigger] probs@[k] == raising@[k]
                &&& forall|k: int| 4 <= k < 9 ==> #[trigger] probs@[k] == u32::MAX
                &&& non_decreasing(probs@)
            },
            None => !non_decreasing(raising@),
        },
{
    if raising[0] <= raising[1] && raising[1] <= raising[2] && raising[2] <= raising[3] {
        let probs: [u32; 9] = [
            raising[0],
            raising[1],
            raising[2],
            raising[3],
            u32::MAX,
            u32::MAX,
            u32::MAX,
            u32::MAX,
            u32::MAX,
        ];
        proof {
            assert(probs@[0] == raising@[0]);
            assert(probs@[1] == raising@[1]);
            assert(probs@[2] == raising@[2]);
            assert(probs@[3] == raising@[3]);
            assert(probs@[4] == u32::MAX);
            assert(probs@[5] == u32::MAX);
            assert(probs@[6] == u32::MAX);
            assert(probs@[7] == u32::MAX);
            assert(probs@[8] == u32::MAX);
        }
        Some(probs)
    } else {
        None
    }
}

} // verus!
