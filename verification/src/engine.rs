//! The Metropolis simulation engine.
//!
//! One step draws a site uniformly, computes the local energy from the four
//! periodic neighbors, and accepts the flip outright when it strictly lowers
//! the energy; otherwise a 32-bit draw is compared against the precomputed
//! threshold for the energy delta, conditionally accepting or rejecting the
//! flip. The engine keeps running tallies of the three outcomes and,
//! optionally, the magnetization after every step.

use crate::lattice::{
    down_index, flip_spin, initialize_lattice, left_index, lemma_mag_bounds, lemma_mag_update,
    magnetization, right_index, up_index, Lattice,
};
use crate::rng::{draw_site, draw_u32};
use rand::rngs::SmallRng;
use vstd::arithmetic::mul::{
    lemma_mul_basics, lemma_mul_strictly_positive, lemma_mul_unary_negation,
};
use vstd::prelude::*;

verus! {

/// Outcome of a single Metropolis step.
#[derive(Clone, Copy, Debug, PartialEq, Eq)]
pub enum Outcome {
    Accepted,
    ConditionallyAccepted,
    Rejected,
}

/// Running tallies of the three step outcomes.
pub struct Counters {
    pub accepted: u64,
    pub conditionally_accepted: u64,
    pub rejected: u64,
}

impl Counters {
    /// Total number of steps accounted for: the three tallies always sum to
    /// the number of steps executed so far.
    pub open spec fn total(&self) -> int {
        self.accepted + self.conditionally_accepted + self.rejected
    }

    /// Fresh tallies, all zero.
    pub fn new() -> (c: Counters)
        ensures
            c.accepted == 0,
            c.conditionally_accepted == 0,
            c.rejected == 0,
    {
        Counters { accepted: 0, conditionally_accepted: 0, rejected: 0 }
    }
}

/// The sum of the four neighbor spins of site `i`.
pub open spec fn neighbor_sum(s: Seq<i8>, rows: int, cols: int, i: int) -> int {
    s[up_index(i, cols, rows * cols)] + s[down_index(i, cols, rows * cols)] + s[left_index(i, cols)]
        + s[right_index(i, cols)]
}

/// The local energy at site `i` before a prospective flip, with the
/// ferromagnetic coupling constant fixed at +1. Flipping the site negates it,
/// so the energy change of a flip is minus twice this value.
pub open spec fn energy_old_at(s: Seq<i8>, rows: int, cols: int, i: int) -> int {
    -(s[i] * neighbor_sum(s, rows, cols, i))
}

/// The Metropolis decision for one step: a flip that strictly lowers the
/// local energy is accepted outright; any other flip is accepted exactly when
/// the 32-bit draw falls below the threshold stored for its energy delta.
pub open spec fn outcome_of(energy_old: int, draw: u32, probs: Seq<u32>) -> Outcome {
    if -energy_old < 0 {
        Outcome::Accepted
    } else if (draw as int) < probs[4 + energy_old] {
        Outcome::ConditionallyAccepted
    } else {
        Outcome::Rejected
    }
}

/// A flip that strictly lowers the local energy is accepted unconditionally,
/// whatever the draw and whatever the table.
pub proof fn lemma_favorable_accepts(energy_old: int, draw: u32, probs: Seq<u32>)
    requires
        energy_old > 0,
    ensures
        outcome_of(energy_old, draw, probs) == Outcome::Accepted,
{
}

/// When the threshold stored for an attempt that does not lower the energy is
/// zero, no draw can fall below it: the attempt is rejected, never
/// conditionally accepted, for every draw.
pub proof fn lemma_zero_threshold_rejects(energy_old: int, draw: u32, probs: Seq<u32>)
    requires
        -4 <= energy_old <= 0,
        probs[4 + energy_old] == 0,
    ensures
        outcome_of(energy_old, draw, probs) == Outcome::Rejected,
{
}

/// Compute the local energy at `site` before a prospective flip.
pub fn local_energy(l: &Lattice, site: usize) -> (e: i8)
    requires
        l.wf(),
        site < l@.len(),
    ensures
        e == energy_old_at(l@, l.nrows() as int, l.ncols() as int, site as int),
        -4 <= e <= 4,
{
    let (up, down, left, right) = l.get_neigbors(site);
    let s: i8 = l.get(site);
    let sum: i8 = l.get(up) + l.get(down) + l.get(left) + l.get(right);
    let e: i8 = if s == 1i8 {
        -sum
    } else {
        sum
    };
    proof {
        let ns = neighbor_sum(l@, l.nrows() as int, l.ncols() as int, site as int);
        lemma_mul_basics(ns);
        lemma_mul_unary_negation(1int, ns);
    }
    e
}

/// Execute one Metropolis step with the chosen site and the 32-bit draw
/// given: flip the spin exactly when the outcome is not a rejection, and
/// increment exactly the tally of the outcome.
pub fn step(l: &mut Lattice, c: &mut Counters, probs: &[u32; 9], site: usize, draw: u32) -> (o:
    Outcome)
    requires
        old(l).wf(),
        site < old(l)@.len(),
        old(c).total() < u64::MAX,
    ensures
        final(l).wf(),
        final(l).nrows() == old(l).nrows(),
        final(l).ncols() == old(l).ncols(),
        o == outcome_of(
            energy_old_at(old(l)@, old(l).nrows() as int, old(l).ncols() as int, site as int),
            draw,
            probs@,
        ),
        o == Outcome::Rejected ==> final(l)@ == old(l)@,
        o != Outcome::Rejected ==> final(l)@ == old(l)@.update(
            site as int,
            flip_spin(old(l)@[site as int]),
        ),
        final(c).accepted == old(c).accepted + (if o == Outcome::Accepted { 1int } else { 0int }),
        final(c).conditionally_accepted == old(c).conditionally_accepted + (
        if o == Outcome::ConditionallyAccepted {
            1int
        } else {
            0int
        }),
        final(c).rejected == old(c).rejected + (if o == Outcome::Rejected { 1int } else { 0int }),
        final(c).total() == old(c).total() + 1,
        magnetization(final(l)@) == magnetization(old(l)@) + (
        if o == Outcome::Rejected {
            0int
        } else {
            -2 * old(l)@[site as int]
        }),
{
    let e: i8 = local_energy(l, site);
    if 0 < e {
        proof {
            lemma_mag_update(l@, site as int, flip_spin(l@[site as int]));
        }
        l.flip(site);
        c.accepted = c.accepted + 1;
        Outcome::Accepted
    } else {
        let d: u32 = draw;
        let idx: usize = (4 + e) as usize;
        if d < probs[idx] {
            proof {
                lemma_mag_update(l@, site as int, flip_spin(l@[site as int]));
            }
            l.flip(site);
            c.conditionally_accepted = c.conditionally_accepted + 1;
            Outcome::ConditionallyAccepted
        } else {
            c.rejected = c.rejected + 1;
            Outcome::Rejected
        }
    }
}

/// Configuration of one simulation run.
pub struct RunParams {
    pub steps: usize,
    pub track_count: bool,
}

impl RunParams {
    /// Whether the configuration is runnable: there must be room for one
    /// trace entry per step plus the initial one.
    pub open spec fn wf(&self) -> bool {
        self.steps < usize::MAX
    }

    /// Check the configuration; `run` requires a configuration for which this
    /// yields true.
    pub fn check(&self) -> (ok: bool)
        ensures
            ok == self.wf(),
    {
        self.steps < usize::MAX
    }
}

/// Results of a run: the outcome tallies and, when it was tracked, the
/// magnetization trace, with one entry for the starting lattice followed by
/// one entry per step.
pub struct RunResult {
    pub counters: Counters,
    pub count: Vec<i64>,
}

/// Run a full Metropolis simulation on the given lattice: execute the
/// configured number of steps and tally every outcome. The tallies always
/// sum to the step count; the tracked trace starts at the magnetization of
/// the starting lattice, moves by 0 or +-2 per step, and ends exactly at the
/// total magnetization of the final lattice.
pub fn run(rng: &mut SmallRng, lattice: &mut Lattice, params: &RunParams, probs: &[u32; 9]) -> (r:
    RunResult)
    requires
        old(lattice).wf(),
        params.wf(),
    ensures
        final(lattice).wf(),
        final(lattice).nrows() == old(lattice).nrows(),
        final(lattice).ncols() == old(lattice).ncols(),
        r.counters.total() == params.steps,
        params.track_count ==> r.count@.len() == params.steps + 1,
        params.track_count ==> r.count@[0] == magnetization(old(lattice)@),
        params.track_count ==> r.count@[r.count@.len() - 1] == magnetization(final(lattice)@),
        params.track_count ==> forall|t: int|
            0 < t < r.count@.len() ==> {
                let d = (#[trigger] r.count@[t]) - r.count@[t - 1];
                d == 0 || d == 2 || d == -2
            },
        !params.track_count ==> r.count@.len() == 0,
{
    let mut counters: Counters = Counters::new();
    let mut count: Vec<i64> = Vec::new();
    let len: usize = lattice.len();
    proof {
        lemma_mul_strictly_positive(lattice.nrows() as int, lattice.ncols() as int);
    }
    if params.track_count {
        let m0: i64 = lattice.magnetization();
        count.push(m0);
    }
    let mut i: usize = 0;
    while i < params.steps
        invariant
            lattice.wf(),
            lattice.nrows() == old(lattice).nrows(),
            lattice.ncols() == old(lattice).ncols(),
            len == lattice@.len(),
            len >= 1,
            i <= params.steps,
            params.steps < usize::MAX,
            counters.total() == i,
            params.track_count ==> count@.len() == i + 1,
            params.track_count ==> count@[0] == magnetization(old(lattice)@),
            params.track_count ==> count@[count@.len() - 1] == magnetization(lattice@),
            params.track_count ==> forall|t: int|
                0 < t < count@.len() ==> {
                    let d = (#[trigger] count@[t]) - count@[t - 1];
                    d == 0 || d == 2 || d == -2
                },
            !params.track_count ==> count@.len() == 0,
        decreases params.steps - i,
    {
        let site: usize = draw_site(rng, len);
        let e: i8 = local_energy(lattice, site);
        let s: i8 = lattice.get(site);
        let d: u32 = if 0 < e {
            0u32
        } else {
            draw_u32(rng)
        };
        let o: Outcome = step(lattice, &mut counters, probs, site, d);
        if params.track_count {
            proof {
                lemma_mag_bounds(lattice@);
            }
            let prev: i64 = count[count.len() - 1];
            let next: i64 = match o {
                Outcome::Rejected => prev,
                _ => prev + (-2) * (s as i64),
            };
            count.push(next);
        }
        i = i + 1;
    }
    RunResult { counters, count }
}

/// The post-run consistency check: an empty trace passes, and a tracked trace
/// passes exactly when its final entry equals the independently recomputed
/// total magnetization of the lattice. For results of `run` this is proved to
/// hold, so a failure would indicate a bookkeeping defect, not a recoverable
/// condition.
pub fn check_count(lattice: &Lattice, count: &Vec<i64>) -> (ok: bool)
    requires
        lattice.wf(),
    ensures
        ok == (count@.len() == 0 || count@[count@.len() - 1] == magnetization(lattice@)),
{
    if count.len() == 0 {
        return true;
    }
    let last: i64 = count[count.len() - 1];
    let m: i64 = lattice.magnetization();
    last == m
}

} // verus!
