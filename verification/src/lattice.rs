//! The spin lattice: a flat array of spins on a periodic square grid.
//!
//! Logical position (r, c) lives at flat index `r * cols + c`. Every site
//! holds exactly +1 or -1 at all times, and the four nearest neighbors of a
//! site are resolved with periodic (wrap-around) boundary conditions.

use crate::rng::draw_u32;
use rand::rngs::SmallRng;
use vstd::arithmetic::div_mod::{
    lemma_fundamental_div_mod, lemma_fundamental_div_mod_converse_mod,
    lemma_mod_add_multiples_vanish, lemma_mod_multiples_basic, lemma_mod_self_0, lemma_small_mod,
};
use vstd::arithmetic::mul::{
    lemma_mul_basics, lemma_mul_inequality, lemma_mul_is_commutative,
    lemma_mul_is_distributive_add_other_way, lemma_mul_is_distributive_sub_other_way,
};
use vstd::prelude::*;

verus! {

/// A spin value: every lattice site holds exactly +1 or -1.
pub open spec fn spin_ok(s: i8) -> bool {
    s == 1i8 || s == -1i8
}

/// The negated spin, for values satisfying `spin_ok`.
pub open spec fn flip_spin(s: i8) -> i8 {
    if s == 1i8 {
        -1i8
    } else {
        1i8
    }
}

/// Flat index of the site above `i`: one row up, wrapping to the bottom row.
pub open spec fn up_index(i: int, cols: int, len: int) -> int {
    if i >= cols {
        i - cols
    } else {
        i + len - cols
    }
}

/// Flat index of the site below `i`: one row down, wrapping to the top row.
pub open spec fn down_index(i: int, cols: int, len: int) -> int {
    if i < len - cols {
        i + cols
    } else {
        i - (len - cols)
    }
}

/// Flat index of the site left of `i`, wrapping to the rightmost column.
pub open spec fn left_index(i: int, cols: int) -> int {
    if i % cols != 0 {
        i - 1
    } else {
        i + cols - 1
    }
}

/// Flat index of the site right of `i`, wrapping to the leftmost column.
pub open spec fn right_index(i: int, cols: int) -> int {
    if (i + 1) % cols != 0 {
        i + 1
    } else {
        i + 1 - cols
    }
}

/// Total magnetization of a spin sequence: the sum of all spins, which equals
/// the count of +1 sites minus the count of -1 sites.
pub open spec fn magnetization(s: Seq<i8>) -> int
    decreases s.len(),
{
    if s.len() == 0 {
        0
    } else {
        magnetization(s.drop_last()) + s.last()
    }
}

/// The magnetization of a sequence of spins is bounded by the site count.
pub proof fn lemma_mag_bounds(s: Seq<i8>)
    requires
        forall|i: int| 0 <= i < s.len() ==> spin_ok(#[trigger] s[i]),
    ensures
        -(s.len() as int) <= magnetization(s) <= s.len() as int,
    decreases s.len(),
{
    if s.len() > 0 {
        assert(forall|i: int| 0 <= i < s.drop_last().len() ==> spin_ok(#[trigger] s.drop_last()[i]));
        lemma_mag_bounds(s.drop_last());
    }
}

/// Overwriting one site changes the magnetization by the difference of the
/// new and old spin values.
pub proof fn lemma_mag_update(s: Seq<i8>, i: int, v: i8)
    requires
        0 <= i < s.len(),
    ensures
        magnetization(s.update(i, v)) == magnetization(s) + v - s[i],
    decreases s.len(),
{
    let t = s.update(i, v);
    if i == s.len() - 1 {
        assert(t.drop_last() =~= s.drop_last());
    } else {
        assert(t.drop_last() =~= s.drop_last().update(i, v));
        lemma_mag_update(s.drop_last(), i, v);
    }
}

proof fn lemma_mag_take_step(s: Seq<i8>, i: int)
    requires
        0 <= i < s.len(),
    ensures
        magnetization(s.take(i + 1)) == magnetization(s.take(i)) + s[i],
{
    assert(s.take(i + 1).drop_last() =~= s.take(i));
    assert(s.take(i + 1).last() == s[i]);
}

/// Whether the given spins, row count and column count make a well-formed
/// lattice: positive dimensions, one spin per site, every spin +1 or -1, and
/// a site count small enough for the magnetization to fit a signed 64-bit
/// machine word.
pub open spec fn valid_lattice(spins: Seq<i8>, rows: int, cols: int) -> bool {
    &&& rows >= 1
    &&& cols >= 1
    &&& spins.len() == rows * cols
    &&& spins.len() <= i64::MAX
    &&& forall|i: int| 0 <= i < spins.len() ==> spin_ok(#[trigger] spins[i])
}

/// The spin lattice. The flat spin array has length `rows * cols`, and every
/// element is +1 or -1 at all times; no other value is ever observable.
pub struct Lattice {
    spins: Vec<i8>,
    rows: usize,
    cols: usize,
}

impl View for Lattice {
    type V = Seq<i8>;

    closed spec fn view(&self) -> Seq<i8> {
        self.spins@
    }
}

impl Lattice {
    /// Number of rows of the grid.
    pub closed spec fn nrows(&self) -> nat {
        self.rows as nat
    }

    /// Number of columns of the grid.
    pub closed spec fn ncols(&self) -> nat {
        self.cols as nat
    }

    /// The lattice invariant.
    pub open spec fn wf(&self) -> bool {
        valid_lattice(self@, self.nrows() as int, self.ncols() as int)
    }

    /// Build a lattice from explicit spin values. Yields a lattice exactly
    /// when the inputs are valid: positive dimensions, `rows * cols` spins,
    /// and every spin +1 or -1.
    pub fn from_spins(spins: Vec<i8>, rows: usize, cols: usize) -> (r: Option<Lattice>)
        ensures
            match r {
                Some(l) => {
                    &&& valid_lattice(spins@, rows as int, cols as int)
                    &&& l.wf()
                    &&& l@ == spins@
                    &&& l.nrows() == rows
                    &&& l.ncols() == cols
                },
                None => !valid_lattice(spins@, rows as int, cols as int),
            },
    {
        if rows < 1 || cols < 1 {
            return None;
        }
        let n: usize = spins.len();
        let len_ok: bool = match rows.checked_mul(cols) {
            Some(p) => p == n,
            None => false,
        };
        if !len_ok {
            return None;
        }
        if (spins.len() as u64) > (i64::MAX as u64) {
            return None;
        }
        let mut i: usize = 0;
        while i < spins.len()
            invariant
                i <= spins@.len(),
                forall|j: int| 0 <= j < i ==> spin_ok(#[trigger] spins@[j]),
            decreases spins@.len() - i,
        {
            let s: i8 = spins[i];
            if s != 1i8 && s != -1i8 {
                return None;
            }
            i = i + 1;
        }
        Some(Lattice { spins, rows, cols })
    }

    /// Read the spin at flat index `i`.
    pub fn get(&self, i: usize) -> (s: i8)
        requires
            self.wf(),
            i < self@.len(),
        ensures
            s == self@[i as int],
            spin_ok(s),
    {
        self.spins[i]
    }

    /// Negate the spin at flat index `i`.
    pub fn flip(&mut self, i: usize)
        requires
            old(self).wf(),
            i < old(self)@.len(),
        ensures
            final(self).wf(),
            final(self).nrows() == old(self).nrows(),
            final(self).ncols() == old(self).ncols(),
            final(self)@ == old(self)@.update(i as int, flip_spin(old(self)@[i as int])),
    {
        let s: i8 = self.spins[i];
        self.spins[i] = -s;
    }

    /// Number of rows of the grid.
    pub fn num_rows(&self) -> (r: usize)
        ensures
            r == self.nrows(),
    {
        self.rows
    }

    /// Number of columns of the grid.
    pub fn num_cols(&self) -> (c: usize)
        ensures
            c == self.ncols(),
    {
        self.cols
    }

    /// Number of sites.
    pub fn len(&self) -> (n: usize)
        ensures
            n == self@.len(),
    {
        self.spins.len()
    }

    /// Read-only access to the whole spin array, for handing a snapshot to a
    /// visualization sink.
    pub fn spin_values(&self) -> (v: &Vec<i8>)
        ensures
            v@ == self@,
    {
        &self.spins
    }

    /// The four nearest-neighbor flat indices of `i` under periodic boundary
    /// conditions, in the order (up, down, left, right).
    pub fn get_neigbors(&self, i: usize) -> (r: (usize, usize, usize, usize))
        requires
            self.wf(),
            i < self@.len(),
        ensures
            r.0 == up_index(i as int, self.ncols() as int, self@.len() as int),
            r.1 == down_index(i as int, self.ncols() as int, self@.len() as int),
            r.2 == left_index(i as int, self.ncols() as int),
            r.3 == right_index(i as int, self.ncols() as int),
            r.0 < self@.len(),
            r.1 < self@.len(),
            r.2 < self@.len(),
            r.3 < self@.len(),
    {
        let len: usize = self.spins.len();
        let cols: usize = self.cols;
        proof {
            lemma_cols_le_len(self.nrows() as int, cols as int);
        }
        let up: usize = if i >= cols {
            i - cols
        } else {
            i + (len - cols)
        };
        let down: usize = if i < len - cols {
            i + cols
        } else {
            i - (len - cols)
        };
        let left: usize = if i % cols != 0 {
            proof {
                lemma_small_mod(0nat, cols as nat);
            }
            i - 1
        } else {
            proof {
                lemma_multiple_has_room(i as int, self.nrows() as int, cols as int);
            }
            i + cols - 1
        };
        let right: usize = if (i + 1) % cols != 0 {
            proof {
                if i + 1 == len {
                    lemma_mod_multiples_basic(self.nrows() as int, cols as int);
                }
            }
            i + 1
        } else {
            proof {
                lemma_positive_multiple_ge(i as int + 1, cols as int);
            }
            i + 1 - cols
        };
        (up, down, left, right)
    }

    /// Compute the total magnetization: the sum of all spins.
    pub fn magnetization(&self) -> (m: i64)
        requires
            self.wf(),
        ensures
            m == magnetization(self@),
    {
        let n: usize = self.spins.len();
        let mut m: i64 = 0;
        let mut i: usize = 0;
        while i < n
            invariant
                self.wf(),
                n == self@.len(),
                i <= n,
                m == magnetization(self@.take(i as int)),
                -(i as int) <= m <= i as int,
            decreases n - i,
        {
            let s: i8 = self.spins[i];
            proof {
                lemma_mag_take_step(self@, i as int);
            }
            m = m + (s as i64);
            i = i + 1;
        }
        proof {
            assert(self@.take(n as int) =~= self@);
        }
        m
    }
}

/// A positive grid has at least one full row, so `cols <= rows * cols`.
proof fn lemma_cols_le_len(rows: int, cols: int)
    requires
        rows >= 1,
        cols >= 0,
    ensures
        cols <= rows * cols,
{
    lemma_mul_inequality(1, rows, cols);
}

/// A multiple of `cols` strictly below `rows * cols` leaves room for one more
/// full row.
proof fn lemma_multiple_has_room(i: int, rows: int, cols: int)
    requires
        rows >= 1,
        cols >= 1,
        0 <= i < rows * cols,
        i % cols == 0,
    ensures
        i + cols <= rows * cols,
{
    lemma_fundamental_div_mod(i, cols);
    let q = i / cols;
    if q >= rows {
        lemma_mul_inequality(rows, q, cols);
        lemma_mul_is_commutative(q, cols);
        lemma_mul_is_commutative(rows, cols);
    }
    lemma_mul_inequality(q + 1, rows, cols);
    lemma_mul_is_distributive_add_other_way(cols, q, 1);
    lemma_mul_is_commutative(q + 1, cols);
    lemma_mul_is_commutative(q, cols);
}

/// A positive multiple of `cols` is at least `cols`.
proof fn lemma_positive_multiple_ge(m: int, cols: int)
    requires
        cols >= 1,
        m >= 1,
        m % cols == 0,
    ensures
        m >= cols,
{
    lemma_fundamental_div_mod(m, cols);
    let q = m / cols;
    if q <= 0 {
        lemma_mul_inequality(q, 0, cols);
        lemma_mul_is_commutative(q, cols);
    }
    lemma_mul_inequality(1, q, cols);
    lemma_mul_is_commutative(q, cols);
}

/// Neighbor correctness: on a `rows` x `cols` periodic grid, the flat-index
/// neighbor formulas realize modular row and column arithmetic. For the site
/// at row `r` and column `c`, the neighbor above is at row (r - 1) mod rows,
/// the one below at row (r + 1) mod rows (same column), and the left and
/// right neighbors are at columns (c - 1) mod cols and (c + 1) mod cols
/// (same row).
pub proof fn lemma_neighbors_rowcol(r: int, c: int, rows: int, cols: int)
    requires
        rows >= 1,
        cols >= 1,
        0 <= r < rows,
        0 <= c < cols,
    ensures
        up_index(r * cols + c, cols, rows * cols) == ((r + rows - 1) % rows) * cols + c,
        down_index(r * cols + c, cols, rows * cols) == ((r + 1) % rows) * cols + c,
        left_index(r * cols + c, cols) == r * cols + ((c + cols - 1) % cols),
        right_index(r * cols + c, cols) == r * cols + ((c + 1) % cols),
{
    let i = r * cols + c;
    let len = rows * cols;
    lemma_mul_basics(cols);
    lemma_mul_is_distributive_sub_other_way(cols, rows, 1);
    lemma_mul_inequality(r, rows - 1, cols);
    assert(i < len);
    // The neighbor above: one row up, wrapping to the bottom row.
    if r >= 1 {
        lemma_mul_inequality(1, r, cols);
        assert(i >= cols);
        lemma_mul_is_distributive_sub_other_way(cols, r, 1);
        lemma_mod_add_multiples_vanish(r - 1, rows);
        lemma_small_mod((r - 1) as nat, rows as nat);
        assert(up_index(i, cols, len) == (r - 1) * cols + c);
    } else {
        assert(i < cols);
        lemma_small_mod((rows - 1) as nat, rows as nat);
        assert(up_index(i, cols, len) == c + len - cols);
        assert((rows - 1) * cols == len - cols);
    }
    // The neighbor below: one row down, wrapping to the top row.
    if r < rows - 1 {
        lemma_mul_is_distributive_sub_other_way(cols, rows, 2);
        lemma_mul_inequality(r, rows - 2, cols);
        assert(i < len - cols);
        lemma_mul_is_distributive_add_other_way(cols, r, 1);
        lemma_small_mod((r + 1) as nat, rows as nat);
        assert(down_index(i, cols, len) == (r + 1) * cols + c);
    } else {
        assert(r == rows - 1);
        assert(i >= len - cols);
        lemma_mod_self_0(rows);
        assert(down_index(i, cols, len) == i - (len - cols));
        assert(i - (len - cols) == c);
        assert(((r + 1) % rows) * cols == 0);
    }
    // The left neighbor, wrapping to the rightmost column.
    if c >= 1 {
        lemma_fundamental_div_mod_converse_mod(i, cols, r, c);
        assert(i % cols == c);
        lemma_mod_add_multiples_vanish(c - 1, cols);
        lemma_small_mod((c - 1) as nat, cols as nat);
        assert(left_index(i, cols) == i - 1);
    } else {
        lemma_fundamental_div_mod_converse_mod(i, cols, r, 0);
        assert(i % cols == 0);
        lemma_small_mod((cols - 1) as nat, cols as nat);
        assert(left_index(i, cols) == i + cols - 1);
    }
    // The right neighbor, wrapping to the leftmost column.
    if c < cols - 1 {
        lemma_fundamental_div_mod_converse_mod(i + 1, cols, r, c + 1);
        assert((i + 1) % cols == c + 1);
        lemma_small_mod((c + 1) as nat, cols as nat);
        assert(right_index(i, cols) == i + 1);
    } else {
        lemma_mul_is_distributive_add_other_way(cols, r, 1);
        assert(i + 1 == (r + 1) * cols);
        lemma_fundamental_div_mod_converse_mod(i + 1, cols, r + 1, 0);
        assert((i + 1) % cols == 0);
        lemma_mod_self_0(cols);
        assert(right_index(i, cols) == i + 1 - cols);
        assert(i + 1 - cols == r * cols);
    }
}

/// The spin a single 32-bit draw decides: +1 exactly when the draw is odd.
/// The lowest bit of a uniform draw is one unbiased coin flip, so each site
/// gets its own fair coin, not reused raw random bytes.
pub open spec fn spin_of_draw(d: u32) -> i8 {
    if d % 2 == 1 {
        1i8
    } else {
        -1i8
    }
}

/// Map one drawn 32-bit value to the spin it decides.
pub fn spin_from_draw(d: u32) -> (s: i8)
    ensures
        s == spin_of_draw(d),
        spin_ok(s),
{
    if d % 2 == 1 {
        1i8
    } else {
        -1i8
    }
}

/// Fill every site independently with +1 or -1: one fresh draw per site,
/// turned into a spin by `spin_from_draw`, whose contract fixes the spin for
/// every value the generator can yield.
pub fn initialize_lattice(rng: &mut SmallRng, rows: usize, cols: usize) -> (l: Lattice)
    requires
        rows >= 1,
        cols >= 1,
        rows * cols <= usize::MAX,
        rows * cols <= i64::MAX,
    ensures
        l.wf(),
        l.nrows() == rows,
        l.ncols() == cols,
{
    let len: usize = rows * cols;
    let mut spins: Vec<i8> = Vec::new();
    let mut i: usize = 0;
    while i < len
        invariant
            i <= len,
            spins@.len() == i,
            forall|j: int| 0 <= j < i ==> spin_ok(#[trigger] spins@[j]),
        decreases len - i,
    {
        let d: u32 = draw_u32(rng);
        let s: i8 = spin_from_draw(d);
        spins.push(s);
        i = i + 1;
    }
    Lattice { spins, rows, cols }
}

} // verus!
