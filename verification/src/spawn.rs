//! Placement of new particles on a jittered grid.
//!
//! Particles are laid out row by row: the `k`-th particle of a batch sits in
//! column `1 + k % (cols_end - 1)` and row `1 + k / (cols_end - 1)` of the
//! grid, `SPACING_X` pixels apart horizontally and `CELL` pixels apart
//! vertically, shifted by the grid's origin. Its horizontal position is
//! further jittered by a random whole number in `[0, JITTER_SPAN)`, and it is
//! lifted by `LIFT_Y`. Grid cells past the last row are never used: a batch
//! holds at most `capacity()` particles.

use vstd::prelude::*;
use crate::rng::gen_range_i32;

verus! {

/// Width of the window, in pixels.
pub const WINDOW_WIDTH: i32 = 1600;
/// Height of the window, in pixels.
pub const WINDOW_HEIGHT: i32 = 900;
/// Size of one grid cell (the smoothing length of the simulation, as a
/// whole number of pixels).
pub const CELL: i32 = 16;
/// Horizontal distance between neighbouring spawned particles: two pixels
/// less than a cell.
pub const SPACING_X: i32 = 14;
/// Vertical offset added to a spawned particle's grid position, in pixels.
pub const LIFT_Y: i32 = 20;
/// The horizontal jitter of a spawned particle lies in `[0, JITTER_SPAN)`.
pub const JITTER_SPAN: i32 = 10;

/// One particle to create: its position on the grid and its jitter.
/// The particle's position is `(base_x + jitter, base_y + LIFT_Y)`, which
/// the renderer computes in floating point.
#[derive(Clone, Copy, Debug, PartialEq, Eq)]
pub struct SpawnPoint {
    pub base_x: i32,
    pub base_y: i32,
    pub jitter: i32,
}

/// A grid on which a batch of particles is placed. Columns `1..cols_end`
/// and rows `1..rows_end` are used, in row-major order.
#[derive(Clone, Copy, Debug, PartialEq, Eq)]
pub struct SpawnGrid {
    pub origin_x: i32,
    pub origin_y: i32,
    pub cols_end: i32,
    pub rows_end: i32,
}

pub open spec fn min_int(a: int, b: int) -> int {
    if a <= b { a } else { b }
}

impl SpawnGrid {
    /// The grid has at least one cell and is no larger than the window.
    pub open spec fn wf(self) -> bool {
        &&& 2 <= self.cols_end <= WINDOW_WIDTH
        &&& 2 <= self.rows_end <= WINDOW_HEIGHT
    }

    pub open spec fn per_row(self) -> int {
        self.cols_end - 1
    }

    /// Number of cells of the grid.
    pub open spec fn spec_capacity(self) -> int {
        (self.cols_end - 1) * (self.rows_end - 1)
    }

    /// Number of particles that a request for `count` places.
    pub open spec fn placed(self, count: int) -> int {
        min_int(count, self.spec_capacity())
    }

    /// Column of the `k`-th placed particle.
    pub open spec fn slot_col(self, k: int) -> int {
        1 + k % self.per_row()
    }

    /// Row of the `k`-th placed particle.
    pub open spec fn slot_row(self, k: int) -> int {
        1 + k / self.per_row()
    }

    pub open spec fn base_x(self, k: int) -> int {
        self.origin_x + SPACING_X * self.slot_col(k)
    }

    pub open spec fn base_y(self, k: int) -> int {
        self.origin_y + CELL * self.slot_row(k)
    }

    /// Largest horizontal offset from the origin among the first `n` cells.
    pub open spec fn max_dx(self, n: int) -> int {
        if n <= 0 { 0 } else { SPACING_X * min_int(n, self.per_row()) }
    }

    /// Largest vertical offset from the origin among the first `n` cells.
    pub open spec fn max_dy(self, n: int) -> int {
        if n <= 0 { 0 } else { CELL * (1 + (n - 1) / self.per_row()) }
    }

    /// Placing `count` particles on this grid stays within `i32`.
    pub open spec fn spec_fits(self, count: int) -> bool {
        &&& self.origin_x + self.max_dx(self.placed(count)) <= i32::MAX
        &&& self.origin_y + self.max_dy(self.placed(count)) <= i32::MAX
    }

    /// The grid of `initial()`.
    pub open spec fn initial_spec() -> SpawnGrid {
        SpawnGrid { origin_x: 0, origin_y: 0, cols_end: 50, rows_end: 56 }
    }

    /// The grid on which the particles present at start-up are laid out:
    /// the left half of the window, from its top-left corner.
    pub fn initial() -> (g: SpawnGrid)
        ensures
            g == SpawnGrid::initial_spec(),
            g.wf(),
            g.origin_x == 0,
            g.origin_y == 0,
            g.cols_end == 50, // (WINDOW_WIDTH / 2) / CELL
            g.rows_end == 56, // WINDOW_HEIGHT / CELL
    {
        SpawnGrid { origin_x: 0, origin_y: 0, cols_end: (WINDOW_WIDTH / 2) / CELL, rows_end: WINDOW_HEIGHT / CELL }
    }

    /// The grid on which a burst of particles is dropped at a point:
    /// a sixth of the window wide, with its origin at that point.
    pub fn burst(x: i32, y: i32) -> (g: SpawnGrid)
        ensures
            g.wf(),
            g.origin_x == x,
            g.origin_y == y,
            g.cols_end == 16, // (WINDOW_WIDTH / 6) / CELL
            g.rows_end == 56, // WINDOW_HEIGHT / CELL
    {
        SpawnGrid { origin_x: x, origin_y: y, cols_end: (WINDOW_WIDTH / 6) / CELL, rows_end: WINDOW_HEIGHT / CELL }
    }

    /// Number of cells of the grid.
    pub fn capacity(&self) -> (c: usize)
        requires
            self.wf(),
        ensures
            c == self.spec_capacity(),
            c <= 1599 * 899,
    {
        let a: usize = (self.cols_end - 1) as usize;
        let b: usize = (self.rows_end - 1) as usize;
        assert(a * b <= 1599 * 899) by (nonlinear_arith)
            requires a <= 1599, b <= 899;
        a * b
    }

    /// Whether placing `count` particles on this grid stays within `i32`.
    pub fn fits(&self, count: usize) -> (r: bool)
        requires
            self.wf(),
        ensures
            r == self.spec_fits(count as int),
    {
        let cap = self.capacity();
        let n: usize = if count <= cap { count } else { cap };
        if n == 0 {
            return true;
        }
        let per_row: usize = (self.cols_end - 1) as usize;
        let cols_used: usize = if n <= per_row { n } else { per_row };
        let rows_used: usize = 1 + (n - 1) / per_row;
        proof {
            vstd::arithmetic::div_mod::lemma_div_pos_is_pos((n - 1) as int, per_row as int);
            assert((n - 1) as int / per_row as int <= (n - 1) as int) by (nonlinear_arith)
                requires per_row >= 1, n >= 1;
        }
        assert(cols_used <= 1599);
        let dx: i64 = SPACING_X as i64 * cols_used as i64;
        let dy: i64 = CELL as i64 * rows_used as i64;
        self.origin_x as i64 + dx <= i32::MAX as i64 && self.origin_y as i64 + dy <= i32::MAX as i64
    }

    /// The `k`-th particle of a batch placed on this grid, with the given
    /// jitter.
    pub fn spawn_point(&self, k: usize, jitter: i32) -> (p: SpawnPoint)
        requires
            self.wf(),
            (k as int) < self.spec_capacity(),
            self.base_x(k as int) <= i32::MAX,
            self.base_y(k as int) <= i32::MAX,
        ensures
            p.base_x == self.base_x(k as int),
            p.base_y == self.base_y(k as int),
            p.jitter == jitter,
    {
        let per_row: usize = (self.cols_end - 1) as usize;
        proof {
            vstd::arithmetic::div_mod::lemma_mod_pos_bound(k as int, per_row as int);
            vstd::arithmetic::div_mod::lemma_div_pos_is_pos(k as int, per_row as int);
            vstd::arithmetic::div_mod::lemma_multiply_divide_lt(k as int, per_row as int, (self.rows_end - 1) as int);
        }
        let col: i32 = 1 + (k % per_row) as i32;
        let row: i32 = 1 + (k / per_row) as i32;
        SpawnPoint { base_x: self.origin_x + SPACING_X * col, base_y: self.origin_y + CELL * row, jitter }
    }
}

/// The cells of the first `n` particles stay within the offsets
/// `max_dx(n)` and `max_dy(n)` from the origin.
pub proof fn lemma_offsets_bounded(g: SpawnGrid, n: int, k: int)
    requires
        g.wf(),
        0 <= k < n,
    ensures
        0 < SPACING_X * g.slot_col(k) <= g.max_dx(n),
        0 < CELL * g.slot_row(k) <= g.max_dy(n),
{
    let p = g.per_row();
    vstd::arithmetic::div_mod::lemma_mod_pos_bound(k, p);
    vstd::arithmetic::div_mod::lemma_div_pos_is_pos(k, p);
    vstd::arithmetic::div_mod::lemma_div_is_ordered(k, n - 1, p);
    if k < p {
        vstd::arithmetic::div_mod::lemma_small_mod(k as nat, p as nat);
    }
}

/// Places up to `count` particles on `grid`, each with a fresh random
/// jitter: exactly `min(count, capacity)` points, the `k`-th in the `k`-th
/// cell of the grid.
pub fn spawn_points(rng: &mut rand::rngs::ThreadRng, grid: &SpawnGrid, count: usize) -> (v: Vec<SpawnPoint>)
    requires
        grid.wf(),
        grid.spec_fits(count as int),
    ensures
        v.len() == grid.placed(count as int),
        forall|k: int| 0 <= k < v.len() ==> {
            &&& (#[trigger] v[k]).base_x == grid.base_x(k)
            &&& v[k].base_y == grid.base_y(k)
            &&& 0 <= v[k].jitter < JITTER_SPAN
        },
{
    let cap = grid.capacity();
    let n: usize = if count <= cap { count } else { cap };
    let mut v: Vec<SpawnPoint> = Vec::new();
    let mut k: usize = 0;
    while k < n
        invariant
            grid.wf(),
            grid.spec_fits(count as int),
            n == grid.placed(count as int),
            n <= grid.spec_capacity(),
            k <= n,
            v.len() == k,
            forall|j: int| 0 <= j < v.len() ==> {
                &&& (#[trigger] v[j]).base_x == grid.base_x(j)
                &&& v[j].base_y == grid.base_y(j)
                &&& 0 <= v[j].jitter < JITTER_SPAN
            },
        decreases n - k,
    {
        proof {
            lemma_offsets_bounded(*grid, n as int, k as int);
        }
        let jitter = gen_range_i32(rng, 0, JITTER_SPAN);
        let p = grid.spawn_point(k, jitter);
        v.push(p);
        k = k + 1;
    }
    v
}

/// No two particles of a batch share a cell.
pub proof fn lemma_spawn_cells_distinct(g: SpawnGrid, j: int, k: int)
    requires
        g.wf(),
        0 <= j < k,
    ensures
        g.slot_col(j) != g.slot_col(k) || g.slot_row(j) != g.slot_row(k),
        g.base_x(j) != g.base_x(k) || g.base_y(j) != g.base_y(k),
{
    let p = g.per_row();
    vstd::arithmetic::div_mod::lemma_fundamental_div_mod(j, p);
    vstd::arithmetic::div_mod::lemma_fundamental_div_mod(k, p);
}

/// Every particle of a batch lies inside the grid: in a column of
/// `1..cols_end` and a row of `1..rows_end`.
pub proof fn lemma_spawn_cell_in_grid(g: SpawnGrid, k: int)
    requires
        g.wf(),
        0 <= k < g.spec_capacity(),
    ensures
        1 <= g.slot_col(k) < g.cols_end,
        1 <= g.slot_row(k) < g.rows_end,
{
    let p = g.per_row();
    vstd::arithmetic::div_mod::lemma_mod_pos_bound(k, p);
    vstd::arithmetic::div_mod::lemma_div_pos_is_pos(k, p);
    vstd::arithmetic::div_mod::lemma_multiply_divide_lt(k, p, g.rows_end - 1);
}

/// The start-up grid holds 2695 particles, 49 to a row: the `k`-th sits at
/// `(14 * (1 + k % 49), 16 * (1 + k / 49))`.
pub proof fn lemma_initial_grid_layout(k: int)
    ensures
        SpawnGrid::initial_spec().spec_capacity() == 2695,
        SpawnGrid::initial_spec().base_x(k) == 14 * (1 + k % 49),
        SpawnGrid::initial_spec().base_y(k) == 16 * (1 + k / 49),
{
    let g = SpawnGrid::initial_spec();
    assert(g.spec_capacity() == 2695) by (nonlinear_arith)
        requires g.cols_end == 50, g.rows_end == 56;
}

/// A burst grid at `(x, y)` holds 825 particles, 15 to a row: the `k`-th
/// sits at `(x + 14 * (1 + k % 15), y + 16 * (1 + k / 15))`.
pub proof fn lemma_burst_grid_layout(x: i32, y: i32, k: int)
    ensures
        (SpawnGrid { origin_x: x, origin_y: y, cols_end: 16, rows_end: 56 }).spec_capacity() == 825,
        (SpawnGrid { origin_x: x, origin_y: y, cols_end: 16, rows_end: 56 }).base_x(k) == x + 14 * (1 + k % 15),
        (SpawnGrid { origin_x: x, origin_y: y, cols_end: 16, rows_end: 56 }).base_y(k) == y + 16 * (1 + k / 15),
{
    let g = SpawnGrid { origin_x: x, origin_y: y, cols_end: 16, rows_end: 56 };
    assert(g.spec_capacity() == 825) by (nonlinear_arith)
        requires g.cols_end == 16, g.rows_end == 56;
}

/// A batch of `count` particles places `count` of them when the grid has
/// room, and fills the grid otherwise; consecutive particles of a row are
/// `SPACING_X` apart, and a new row starts `CELL` lower at the first column.
pub proof fn lemma_batch_size_and_neighbours(g: SpawnGrid, count: int, k: int)
    requires
        g.wf(),
        0 <= count,
        0 <= k,
    ensures
        count <= g.spec_capacity() ==> g.placed(count) == count,
        count > g.spec_capacity() ==> g.placed(count) == g.spec_capacity(),
        (k + 1) % g.per_row() != 0 ==> g.base_x(k + 1) == g.base_x(k) + SPACING_X && g.base_y(k + 1) == g.base_y(k),
        (k + 1) % g.per_row() == 0 ==> g.base_x(k + 1) == g.origin_x + SPACING_X && g.base_y(k + 1) == g.base_y(k) + CELL,
{
    let p = g.per_row();
    vstd::arithmetic::div_mod::lemma_fundamental_div_mod(k, p);
    vstd::arithmetic::div_mod::lemma_fundamental_div_mod(k + 1, p);
    vstd::arithmetic::div_mod::lemma_mod_pos_bound(k, p);
    vstd::arithmetic::div_mod::lemma_mod_pos_bound(k + 1, p);
    let q = k / p;
    let r = k % p;
    if r + 1 < p {
        vstd::arithmetic::div_mod::lemma_fundamental_div_mod_converse(k + 1, p, q, r + 1);
    } else {
        assert(k + 1 == (q + 1) * p + 0) by (nonlinear_arith)
            requires k == p * q + r, r + 1 == p;
        vstd::arithmetic::div_mod::lemma_fundamental_div_mod_converse(k + 1, p, q + 1, 0);
    }
}

/// A batch fits exactly when every position it places stays within `i32`.
pub proof fn lemma_fits_iff_positions_in_range(g: SpawnGrid, count: int)
    requires
        g.wf(),
        0 <= count,
    ensures
        g.spec_fits(count) <==> forall|k: int| 0 <= k < g.placed(count) ==>
            #[trigger] g.base_x(k) <= i32::MAX && g.base_y(k) <= i32::MAX,
{
    let n = g.placed(count);
    let p = g.per_row();
    assert(g.spec_capacity() >= 1) by (nonlinear_arith)
        requires g.cols_end >= 2, g.rows_end >= 2;
    if g.spec_fits(count) {
        assert forall|k: int| 0 <= k < n implies #[trigger] g.base_x(k) <= i32::MAX && g.base_y(k) <= i32::MAX by {
            lemma_offsets_bounded(g, n, k);
        }
    }
    if n > 0 && forall|k: int| 0 <= k < n ==> #[trigger] g.base_x(k) <= i32::MAX && g.base_y(k) <= i32::MAX {
        let kx = min_int(n, p) - 1;
        vstd::arithmetic::div_mod::lemma_small_mod(kx as nat, p as nat);
        assert(g.base_x(kx) <= i32::MAX);
        let last = n - 1;
        assert(0 <= last < n);
        assert(g.base_x(last) <= i32::MAX);
        assert(g.base_y(last) <= i32::MAX);
        assert(g.max_dy(n) == CELL * g.slot_row(last));
    }
}

} // verus!
