//! The Game-of-Life simulation grid: a rectangular buffer of cells stepped
//! by the B3/S23 rule over a linear-wraparound neighborhood.

use vstd::prelude::*;

use crate::render::{batch_spec, batch_upto};
use crate::tga::{
    in_seed_region, pixel_alive, seed_pixel, seeded, seeded_upto, tga_data_start, tga_height,
    tga_verdict, tga_width, tga_x_off, tga_y_off, TgaError,
};

verus! {

/// Probability threshold for random seeding: a uniformly drawn `u32` below
/// this bound marks a cell alive, which happens with probability one fifth
/// (the bound is the fifth part of two to the thirty-second, rounded down).
pub const SEED_THRESHOLD: u32 = 858_993_459;

/// Mathematical view of a [`Life`] grid: the downscale factor, the grid
/// dimensions in cells, and the current generation in row-major order.
#[verifier::ext_equal]
pub ghost struct GridView {
    pub size_k: nat,
    pub width: nat,
    pub height: nat,
    pub cells: Seq<bool>,
}

/// The simulation grid.
///
/// Two buffers hold the cells; a step writes the next generation into the
/// scratch buffer and swaps the two, so no step allocates. Dimensions are
/// in cells: a window of `pw` by `ph` pixels downscaled by `size_k` gives a
/// grid of `pw / size_k` by `ph / size_k` cells.
pub struct Life {
    pub(crate) size_k: u32,
    pub(crate) width: u32,
    pub(crate) height: u32,
    pub(crate) state: Vec<bool>,
    pub(crate) new_state: Vec<bool>,
}

impl View for Life {
    type V = GridView;

    closed spec fn view(&self) -> GridView {
        GridView {
            size_k: self.size_k as nat,
            width: self.width as nat,
            height: self.height as nat,
            cells: self.state@,
        }
    }
}

/// One when the cell is alive, zero when it is dead.
pub open spec fn alive_as_count(b: bool) -> int {
    if b {
        1
    } else {
        0
    }
}

/// Index of the neighbor at offset `off` from cell `i` on a linear ring of
/// `n` cells. The flat buffer wraps around as one line, not as a torus: a
/// cell on the left edge counts the previous row's rightmost cell as a
/// horizontal neighbor. The simulation keeps this documented topology on
/// purpose.
pub open spec fn nbr_index(i: int, off: int, n: int) -> int {
    (i + off + n) % n
}

/// Number of live cells among the eight linear-wraparound neighbors of
/// cell `i` in a grid of width `w`.
pub open spec fn neighbor_count(cells: Seq<bool>, w: int, i: int) -> int {
    let n = cells.len() as int;
    alive_as_count(cells[nbr_index(i, -1, n)]) + alive_as_count(cells[nbr_index(i, 1, n)])
        + alive_as_count(cells[nbr_index(i, -w - 1, n)]) + alive_as_count(
        cells[nbr_index(i, -w, n)],
    ) + alive_as_count(cells[nbr_index(i, -w + 1, n)]) + alive_as_count(
        cells[nbr_index(i, w - 1, n)],
    ) + alive_as_count(cells[nbr_index(i, w, n)]) + alive_as_count(cells[nbr_index(i, w + 1, n)])
}

/// Next state of cell `i` under the B3/S23 rule: a live cell survives with
/// two or three live neighbors, a dead cell is born with exactly three.
pub open spec fn next_cell(cells: Seq<bool>, w: int, i: int) -> bool {
    let neis = neighbor_count(cells, w, i);
    if cells[i] {
        neis == 2 || neis == 3
    } else {
        neis == 3
    }
}

/// One full generation of a grid of width `w`.
pub open spec fn step_spec(cells: Seq<bool>, w: int) -> Seq<bool> {
    Seq::new(cells.len(), |i: int| next_cell(cells, w, i))
}

/// One generation never changes the size of the cell buffer: the next
/// state has exactly as many cells as the current one, whatever the width.
pub proof fn lemma_step_preserves_len(cells: Seq<bool>, w: int)
    ensures
        step_spec(cells, w).len() == cells.len(),
{
}

/// The state that `set_size(pw, ph)` leaves on a grid whose downscale
/// factor is `k`: the downscaled dimensions, and every cell dead.
pub open spec fn is_resized(v: GridView, pw: u32, ph: u32, k: nat) -> bool {
    &&& v.size_k == k
    &&& v.width == pw as nat / k
    &&& v.height == ph as nat / k
    &&& v.cells.len() == v.width * v.height
    &&& forall|i: int| 0 <= i < v.cells.len() ==> !v.cells[i]
}

/// Resizing is idempotent: `set_size` pins the whole grid state from its
/// arguments and the downscale factor alone, so a second call with the
/// same size leaves exactly the state the first call left — dimensions
/// intact, every cell dead both times.
pub proof fn lemma_resize_idempotent(a: GridView, b: GridView, pw: u32, ph: u32, k: nat)
    requires
        is_resized(a, pw, ph, k),
        is_resized(b, pw, ph, k),
    ensures
        a == b,
{
    assert(a.cells =~= b.cells);
    assert(a =~= b);
}

/// Whether one uniform draw marks a cell alive: exactly the draws below
/// [`SEED_THRESHOLD`], one fifth of all `u32` values.
pub open spec fn draw_alive(r: u32) -> bool {
    r < SEED_THRESHOLD
}

/// Turns one uniform draw into a cell state (see [`draw_alive`]).
pub fn cell_from_draw(r: u32) -> (b: bool)
    ensures
        b == draw_alive(r),
{
    r < SEED_THRESHOLD
}

/// Relies on `rand::random`: one draw from the thread-local uniform
/// generator. Nothing is promised of the value.
#[verifier::external_body]
fn random_u32() -> u32 {
    rand::random::<u32>()
}

/// A buffer of `n` dead cells.
fn dead_cells(n: usize) -> (v: Vec<bool>)
    ensures
        v.len() == n,
        forall|i: int| 0 <= i < n ==> !v@[i],
{
    let mut v: Vec<bool> = Vec::new();
    while v.len() < n
        invariant
            v.len() <= n,
            forall|i: int| 0 <= i < v.len() ==> !v@[i],
        decreases n - v.len(),
    {
        v.push(false);
    }
    v
}

/// Wrapped neighbor index on the linear ring (see [`nbr_index`]).
fn nbr_index_exec(i: usize, off: i64, n: usize) -> (r: usize)
    requires
        1 <= n <= u32::MAX,
        i < n,
        -(n as i64) - 1 <= off <= n as i64 + 1,
    ensures
        r == nbr_index(i as int, off as int, n as int),
        r < n,
{
    let t: i64 = i as i64 + off + 2 * (n as i64);
    proof {
        vstd::arithmetic::div_mod::lemma_mod_multiples_vanish(
            1,
            i as int + off as int + n as int,
            n as int,
        );
    }
    (t % (n as i64)) as usize
}

impl Life {
    /// Internal invariant: both buffers hold exactly one cell per grid
    /// position, the cell count fits the arithmetic of a step, and the
    /// downscale factor is positive.
    pub closed spec fn wf(&self) -> bool {
        &&& self.size_k >= 1
        &&& self.state.len() == self.width * self.height
        &&& self.new_state.len() == self.width * self.height
        &&& self.width * self.height <= u32::MAX
    }

    /// A fresh zero-size grid with the given downscale factor; `set_size`
    /// gives it its real dimensions once the window size is known.
    pub fn new(size_k: u32) -> (r: Self)
        requires
            size_k >= 1,
        ensures
            r.wf(),
            r@.size_k == size_k,
            r@.width == 0,
            r@.height == 0,
            r@.cells.len() == 0,
    {
        Life { size_k, width: 0, height: 0, state: Vec::new(), new_state: Vec::new() }
    }

    /// Sets the grid to `pw / size_k` by `ph / size_k` cells (a window of
    /// `pw` by `ph` pixels, downscaled), reallocating both buffers and
    /// resetting every cell to dead.
    pub fn set_size(&mut self, pw: u32, ph: u32)
        requires
            old(self).wf(),
            (pw as nat / old(self)@.size_k) * (ph as nat / old(self)@.size_k) <= u32::MAX,
        ensures
            final(self).wf(),
            is_resized(final(self)@, pw, ph, old(self)@.size_k),
    {
        let w: u32 = pw / self.size_k;
        let h: u32 = ph / self.size_k;
        let n: usize = ((w as u64) * (h as u64)) as usize;
        self.state = dead_cells(n);
        self.new_state = dead_cells(n);
        self.width = w;
        self.height = h;
    }

    /// Re-seeds every cell at random: alive with probability one fifth
    /// (one uniform draw per cell, judged by [`draw_alive`]), dead
    /// otherwise. Dimensions and downscale factor are untouched.
    pub fn init_rnd(&mut self)
        requires
            old(self).wf(),
        ensures
            final(self).wf(),
            final(self)@.size_k == old(self)@.size_k,
            final(self)@.width == old(self)@.width,
            final(self)@.height == old(self)@.height,
            final(self)@.cells.len() == old(self)@.cells.len(),
    {
        let n: usize = self.state.len();
        let mut i: usize = 0;
        while i < n
            invariant
                i <= n,
                n == self.state.len(),
                self.size_k == old(self).size_k,
                self.width == old(self).width,
                self.height == old(self).height,
                self.new_state.len() == old(self).new_state.len(),
                old(self).wf(),
            decreases n - i,
        {
            let alive = cell_from_draw(random_u32());
            self.state[i] = alive;
            i += 1;
        }
    }

    /// Advances the simulation one generation: computes [`step_spec`] of
    /// the current cells into the scratch buffer, then swaps the buffers.
    /// On a zero-size grid this is a no-op.
    pub fn update(&mut self)
        requires
            old(self).wf(),
        ensures
            final(self).wf(),
            final(self)@.size_k == old(self)@.size_k,
            final(self)@.width == old(self)@.width,
            final(self)@.height == old(self)@.height,
            final(self)@.cells == step_spec(old(self)@.cells, old(self)@.width as int),
    {
        let n: usize = self.state.len();
        let w: i64 = self.width as i64;
        proof {
            if n > 0 {
                assert(self.width as int <= n && self.width >= 1) by (nonlinear_arith)
                    requires
                        self.width * self.height == n,
                        n > 0,
                ;
            }
        }
        let mut i: usize = 0;
        while i < n
            invariant
                i <= n,
                n == self.state.len(),
                self.state@ == old(self).state@,
                self.new_state.len() == n,
                self.size_k == old(self).size_k,
                self.width == old(self).width,
                self.height == old(self).height,
                w == self.width as i64,
                old(self).wf(),
                n <= u32::MAX,
                n > 0 ==> 1 <= w <= n,
                forall|j: int|
                    0 <= j < i ==> self.new_state@[j] == next_cell(
                        old(self).state@,
                        w as int,
                        j,
                    ),
            decreases n - i,
        {
            let i0 = nbr_index_exec(i, -1, n);
            let i1 = nbr_index_exec(i, 1, n);
            let i2 = nbr_index_exec(i, -w - 1, n);
            let i3 = nbr_index_exec(i, -w, n);
            let i4 = nbr_index_exec(i, -w + 1, n);
            let i5 = nbr_index_exec(i, w - 1, n);
            let i6 = nbr_index_exec(i, w, n);
            let i7 = nbr_index_exec(i, w + 1, n);
            let mut neis: u8 = 0;
            if self.state[i0] {
                neis += 1;
            }
            if self.state[i1] {
                neis += 1;
            }
            if self.state[i2] {
                neis += 1;
            }
            if self.state[i3] {
                neis += 1;
            }
            if self.state[i4] {
                neis += 1;
            }
            if self.state[i5] {
                neis += 1;
            }
            if self.state[i6] {
                neis += 1;
            }
            if self.state[i7] {
                neis += 1;
            }
            let next: bool = if self.state[i] {
                neis == 2 || neis == 3
            } else {
                neis == 3
            };
            proof {
                assert(neis as int == neighbor_count(old(self).state@, w as int, i as int));
                assert(next == next_cell(old(self).state@, w as int, i as int));
            }
            self.new_state[i] = next;
            i += 1;
        }
        core::mem::swap(&mut self.state, &mut self.new_state);
        proof {
            assert(self.state@ =~= step_spec(old(self).state@, w as int));
        }
    }

    /// Builds the per-frame vertex batch: six corners (two triangles) in
    /// doubled coordinates for every live cell, row-major, and nothing
    /// else (see [`crate::render::cell_corners`]).
    pub fn vertex_batch(&self) -> (r: Vec<(i64, i64)>)
        requires
            self.wf(),
        ensures
            r@ == batch_spec(self@.cells, self@.width as int),
    {
        let n: usize = self.state.len();
        let w: u32 = self.width;
        proof {
            if n > 0 {
                assert(w >= 1) by (nonlinear_arith)
                    requires
                        w * self.height == n,
                        n > 0,
                        w >= 0,
                ;
            }
        }
        let mut verts: Vec<(i64, i64)> = Vec::new();
        let mut i: usize = 0;
        while i < n
            invariant
                i <= n,
                n == self.state.len(),
                w == self.width,
                n <= u32::MAX,
                n > 0 ==> w >= 1,
                verts@ == batch_upto(self.state@, w as int, i as int),
            decreases n - i,
        {
            if self.state[i] {
                let x: usize = i % (w as usize);
                let y: usize = i / (w as usize);
                let cx: i64 = 2 * (x as i64);
                let cy: i64 = 2 * (y as i64);
                verts.push((cx - 1, cy - 1));
                verts.push((cx + 1, cy - 1));
                verts.push((cx - 1, cy + 1));
                verts.push((cx + 1, cy - 1));
                verts.push((cx - 1, cy + 1));
                verts.push((cx + 1, cy + 1));
            }
            proof {
                assert(verts@ =~= batch_upto(self.state@, w as int, i as int + 1));
            }
            i += 1;
        }
        verts
    }

    /// Width of the grid, in cells.
    pub fn width(&self) -> (r: u32)
        ensures
            r == self@.width,
    {
        self.width
    }

    /// Height of the grid, in cells.
    pub fn height(&self) -> (r: u32)
        ensures
            r == self@.height,
    {
        self.height
    }

    /// Sets the cell at column `x` of row `y` of the current generation.
    pub fn set_cell(&mut self, x: u32, y: u32, alive: bool)
        requires
            old(self).wf(),
            x < old(self)@.width,
            y < old(self)@.height,
        ensures
            final(self).wf(),
            final(self)@.size_k == old(self)@.size_k,
            final(self)@.width == old(self)@.width,
            final(self)@.height == old(self)@.height,
            final(self)@.cells == old(self)@.cells.update(
                y * old(self)@.width + x,
                alive,
            ),
    {
        proof {
            assert((y as int) * (self.width as int) + (x as int) < self.width * self.height)
                by (nonlinear_arith)
                requires
                    0 <= (x as int) < self.width as int,
                    0 <= (y as int) < self.height as int,
            ;
        }
        let idx: usize = ((y as u64 * self.width as u64) + x as u64) as usize;
        self.state[idx] = alive;
    }

    /// The cell at column `x` of row `y`.
    pub fn cell(&self, x: u32, y: u32) -> (r: bool)
        requires
            self.wf(),
            x < self@.width,
            y < self@.height,
        ensures
            r == self@.cells[y * self@.width + x],
    {
        proof {
            assert(y * self@.width + x < self@.width * self@.height) by (nonlinear_arith)
                requires
                    x < self@.width,
                    y < self@.height,
            ;
        }
        let idx: usize = ((y as u64 * self.width as u64) + x as u64) as usize;
        self.state[idx]
    }
}

impl Life {
    /// Seeds the grid from the bytes of a minimal uncompressed 24-bit TGA
    /// image, marking a cell alive exactly where the pixel is pure black.
    /// The image is centered in the grid; cells outside it keep their
    /// prior value; on any error the cells are left untouched.
    pub fn load(&mut self, data: &Vec<u8>) -> (r: Result<(), TgaError>)
        requires
            old(self).wf(),
        ensures
            final(self).wf(),
            final(self)@.size_k == old(self)@.size_k,
            final(self)@.width == old(self)@.width,
            final(self)@.height == old(self)@.height,
            match tga_verdict(data@, old(self)@.width as int, old(self)@.height as int) {
                Some(e) => r == Err::<(), TgaError>(e) && final(self)@.cells == old(self)@.cells,
                None => r == Ok::<(), TgaError>(()) && final(self)@.cells == seeded(
                    old(self)@.cells,
                    data@,
                    old(self)@.width as int,
                    old(self)@.height as int,
                ),
            },
    {
        if data.len() < 12 {
            return Err(TgaError::FormatError);
        }
        if data[1] != 0 {
            return Err(TgaError::UnsupportedFormat);
        }
        if data[2] != 2 {
            return Err(TgaError::UnsupportedFormat);
        }
        if data.len() < 17 {
            return Err(TgaError::FormatError);
        }
        if data[16] != 24 {
            return Err(TgaError::UnsupportedFormat);
        }
        let id_len: usize = data[0] as usize;
        let start: usize = 18 + id_len;
        if data.len() < start {
            return Err(TgaError::FormatError);
        }
        let w: u64 = data[12] as u64 + 256 * (data[13] as u64);
        let h: u64 = data[14] as u64 + 256 * (data[15] as u64);
        proof {
            assert(3 * w * h <= 0xC_0000_0000u64 && (3 * w) * h == 3 * (w * h))
                by (nonlinear_arith)
                requires
                    0 <= w <= 0xFFFF,
                    0 <= h <= 0xFFFF,
            ;
        }
        if ((data.len() - start) as u64) < 3 * w * h {
            return Err(TgaError::FormatError);
        }
        if w > self.width as u64 || h > self.height as u64 {
            return Err(TgaError::SizeError);
        }
        let gw: u32 = self.width;
        let gh: u32 = self.height;
        let wi: usize = w as usize;
        let hi: usize = h as usize;
        let x0: u32 = (gw - w as u32) / 2;
        let y0: u32 = (gh - h as u32) / 2;
        proof {
            assert(wi * hi <= gw * gh) by (nonlinear_arith)
                requires
                    0 <= wi <= gw,
                    0 <= hi <= gh,
            ;
        }
        let total: usize = wi * hi;
        let dlen: usize = data.len();
        let ghost d = data@;
        let ghost cells0 = self.state@;
        let ghost gwi = gw as int;
        let ghost ghi = gh as int;
        let ghost wii = wi as int;
        let ghost hii = hi as int;
        let ghost x0i = x0 as int;
        let ghost y0i = y0 as int;
        let mut i: usize = 0;
        while i < total
            invariant
                i <= total,
                total == wi * hi,
                wi == w,
                hi == h,
                gw == old(self).width,
                gh == old(self).height,
                d == data@,
                cells0 == old(self).state@,
                gwi == gw as int,
                ghi == gh as int,
                wii == wi as int,
                hii == hi as int,
                x0i == x0 as int,
                y0i == y0 as int,
                wii == tga_width(d),
                hii == tga_height(d),
                start == tga_data_start(d),
                x0i == tga_x_off(d, gwi),
                y0i == tga_y_off(d, ghi),
                wii <= gwi,
                hii <= ghi,
                x0i == (gwi - wii) / 2,
                y0i == (ghi - hii) / 2,
                dlen == d.len(),
                d.len() >= start,
                d.len() - start >= 3 * wii * hii,
                old(self).wf(),
                self.size_k == old(self).size_k,
                self.width == old(self).width,
                self.height == old(self).height,
                self.new_state@ == old(self).new_state@,
                self.state.len() == old(self).state.len(),
                self.state.len() == gwi * ghi,
                forall|j: int|
                    0 <= j < self.state.len() ==> self.state@[j] == seeded_upto(
                        cells0,
                        d,
                        gwi,
                        ghi,
                        i as int,
                        j,
                    ),
            decreases total - i,
        {
            let ghost ii = i as int;
            proof {
                assert(wii >= 1 && hii >= 1) by (nonlinear_arith)
                    requires
                        0 <= ii,
                        ii < wii * hii,
                        wii >= 0,
                        hii >= 0,
                ;
                vstd::arithmetic::div_mod::lemma_fundamental_div_mod(ii, wii);
                vstd::arithmetic::div_mod::lemma_multiply_divide_lt(ii, wii, hii);
                assert((gwi - wii) / 2 <= gwi - wii) by (nonlinear_arith)
                    requires
                        gwi - wii >= 0,
                ;
                assert((ghi - hii) / 2 <= ghi - hii) by (nonlinear_arith)
                    requires
                        ghi - hii >= 0,
                ;
            }
            let px: usize = x0 as usize + (i % wi);
            let py: usize = y0 as usize + (i / wi);
            proof {
                assert((py as int) * gwi + (px as int) < gwi * ghi) by (nonlinear_arith)
                    requires
                        0 <= (px as int) < gwi,
                        0 <= (py as int) < ghi,
                ;
                assert((py as int) * gwi <= (ghi - 1) * gwi) by (nonlinear_arith)
                    requires
                        0 <= (py as int) <= ghi - 1,
                        gwi >= 1,
                ;
            }
            let idx: usize = py * (gw as usize) + px;
            let ghost idxi = idx as int;
            proof {
                vstd::arithmetic::div_mod::lemma_fundamental_div_mod_converse_mod(
                    idxi,
                    gwi,
                    py as int,
                    px as int,
                );
                vstd::arithmetic::div_mod::lemma_fundamental_div_mod_converse_div(
                    idxi,
                    gwi,
                    py as int,
                    px as int,
                );
                assert(idxi % gwi == px as int);
                assert(idxi / gwi == py as int);
                assert(in_seed_region(d, gwi, ghi, idxi));
                assert(seed_pixel(d, gwi, ghi, idxi) == (ii / wii) * wii + (ii % wii));
                assert((ii / wii) * wii == wii * (ii / wii)) by (nonlinear_arith);
                assert(seed_pixel(d, gwi, ghi, idxi) == ii);
                assert(3 * ii + 2 < 3 * wii * hii) by (nonlinear_arith)
                    requires
                        0 <= ii < wii * hii,
                ;
                assert(3 * (wii * hii) == 3 * wii * hii) by (nonlinear_arith);
                assert(start + 3 * ii + 2 < dlen as int);
            }
            let b0 = data[start + 3 * i];
            let b1 = data[start + 3 * i + 1];
            let b2 = data[start + 3 * i + 2];
            let alive = b0 == 0 && b1 == 0 && b2 == 0;
            proof {
                assert(alive == pixel_alive(d, ii));
            }
            self.state[idx] = alive;
            proof {
                assert forall|j: int|
                    0 <= j < self.state.len() implies self.state@[j] == seeded_upto(
                    cells0,
                    d,
                    gwi,
                    ghi,
                    ii + 1,
                    j,
                ) by {
                    if j == idxi {
                        assert(self.state@[j] == pixel_alive(d, ii));
                    } else {
                        vstd::arithmetic::div_mod::lemma_fundamental_div_mod(j, gwi);
                        if in_seed_region(d, gwi, ghi, j) && seed_pixel(d, gwi, ghi, j) == ii {
                            vstd::arithmetic::div_mod::lemma_fundamental_div_mod_converse_div(
                                ii,
                                wii,
                                j / gwi - y0i,
                                j % gwi - x0i,
                            );
                            vstd::arithmetic::div_mod::lemma_fundamental_div_mod_converse_mod(
                                ii,
                                wii,
                                j / gwi - y0i,
                                j % gwi - x0i,
                            );
                            assert(j % gwi == px as int && j / gwi == py as int);
                            assert(gwi * (j / gwi) == (j / gwi) * gwi) by (nonlinear_arith);
                            assert(j == idxi);
                            assert(false);
                        }
                    }
                }
            }
            i += 1;
        }
        proof {
            assert forall|j: int|
                0 <= j < self.state.len() implies self.state@[j] == seeded(
                cells0,
                d,
                gwi,
                ghi,
            )[j] by {
                if in_seed_region(d, gwi, ghi, j) {
                    assert(seed_pixel(d, gwi, ghi, j) < wii * hii) by (nonlinear_arith)
                        requires
                            seed_pixel(d, gwi, ghi, j) == (j / gwi - tga_y_off(d, ghi)) * wii + (
                            j % gwi - tga_x_off(d, gwi)),
                            0 <= j / gwi - tga_y_off(d, ghi) < hii,
                            0 <= j % gwi - tga_x_off(d, gwi) < wii,
                            wii == tga_width(d),
                    ;
                }
            }
            assert(self.state@ =~= seeded(cells0, d, gwi, ghi));
        }
        Ok(())
    }
}

} // verus!
