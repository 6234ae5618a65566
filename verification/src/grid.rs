//! Grid extents, cell coordinates and the linear layout of a field.

use vstd::arithmetic::mul::lemma_mul_upper_bound;
use vstd::prelude::*;

verus! {

/// Bytes taken by one field sample (a single-precision scalar).
pub const CELL_BYTES: u64 = 4;

/// Largest buffer, in bytes, that the solver asks a device to support.
pub const MAX_BUFFER_BYTES: u64 = 256 * 1024 * 1024;

/// Extents of the grid, in cells along each axis.
#[derive(Clone, Copy, Debug, PartialEq, Eq, Structural)]
pub struct Grid {
    pub nx: u32,
    pub ny: u32,
    pub nz: u32,
}

/// Coordinates of one cell.
#[derive(Clone, Copy, Debug, PartialEq, Eq, Structural)]
pub struct Cell {
    pub i: u32,
    pub j: u32,
    pub k: u32,
}

/// Position of cell `(i, j, k)` in a field stored with `i` running fastest,
/// on a grid that is `nx` cells wide and `ny` cells deep.
pub open spec fn linear_index(nx: int, ny: int, i: int, j: int, k: int) -> int {
    i + nx * (j + ny * k)
}

impl Grid {
    /// Number of cells in the grid.
    pub open spec fn cell_count(self) -> nat {
        (self.nx * self.ny * self.nz) as nat
    }

    /// Whether `c` lies inside the grid.
    pub open spec fn contains(self, c: Cell) -> bool {
        c.i < self.nx && c.j < self.ny && c.k < self.nz
    }

    /// Position of `c` in a field of this grid.
    pub open spec fn index_of(self, c: Cell) -> int {
        linear_index(self.nx as int, self.ny as int, c.i as int, c.j as int, c.k as int)
    }

    /// Whether one field of this grid fits in a device buffer.
    pub open spec fn fits(self) -> bool {
        CELL_BYTES * self.cell_count() <= MAX_BUFFER_BYTES
    }

    /// Every cell of the grid has a position below the cell count.
    pub proof fn lemma_index_in_range(self, c: Cell)
        requires
            self.contains(c),
        ensures
            0 <= self.index_of(c) < self.cell_count(),
    {
        let nx = self.nx as int;
        let ny = self.ny as int;
        let nz = self.nz as int;
        let i = c.i as int;
        let j = c.j as int;
        let k = c.k as int;
        assert(0 <= j + ny * k <= ny * nz - 1) by (nonlinear_arith)
            requires
                0 <= j < ny,
                0 <= k < nz,
        ;
        assert(0 <= i + nx * (j + ny * k) <= nx * (ny * nz) - 1) by (nonlinear_arith)
            requires
                0 <= i < nx,
                0 <= j + ny * k <= ny * nz - 1,
        ;
        assert(nx * (ny * nz) == nx * ny * nz) by (nonlinear_arith);
    }

    /// Two cells of the grid that share a position are the same cell.
    pub proof fn lemma_index_injective(self, a: Cell, b: Cell)
        requires
            self.contains(a),
            self.contains(b),
            self.index_of(a) == self.index_of(b),
        ensures
            a == b,
    {
        let nx = self.nx as int;
        let ny = self.ny as int;
        let pa = a.j as int + ny * (a.k as int);
        let pb = b.j as int + ny * (b.k as int);
        assert(pa == pb && a.i == b.i) by (nonlinear_arith)
            requires
                0 <= a.i < nx,
                0 <= b.i < nx,
                a.i + nx * pa == b.i + nx * pb,
        ;
        assert(a.k == b.k && a.j == b.j) by (nonlinear_arith)
            requires
                0 <= a.j < ny,
                0 <= b.j < ny,
                a.j + ny * (a.k as int) == b.j + ny * (b.k as int),
        ;
    }

    /// A grid with the given extents.
    pub fn new(nx: u32, ny: u32, nz: u32) -> (g: Grid)
        ensures
            g == (Grid { nx, ny, nz }),
    {
        Grid { nx, ny, nz }
    }

    /// Tells whether `c` lies inside the grid.
    pub fn has_cell(&self, c: Cell) -> (inside: bool)
        ensures
            inside == self.contains(c),
    {
        c.i < self.nx && c.j < self.ny && c.k < self.nz
    }

    /// Byte size of one field, or `None` where it exceeds
    /// [`MAX_BUFFER_BYTES`].
    pub fn field_bytes(&self) -> (size: Option<u64>)
        ensures
            size.is_some() == self.fits(),
            size matches Some(n) ==> n == CELL_BYTES * self.cell_count(),
    {
        proof {
            lemma_mul_upper_bound(self.nx as int, 0xffff_ffff, self.ny as int, 0xffff_ffff);
            lemma_mul_upper_bound(
                self.nx * self.ny,
                0xffff_ffff * 0xffff_ffffint,
                self.nz as int,
                0xffff_ffff,
            );
        }
        let plane: u64 = (self.nx as u64) * (self.ny as u64);
        let cells: u128 = (plane as u128) * (self.nz as u128);
        let bytes: u128 = 4 * cells;
        if bytes <= MAX_BUFFER_BYTES as u128 {
            Some(bytes as u64)
        } else {
            None
        }
    }

    /// Position of `c` in a field of this grid, or `None` where `c` lies
    /// outside the grid or the position cannot be held in a `usize`.
    pub fn index(&self, c: Cell) -> (at: Option<usize>)
        ensures
            at.is_some() == (self.contains(c) && self.index_of(c) <= usize::MAX),
            at matches Some(n) ==> n == self.index_of(c),
    {
        if !self.has_cell(c) {
            return None;
        }
        proof {
            lemma_mul_upper_bound(self.ny as int, 0xffff_ffff, c.k as int, 0xffff_ffff);
            lemma_mul_upper_bound(
                self.nx as int,
                0xffff_ffff,
                self.ny * c.k + c.j,
                0xffff_ffff * 0xffff_ffff + 0xffff_ffffint,
            );
        }
        let row: u64 = (self.ny as u64) * (c.k as u64) + (c.j as u64);
        let at: u128 = (self.nx as u128) * (row as u128) + (c.i as u128);
        if at <= usize::MAX as u128 {
            Some(at as usize)
        } else {
            None
        }
    }
}

} // verus!
