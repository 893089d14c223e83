//! The toroidal grid: a flat buffer of cell colors with wrapped 2D indexing.
//!
//! A cell (x, y) lives at flat index x + width * y, so rows are contiguous
//! and x is the fastest-varying index. The wrap step keeps every stored
//! position in range, so the accessors require in-range coordinates instead
//! of re-checking them; the product width * height is checked once, at
//! construction.

use vstd::prelude::*;

verus! {

use crate::space::Pos;
use crate::table::color_value;
use crate::table::State;

/// The flat index of a position in a row-major buffer of the given width.
pub open spec fn cell_index(p: Pos, width: int) -> int {
    p.0 as int + width * (p.1 as int)
}

/// The byte snapshot of a cell buffer: one byte per cell, the cell's integer
/// value (0 for Black, 1 for White), in the buffer's row-major order.
pub open spec fn snapshot_spec(g: Seq<State>) -> Seq<u8> {
    Seq::new(g.len(), |i: int| color_value(g[i]) as u8)
}

/// A position strictly inside a width-by-height grid indexes strictly inside
/// its flat buffer.
pub proof fn lemma_cell_index_in_range(p: Pos, w: int, h: int)
    requires
        p.0 < w,
        p.1 < h,
    ensures
        0 <= cell_index(p, w) < w * h,
{
    assert(p.0 as int + w * (p.1 as int) < w * h) by (nonlinear_arith)
        requires
            p.0 < w,
            p.1 < h,
            0 <= p.0,
            0 <= p.1,
    ;
}

/// A fixed-size toroidal grid of cell colors, stored as one flat row-major
/// buffer of width * height cells.
pub struct Grid {
    /// The cell colors, row-major: cell (x, y) is at index x + width * y.
    pub states: Vec<State>,
    pub width: usize,
    pub height: usize,
}

impl Grid {
    /// The buffer holds exactly one cell per grid coordinate.
    pub open spec fn wf(&self) -> bool {
        self.states@.len() == self.width * self.height
    }

    /// Allocates a width-by-height grid with every cell Black.
    pub fn new(width: usize, height: usize) -> (g: Grid)
        requires
            width * height <= usize::MAX,
        ensures
            g.wf(),
            g.width == width,
            g.height == height,
            forall|i: int| 0 <= i < g.states@.len() ==> g.states@[i] == State::Black,
    {
        let n = width * height;
        let mut states: Vec<State> = Vec::new();
        let mut i: usize = 0;
        while i < n
            invariant
                i <= n,
                states@.len() == i,
                forall|j: int| 0 <= j < i ==> states@[j] == State::Black,
            decreases n - i,
        {
            states.push(State::Black);
            i = i + 1;
        }
        Grid { states, width, height }
    }

    /// Reads the color of the cell at an in-range position.
    pub fn get(&self, pos: Pos) -> (c: State)
        requires
            self.wf(),
            pos.0 < self.width,
            pos.1 < self.height,
        ensures
            c == self.states@[cell_index(pos, self.width as int)],
    {
        proof {
            assert(self.states.len() == self.states@.len());
            lemma_cell_index_in_range(pos, self.width as int, self.height as int);
        }
        let i = pos.0 + self.width * pos.1;
        self.states[i]
    }

    /// Paints the cell at an in-range position, leaving every other cell and
    /// the grid dimensions unchanged.
    pub fn set(&mut self, pos: Pos, color: State)
        requires
            old(self).wf(),
            pos.0 < old(self).width,
            pos.1 < old(self).height,
        ensures
            final(self).wf(),
            final(self).width == old(self).width,
            final(self).height == old(self).height,
            final(self).states@ == old(self).states@.update(
                cell_index(pos, old(self).width as int),
                color,
            ),
    {
        proof {
            assert(self.states.len() == self.states@.len());
            lemma_cell_index_in_range(pos, self.width as int, self.height as int);
        }
        let i = pos.0 + self.width * pos.1;
        self.states.set(i, color);
    }

    /// Produces the byte snapshot of the grid for an exporter: one byte per
    /// cell holding the cell's integer value (0 or 1), row-major, of length
    /// exactly width * height when the grid is well formed. Pure read.
    pub fn snapshot_as_bytes(&self) -> (r: Vec<u8>)
        ensures
            r@ == snapshot_spec(self.states@),
            r@.len() == self.states@.len(),
            self.wf() ==> r@.len() == self.width * self.height,
            forall|i: int| 0 <= i < r@.len() ==> r@[i] == 0 || r@[i] == 1,
    {
        let mut bytes: Vec<u8> = Vec::new();
        let mut i: usize = 0;
        while i < self.states.len()
            invariant
                i <= self.states@.len(),
                bytes@.len() == i,
                forall|j: int| 0 <= j < i ==> bytes@[j] == color_value(self.states@[j]) as u8,
            decreases self.states@.len() - i,
        {
            let b: u8 = match self.states[i] {
                State::Black => 0,
                State::White => 1,
            };
            bytes.push(b);
            i = i + 1;
        }
        proof {
            assert(bytes@ =~= snapshot_spec(self.states@));
        }
        bytes
    }
}

} // verus!
