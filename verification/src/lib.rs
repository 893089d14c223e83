//! A verified simulation core for turmites: Turing-machine-like agents that
//! move over a toroidal two-dimensional grid of binary cells. Each tick an
//! agent reads the color of the cell it occupies, looks up a transition rule
//! keyed by (agent state, cell color), repaints the cell, rotates, changes
//! state, and advances one cell in the direction it was facing before the
//! rotation, wrapping around the grid edges.
//!
//! Rendering and file export consume read-only snapshots of the grid and live
//! outside this crate.

use vstd::prelude::*;

pub mod engine;
pub mod grid;
pub mod space;
pub mod table;

verus! {

/// The smallest multiple of `bits` that is at least `val`. Exporters use this
/// to round a row or buffer size up to an alignment boundary.
pub open spec fn padded_size(val: int, bits: int) -> int {
    if val % bits == 0 {
        val
    } else {
        val + bits - val % bits
    }
}

/// Rounds `val` up to the next multiple of `bits`.
pub fn pad(val: usize, bits: usize) -> (r: u32)
    requires
        0 < bits,
        val + bits <= u32::MAX,
    ensures
        r == padded_size(val as int, bits as int),
{
    let rem = val % bits;
    if rem > 0 {
        (val + bits - rem) as u32
    } else {
        val as u32
    }
}

} // verus!
