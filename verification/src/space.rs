//! Positions, directions and rotations on a toroidal grid.
//!
//! A direction is kept as an integer index in [0, 4) so that rotation becomes
//! addition modulo 4; movement adds a unit offset to the position and wraps
//! with Euclidean modulo, so stored coordinates are never out of range.

use vstd::prelude::*;

verus! {

use vstd::arithmetic::div_mod::lemma_mod_add_multiples_vanish;
use vstd::arithmetic::div_mod::lemma_mod_multiples_vanish;
use vstd::arithmetic::div_mod::lemma_mod_self_0;
use vstd::arithmetic::div_mod::lemma_small_mod;

/// A grid coordinate pair (x, y), with x in [0, width) and y in [0, height).
/// Wrap-around is applied at the point of movement, so a stored position is
/// never out of range.
#[derive(Copy, Clone, PartialEq, Eq, Structural, Debug)]
pub struct Pos(pub usize, pub usize);

/// The four facing directions, in the order of their integer indices:
/// North is 0, East 1, South 2, West 3.
#[derive(Copy, Clone, PartialEq, Eq, Structural, Debug)]
pub enum Direction {
    North,
    East,
    South,
    West,
}

/// Named rotation offsets. The engine itself consumes a raw signed offset
/// (0 straight, +1 and -1 quarter turns, +2 or -2 reverse); these variants
/// only name the four distinct outcomes for callers that prefer words.
#[derive(Copy, Clone, PartialEq, Eq, Structural, Debug)]
pub enum Rotation {
    Straight,
    Left,
    Right,
    Reverse,
}

/// The integer index of a direction.
pub open spec fn dir_index(d: Direction) -> int {
    match d {
        Direction::North => 0,
        Direction::East => 1,
        Direction::South => 2,
        Direction::West => 3,
    }
}

/// The unit offset (dx, dy) for a direction index in [0, 4).
/// East and West are mirrored relative to compass convention (East moves
/// toward smaller x); this asymmetry is deliberate and preserved, since
/// changing it would change every rotation-driven trajectory.
pub open spec fn spec_offset(dir: int) -> (int, int) {
    if dir == 0 {
        (0, 1)
    } else if dir == 1 {
        (-1, 0)
    } else if dir == 2 {
        (0, -1)
    } else {
        (1, 0)
    }
}

/// The direction index after applying a signed rotation offset: addition
/// modulo 4, with the non-negative Euclidean remainder.
pub open spec fn spec_rotate(dir: int, rot: int) -> int {
    (dir + rot) % 4
}

/// One coordinate after moving by `dx` on an axis of length `m`, with
/// toroidal wrap-around: the non-negative Euclidean remainder of x + dx.
pub open spec fn spec_wrap(x: int, dx: int, m: int) -> int {
    (x + dx) % m
}

impl Direction {
    /// The unit offset this direction moves by.
    pub fn to_offset(&self) -> (r: (i8, i8))
        ensures
            (r.0 as int, r.1 as int) == spec_offset(dir_index(*self)),
    {
        match self {
            Direction::North => (0, 1),
            Direction::East => (-1, 0),
            Direction::South => (0, -1),
            Direction::West => (1, 0),
        }
    }
}

/// The unit offset for a direction kept as a raw index.
pub fn offset_for(dir: i8) -> (r: (i8, i8))
    requires
        0 <= dir < 4,
    ensures
        (r.0 as int, r.1 as int) == spec_offset(dir as int),
{
    if dir == 0 {
        (0, 1)
    } else if dir == 1 {
        (-1, 0)
    } else if dir == 2 {
        (0, -1)
    } else {
        (1, 0)
    }
}

/// Applies a signed rotation offset to a direction index, yielding an index
/// in [0, 4) by Euclidean modulo whatever the sign of the offset.
pub fn rotate_dir(dir: i8, rot: i8) -> (r: i8)
    requires
        0 <= dir < 4,
    ensures
        r as int == spec_rotate(dir as int, rot as int),
        0 <= r < 4,
{
    let t: u16 = ((dir as i16) + (rot as i16) + 128) as u16;
    proof {
        lemma_mod_multiples_vanish(32, dir as int + rot as int, 4);
        assert(t as int == dir as int + rot as int + 128);
    }
    (t % 4) as i8
}

/// Moves one coordinate by `dx` on an axis of length `m`, wrapping around the
/// edges, so the result is always back in [0, m).
pub fn wrap_add(x: usize, dx: i8, m: usize) -> (r: usize)
    requires
        0 < m,
        x < m,
        -1 <= dx <= 1,
    ensures
        r as int == spec_wrap(x as int, dx as int, m as int),
        r < m,
{
    if dx == 1 {
        if x + 1 == m {
            proof {
                lemma_mod_self_0(m as int);
            }
            0
        } else {
            proof {
                lemma_small_mod((x + 1) as nat, m as nat);
            }
            x + 1
        }
    } else if dx == -1 {
        if x == 0 {
            proof {
                lemma_mod_add_multiples_vanish(-1, m as int);
                lemma_small_mod((m - 1) as nat, m as nat);
            }
            m - 1
        } else {
            proof {
                lemma_small_mod((x - 1) as nat, m as nat);
            }
            x - 1
        }
    } else {
        proof {
            lemma_small_mod(x as nat, m as nat);
        }
        x
    }
}

/// Law: wrapped movement stays on the grid, and a step off an edge lands on
/// the opposite edge of its axis; a step that stays inside the axis moves by
/// exactly the offset.
pub proof fn lemma_wrap_opposite_edge(x: int, dx: int, m: int)
    requires
        0 < m,
        0 <= x < m,
        -1 <= dx <= 1,
    ensures
        0 <= spec_wrap(x, dx, m) < m,
        x == 0 && dx == -1 ==> spec_wrap(x, dx, m) == m - 1,
        x == m - 1 && dx == 1 ==> spec_wrap(x, dx, m) == 0,
        0 <= x + dx < m ==> spec_wrap(x, dx, m) == x + dx,
{
    if x == 0 && dx == -1 {
        lemma_mod_add_multiples_vanish(-1, m);
        lemma_small_mod((m - 1) as nat, m as nat);
    } else if x + dx == m {
        lemma_mod_self_0(m);
    } else {
        lemma_small_mod((x + dx) as nat, m as nat);
    }
}

/// Law: for every position and every direction, one wrapped move lands on the
/// grid, and a move that crosses an edge of either axis re-enters from the
/// opposite edge of that axis.
pub proof fn lemma_move_wraps_to_opposite_edge(x: int, y: int, dir: int, w: int, h: int)
    requires
        0 < w,
        0 < h,
        0 <= x < w,
        0 <= y < h,
        0 <= dir < 4,
    ensures
        0 <= spec_wrap(x, spec_offset(dir).0, w) < w,
        0 <= spec_wrap(y, spec_offset(dir).1, h) < h,
        x == 0 && spec_offset(dir).0 == -1 ==> spec_wrap(x, spec_offset(dir).0, w) == w - 1,
        x == w - 1 && spec_offset(dir).0 == 1 ==> spec_wrap(x, spec_offset(dir).0, w) == 0,
        y == 0 && spec_offset(dir).1 == -1 ==> spec_wrap(y, spec_offset(dir).1, h) == h - 1,
        y == h - 1 && spec_offset(dir).1 == 1 ==> spec_wrap(y, spec_offset(dir).1, h) == 0,
{
    lemma_wrap_opposite_edge(x, spec_offset(dir).0, w);
    lemma_wrap_opposite_edge(y, spec_offset(dir).1, h);
}

/// One quarter-turn advances the direction index cyclically.
pub proof fn lemma_rotate_one(dir: int)
    requires
        0 <= dir < 4,
    ensures
        spec_rotate(dir, 1) == if dir == 3 {
            0int
        } else {
            dir + 1
        },
{
    if dir + 1 < 4 {
        lemma_small_mod((dir + 1) as nat, 4);
    } else {
        lemma_mod_self_0(4);
    }
}

/// Law: a rotation lands in [0, 4), and four successive quarter-turns in the
/// same sense return a direction to itself.
pub proof fn lemma_rotate_four_times(dir: int)
    requires
        0 <= dir < 4,
    ensures
        0 <= spec_rotate(dir, 1) < 4,
        spec_rotate(spec_rotate(spec_rotate(spec_rotate(dir, 1), 1), 1), 1) == dir,
{
    lemma_rotate_one(dir);
    lemma_rotate_one(spec_rotate(dir, 1));
    lemma_rotate_one(spec_rotate(spec_rotate(dir, 1), 1));
    lemma_rotate_one(spec_rotate(spec_rotate(spec_rotate(dir, 1), 1), 1));
}

} // verus!
