//! The simulation engine: turmites and the tick that advances them.
//!
//! One tick visits every turmite in storage order. A turmite reads the color
//! of the cell it occupies, looks up the rule for its (agent state, color)
//! pair, paints that cell, takes the rule's next agent state, stores the
//! rotated direction for the next tick, and moves one cell in the direction
//! it was facing before the rotation, wrapping around the grid edges. When
//! turmites share a cell within one tick, the later one in storage order
//! paints last and wins.

use vstd::prelude::*;

verus! {

use crate::grid::cell_index;
use crate::grid::lemma_cell_index_in_range;
use crate::grid::snapshot_spec;
use crate::grid::Grid;
use crate::space::offset_for;
use crate::space::rotate_dir;
use crate::space::spec_offset;
use crate::space::spec_rotate;
use crate::space::spec_wrap;
use crate::space::wrap_add;
use crate::space::Pos;
use crate::table::spec_lookup;
use crate::table::State;
use crate::table::StateTransition;
use crate::table::TransitionTable;
use crate::table::UndefinedState;

/// One agent: an agent state indexing a row of the transition table, a facing
/// direction index in [0, 4), and a wrapped grid position. Mutated in place
/// every tick.
#[derive(Copy, Clone, PartialEq, Eq, Structural, Debug)]
pub struct Turmite {
    /// The agent state, a row index into the transition table.
    pub state: u8,
    /// The facing direction index, in [0, 4).
    pub dir: i8,
    /// The current position, always in range of the grid.
    pub pos: Pos,
}

impl Turmite {
    /// A fresh turmite at the given position, in agent state 0, facing the
    /// direction with index 0.
    pub fn new(pos: Pos) -> (t: Turmite)
        ensures
            t.state == 0,
            t.dir == 0,
            t.pos == pos,
    {
        Turmite { state: 0, dir: 0, pos }
    }
}

/// A turmite fits a width-by-height grid: its position is in range and its
/// direction index is in [0, 4).
pub open spec fn turmite_wf(t: Turmite, width: int, height: int) -> bool {
    t.pos.0 < width && t.pos.1 < height && 0 <= t.dir < 4
}

/// Every turmite in the sequence carries an agent state the table covers.
pub open spec fn states_defined(ts: Seq<Turmite>, table_len: int) -> bool {
    forall|i: int| 0 <= i < ts.len() ==> (#[trigger] ts[i].state as int) < table_len
}

/// Index `k` holds the first turmite whose agent state the table does not
/// cover.
pub open spec fn first_undefined(ts: Seq<Turmite>, table_len: int, k: int) -> bool {
    &&& 0 <= k < ts.len()
    &&& (ts[k].state as int) >= table_len
    &&& forall|j: int| 0 <= j < k ==> (#[trigger] ts[j].state as int) < table_len
}

/// The grid buffer after one turmite's visit: the cell the turmite occupies,
/// repainted with the color its rule prescribes for the color it read there.
pub open spec fn painted_grid(
    g: Seq<State>,
    t: Turmite,
    table: Seq<(StateTransition, StateTransition)>,
    w: int,
) -> Seq<State> {
    g.update(cell_index(t.pos, w), spec_lookup(table, t.state as int, g[cell_index(t.pos, w)]).new_state)
}

/// The turmite after its own visit, given the grid buffer it reads: it takes
/// the rule's next agent state, stores the rotated direction, and moves one
/// wrapped cell in the direction it was facing before the rotation.
pub open spec fn stepped_turmite(
    g: Seq<State>,
    t: Turmite,
    table: Seq<(StateTransition, StateTransition)>,
    w: int,
    h: int,
) -> Turmite {
    let rule = spec_lookup(table, t.state as int, g[cell_index(t.pos, w)]);
    Turmite {
        state: rule.new_color,
        dir: spec_rotate(t.dir as int, rule.rotation as int) as i8,
        pos: Pos(
            spec_wrap(t.pos.0 as int, spec_offset(t.dir as int).0, w) as usize,
            spec_wrap(t.pos.1 as int, spec_offset(t.dir as int).1, h) as usize,
        ),
    }
}

/// The grid buffer after the first `i` turmites of a tick have painted, in
/// storage order, starting from buffer `g`.
pub open spec fn grid_after(
    g: Seq<State>,
    ts: Seq<Turmite>,
    table: Seq<(StateTransition, StateTransition)>,
    w: int,
    i: int,
) -> Seq<State>
    decreases i,
{
    if i <= 0 {
        g
    } else {
        painted_grid(grid_after(g, ts, table, w, i - 1), ts[i - 1], table, w)
    }
}

/// Turmite `i` after its visit in a tick that started from buffer `g`: it
/// reads the grid as left by the turmites before it in storage order.
pub open spec fn turmite_after(
    g: Seq<State>,
    ts: Seq<Turmite>,
    table: Seq<(StateTransition, StateTransition)>,
    w: int,
    h: int,
    i: int,
) -> Turmite {
    stepped_turmite(grid_after(g, ts, table, w, i), ts[i], table, w, h)
}

/// The grid buffer after one full tick over all turmites.
pub open spec fn tick_grid(
    g: Seq<State>,
    ts: Seq<Turmite>,
    table: Seq<(StateTransition, StateTransition)>,
    w: int,
) -> Seq<State> {
    grid_after(g, ts, table, w, ts.len() as int)
}

/// The turmite sequence after one full tick.
pub open spec fn tick_turmites(
    g: Seq<State>,
    ts: Seq<Turmite>,
    table: Seq<(StateTransition, StateTransition)>,
    w: int,
    h: int,
) -> Seq<Turmite> {
    Seq::new(ts.len(), |i: int| turmite_after(g, ts, table, w, h, i))
}

/// Grid buffer and turmite sequence after `n` full ticks.
pub open spec fn run(
    g: Seq<State>,
    ts: Seq<Turmite>,
    table: Seq<(StateTransition, StateTransition)>,
    w: int,
    h: int,
    n: nat,
) -> (Seq<State>, Seq<Turmite>)
    decreases n,
{
    if n == 0 {
        (g, ts)
    } else {
        let prev = run(g, ts, table, w, h, (n - 1) as nat);
        (tick_grid(prev.0, prev.1, table, w), tick_turmites(prev.0, prev.1, table, w, h))
    }
}

/// The buffer keeps its length through the first `i` visits of a tick.
pub proof fn lemma_grid_after_len(
    g: Seq<State>,
    ts: Seq<Turmite>,
    table: Seq<(StateTransition, StateTransition)>,
    w: int,
    i: int,
)
    requires
        0 <= i <= ts.len(),
        forall|k: int| 0 <= k < i ==> 0 <= cell_index(#[trigger] ts[k].pos, w) < g.len(),
    ensures
        grid_after(g, ts, table, w, i).len() == g.len(),
    decreases i,
{
    if i > 0 {
        lemma_grid_after_len(g, ts, table, w, i - 1);
    }
}

proof fn lemma_after_unvisited(
    g: Seq<State>,
    ts: Seq<Turmite>,
    table: Seq<(StateTransition, StateTransition)>,
    w: int,
    i: int,
    j: int,
)
    requires
        0 <= i <= ts.len(),
        0 <= j < g.len(),
        forall|k: int| 0 <= k < i ==> 0 <= cell_index(#[trigger] ts[k].pos, w) < g.len(),
        forall|k: int| 0 <= k < i ==> cell_index(#[trigger] ts[k].pos, w) != j,
    ensures
        grid_after(g, ts, table, w, i)[j] == g[j],
    decreases i,
{
    if i > 0 {
        lemma_after_unvisited(g, ts, table, w, i - 1, j);
        lemma_grid_after_len(g, ts, table, w, i - 1);
    }
}

proof fn lemma_after_visited(
    g: Seq<State>,
    ts: Seq<Turmite>,
    table: Seq<(StateTransition, StateTransition)>,
    w: int,
    i: int,
    j: int,
    k: int,
)
    requires
        0 <= k < i <= ts.len(),
        0 <= j < g.len(),
        forall|m: int| 0 <= m < i ==> 0 <= cell_index(#[trigger] ts[m].pos, w) < g.len(),
        cell_index(ts[k].pos, w) == j,
        forall|m: int| k < m < i ==> cell_index(#[trigger] ts[m].pos, w) != j,
    ensures
        grid_after(g, ts, table, w, i)[j] == spec_lookup(
            table,
            ts[k].state as int,
            grid_after(g, ts, table, w, k)[j],
        ).new_state,
    decreases i,
{
    lemma_grid_after_len(g, ts, table, w, i - 1);
    if i == k + 1 {
    } else {
        lemma_after_visited(g, ts, table, w, i - 1, j, k);
    }
}

/// Law (cell mutation locality, unchanged part): a tick leaves every cell
/// that no turmite occupies at the start of its visit exactly as it was.
pub proof fn lemma_tick_unvisited_unchanged(
    g: Seq<State>,
    ts: Seq<Turmite>,
    table: Seq<(StateTransition, StateTransition)>,
    w: int,
    h: int,
    j: int,
)
    requires
        g.len() == w * h,
        forall|k: int| 0 <= k < ts.len() ==> turmite_wf(#[trigger] ts[k], w, h),
        0 <= j < g.len(),
        forall|k: int| 0 <= k < ts.len() ==> cell_index(#[trigger] ts[k].pos, w) != j,
    ensures
        tick_grid(g, ts, table, w)[j] == g[j],
{
    assert forall|k: int| 0 <= k < ts.len() implies 0 <= cell_index(
        #[trigger] ts[k].pos,
        w,
    ) < g.len() by {
        lemma_cell_index_in_range(ts[k].pos, w, h);
    }
    lemma_after_unvisited(g, ts, table, w, ts.len() as int, j);
}

/// Law (cell mutation locality, changed part): after a tick, a visited cell
/// holds exactly the paint color prescribed by the rule that the last
/// turmite (in storage order) to visit it looked up for the color it read
/// there; `k` names that last visitor.
pub proof fn lemma_tick_visited_painted(
    g: Seq<State>,
    ts: Seq<Turmite>,
    table: Seq<(StateTransition, StateTransition)>,
    w: int,
    h: int,
    j: int,
    k: int,
)
    requires
        g.len() == w * h,
        forall|m: int| 0 <= m < ts.len() ==> turmite_wf(#[trigger] ts[m], w, h),
        0 <= j < g.len(),
        0 <= k < ts.len(),
        cell_index(ts[k].pos, w) == j,
        forall|m: int| k < m < ts.len() ==> cell_index(#[trigger] ts[m].pos, w) != j,
    ensures
        tick_grid(g, ts, table, w)[j] == spec_lookup(
            table,
            ts[k].state as int,
            grid_after(g, ts, table, w, k)[j],
        ).new_state,
{
    assert forall|m: int| 0 <= m < ts.len() implies 0 <= cell_index(
        #[trigger] ts[m].pos,
        w,
    ) < g.len() by {
        lemma_cell_index_in_range(ts[m].pos, w, h);
    }
    lemma_after_visited(g, ts, table, w, ts.len() as int, j, k);
}

/// Law (determinism): running any number of ticks from equal initial grids,
/// turmite sequences and tables yields equal states and byte-identical
/// snapshots; the model is a function of its arguments and of nothing else.
pub proof fn lemma_run_deterministic(
    g1: Seq<State>,
    ts1: Seq<Turmite>,
    g2: Seq<State>,
    ts2: Seq<Turmite>,
    table: Seq<(StateTransition, StateTransition)>,
    w: int,
    h: int,
    n: nat,
)
    requires
        g1 == g2,
        ts1 == ts2,
    ensures
        run(g1, ts1, table, w, h, n) == run(g2, ts2, table, w, h, n),
        snapshot_spec(run(g1, ts1, table, w, h, n).0) == snapshot_spec(
            run(g2, ts2, table, w, h, n).0,
        ),
{
}

/// The post-state of a tick that stopped at turmite `k` because its agent
/// state had no table entry: the turmites before `k` have visited, the rest
/// stand untouched, and the grid holds their paints.
pub open spec fn aborted_at(
    g0: Seq<State>,
    ts0: Seq<Turmite>,
    table: Seq<(StateTransition, StateTransition)>,
    w: int,
    h: int,
    g1: Seq<State>,
    ts1: Seq<Turmite>,
    k: int,
) -> bool {
    &&& first_undefined(ts0, table.len() as int, k)
    &&& g1 == grid_after(g0, ts0, table, w, k)
    &&& ts1.len() == ts0.len()
    &&& forall|i: int| 0 <= i < k ==> #[trigger] ts1[i] == turmite_after(g0, ts0, table, w, h, i)
    &&& forall|i: int| k <= i < ts0.len() ==> #[trigger] ts1[i] == ts0[i]
}

impl Grid {
    /// Advances the whole system by exactly one tick: every turmite, in
    /// storage order, reads its cell, applies its rule, paints, and moves.
    /// Succeeds if and only if every turmite's agent state has a table entry;
    /// otherwise it stops at the first turmite whose state is uncovered,
    /// returns the configuration error naming that state, and leaves the
    /// earlier turmites' work in place.
    pub fn step(&mut self, turmites: &mut Vec<Turmite>, state_table: &TransitionTable) -> (r:
        Result<(), UndefinedState>)
        requires
            old(self).wf(),
            forall|i: int| 0 <= i < old(turmites)@.len() ==> turmite_wf(
                #[trigger] old(turmites)@[i],
                old(self).width as int,
                old(self).height as int,
            ),
        ensures
            final(self).wf(),
            final(self).width == old(self).width,
            final(self).height == old(self).height,
            final(turmites)@.len() == old(turmites)@.len(),
            forall|i: int| 0 <= i < final(turmites)@.len() ==> turmite_wf(
                #[trigger] final(turmites)@[i],
                old(self).width as int,
                old(self).height as int,
            ),
            r is Ok <==> states_defined(old(turmites)@, state_table.rules@.len() as int),
            r is Ok ==> final(self).states@ == tick_grid(
                old(self).states@,
                old(turmites)@,
                state_table.rules@,
                old(self).width as int,
            ),
            r is Ok ==> final(turmites)@ == tick_turmites(
                old(self).states@,
                old(turmites)@,
                state_table.rules@,
                old(self).width as int,
                old(self).height as int,
            ),
            r is Err ==> exists|k: int|
                #[trigger] aborted_at(
                    old(self).states@,
                    old(turmites)@,
                    state_table.rules@,
                    old(self).width as int,
                    old(self).height as int,
                    final(self).states@,
                    final(turmites)@,
                    k,
                ) && r == Err::<(), UndefinedState>(
                    UndefinedState { state: old(turmites)@[k].state },
                ),
    {
        let ghost g0 = self.states@;
        let ghost ts0 = turmites@;
        let ghost tbl = state_table.rules@;
        let ghost w = self.width as int;
        let ghost h = self.height as int;
        let n = turmites.len();
        let mut i: usize = 0;
        while i < n
            invariant
                g0 == old(self).states@,
                ts0 == old(turmites)@,
                w == old(self).width as int,
                h == old(self).height as int,
                i <= n,
                n == ts0.len(),
                turmites@.len() == ts0.len(),
                self.wf(),
                self.width == w,
                self.height == h,
                state_table.rules@ == tbl,
                forall|j: int| 0 <= j < ts0.len() ==> turmite_wf(#[trigger] ts0[j], w, h),
                forall|j: int| i <= j < ts0.len() ==> #[trigger] turmites@[j] == ts0[j],
                forall|j: int| 0 <= j < i ==> (#[trigger] ts0[j].state as int) < tbl.len(),
                forall|j: int| 0 <= j < i ==> #[trigger] turmites@[j] == turmite_after(
                    g0,
                    ts0,
                    tbl,
                    w,
                    h,
                    j,
                ),
                forall|j: int| 0 <= j < i ==> turmite_wf(#[trigger] turmites@[j], w, h),
                self.states@ == grid_after(g0, ts0, tbl, w, i as int),
            decreases n - i,
        {
            let t = turmites[i];
            let cell = self.get(t.pos);
            let rule = match state_table.lookup(t.state, cell) {
                Ok(rule) => rule,
                Err(e) => {
                    proof {
                        assert(first_undefined(ts0, tbl.len() as int, i as int));
                        assert(aborted_at(
                            g0,
                            ts0,
                            tbl,
                            w,
                            h,
                            self.states@,
                            turmites@,
                            i as int,
                        ));
                        assert(!states_defined(ts0, tbl.len() as int));
                    }
                    return Err(e);
                },
            };
            let new_dir = rotate_dir(t.dir, rule.rotation);
            let (dx, dy) = offset_for(t.dir);
            self.set(t.pos, rule.new_state);
            let nx = wrap_add(t.pos.0, dx, self.width);
            let ny = wrap_add(t.pos.1, dy, self.height);
            let stepped = Turmite { state: rule.new_color, dir: new_dir, pos: Pos(nx, ny) };
            turmites.set(i, stepped);
            proof {
                assert(grid_after(g0, ts0, tbl, w, i + 1) == painted_grid(
                    grid_after(g0, ts0, tbl, w, i as int),
                    ts0[i as int],
                    tbl,
                    w,
                ));
                assert(stepped == turmite_after(g0, ts0, tbl, w, h, i as int));
            }
            i = i + 1;
        }
        proof {
            assert(turmites@ =~= tick_turmites(g0, ts0, tbl, w, h));
        }
        Ok(())
    }
}

} // verus!
