//! Cell colors, transition rules, and the transition table.
//!
//! The table is an ordered sequence indexed by agent state; each entry holds
//! one rule for each of the two cell colors. It is built once at setup and
//! never changes while a simulation runs; looking up a state the table does
//! not cover is a configuration error that names the offending state.

use vstd::prelude::*;

verus! {

/// The color of one grid cell. Exactly two values exist; Black maps to the
/// integer 0 and White to 1, used both for rule selection and pixel output.
#[derive(Copy, Clone, PartialEq, Eq, Structural, Debug)]
pub enum State {
    Black,
    White,
}

/// The integer value of a cell color: Black is 0, White is 1.
pub open spec fn color_value(c: State) -> int {
    match c {
        State::Black => 0,
        State::White => 1,
    }
}

impl State {
    /// The integer value of this color.
    pub fn to_val(&self) -> (r: u32)
        ensures
            r == color_value(*self),
    {
        match self {
            State::Black => 0,
            State::White => 1,
        }
    }
}

/// One transition rule: when an agent in some state reads some cell color,
/// it paints the cell `new_state`, takes `new_color` as its next agent state,
/// and turns by the signed rotation offset. Immutable once constructed.
#[derive(Copy, Clone, PartialEq, Eq, Structural, Debug)]
pub struct StateTransition {
    /// The agent state the turmite takes after this transition.
    pub new_color: u8,
    /// The color painted onto the cell the turmite occupies.
    pub new_state: State,
    /// Signed quarter-turn offset added to the direction index modulo 4.
    pub rotation: i8,
}

/// The configuration error raised when a turmite carries an agent state the
/// transition table has no entry for; it names the offending state value.
#[derive(Copy, Clone, PartialEq, Eq, Structural, Debug)]
pub struct UndefinedState {
    pub state: u8,
}

/// The rule a table yields for an agent state and a cell color: the entry at
/// the state's index, first component for Black, second for White.
pub open spec fn spec_lookup(
    table: Seq<(StateTransition, StateTransition)>,
    state: int,
    color: State,
) -> StateTransition {
    match color {
        State::Black => table[state].0,
        State::White => table[state].1,
    }
}

/// An immutable lookup structure mapping (agent state, cell color) to a
/// transition rule; row `s` holds the rules for agent state `s`.
pub struct TransitionTable {
    /// One entry per agent state: (rule when reading Black, rule when
    /// reading White).
    pub rules: Vec<(StateTransition, StateTransition)>,
}

impl TransitionTable {
    /// Builds a table from one (rule-for-Black, rule-for-White) pair per
    /// agent state value, in order.
    pub fn new(rules: Vec<(StateTransition, StateTransition)>) -> (t: TransitionTable)
        ensures
            t.rules@ == rules@,
    {
        TransitionTable { rules }
    }

    /// The number of agent states the table covers.
    pub fn len(&self) -> (n: usize)
        ensures
            n == self.rules@.len(),
    {
        self.rules.len()
    }

    /// Looks up the rule for an agent state and a cell color. Succeeds if and
    /// only if the state has an entry; a state at or beyond the table length
    /// yields the configuration error naming that state.
    pub fn lookup(&self, state: u8, color: State) -> (r: Result<StateTransition, UndefinedState>)
        ensures
            r is Ok <==> (state as int) < self.rules@.len(),
            (state as int) < self.rules@.len() ==> r == Ok::<StateTransition, UndefinedState>(
                spec_lookup(self.rules@, state as int, color),
            ),
            (state as int) >= self.rules@.len() ==> r == Err::<StateTransition, UndefinedState>(
                UndefinedState { state },
            ),
    {
        if (state as usize) < self.rules.len() {
            let pair = self.rules[state as usize];
            match color {
                State::Black => Ok(pair.0),
                State::White => Ok(pair.1),
            }
        } else {
            Err(UndefinedState { state })
        }
    }
}

} // verus!
