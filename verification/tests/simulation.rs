use turmites::engine::Turmite;
use turmites::grid::Grid;
use turmites::space::Pos;
use turmites::table::{State, StateTransition, TransitionTable, UndefinedState};

fn classic_ant_table() -> TransitionTable {
    let rules = vec![
        (
            StateTransition { new_color: 0, new_state: State::White, rotation: -1 },
            StateTransition { new_color: 1, new_state: State::White, rotation: 1 },
        ),
        (
            StateTransition { new_color: 0, new_state: State::Black, rotation: 1 },
            StateTransition { new_color: 1, new_state: State::Black, rotation: -1 },
        ),
    ];
    TransitionTable::new(rules)
}

#[test]
fn new_grid_is_all_black() {
    let grid = Grid::new(4, 3);
    let bytes = grid.snapshot_as_bytes();
    assert_eq!(bytes.len(), 12);
    assert!(bytes.iter().all(|&b| b == 0));
}

#[test]
fn fresh_turmite_starts_in_state_zero_facing_north() {
    let t = Turmite::new(Pos(7, 9));
    assert_eq!(t.state, 0);
    assert_eq!(t.dir, 0);
    assert_eq!(t.pos, Pos(7, 9));
}

#[test]
fn snapshot_is_row_major() {
    let mut grid = Grid::new(4, 2);
    grid.set(Pos(1, 0), State::White);
    grid.set(Pos(1, 1), State::White);
    let bytes = grid.snapshot_as_bytes();
    assert_eq!(bytes.len(), 8);
    assert_eq!(bytes[1], 1);
    assert_eq!(bytes[5], 1);
    assert_eq!(bytes.iter().filter(|&&b| b == 1).count(), 2);
    assert_eq!(grid.get(Pos(1, 0)), State::White);
    assert_eq!(grid.get(Pos(0, 0)), State::Black);
}

#[test]
fn classic_two_state_ant_first_tick() {
    let mut grid = Grid::new(240, 160);
    let table = classic_ant_table();
    let mut turmites = vec![Turmite::new(Pos(120, 80))];

    let r = grid.step(&mut turmites, &table);
    assert!(r.is_ok());

    // The starting cell was Black and state 0 was used, so it is painted White.
    assert_eq!(grid.get(Pos(120, 80)), State::White);
    // Rotation -1 from direction 0 gives (0 - 1) mod 4 = 3.
    assert_eq!(turmites[0].dir, 3);
    // The move uses the direction from before the rotation: index 0, offset (0, 1).
    assert_eq!(turmites[0].pos, Pos(120, 81));
    assert_eq!(turmites[0].state, 0);
}

#[test]
fn movement_wraps_around_both_edges() {
    // All rules keep state 0 and rotation 0, so the turmite keeps its heading.
    let rules = vec![(
        StateTransition { new_color: 0, new_state: State::White, rotation: 0 },
        StateTransition { new_color: 0, new_state: State::White, rotation: 0 },
    )];
    let table = TransitionTable::new(rules);

    // Direction 2 moves by (0, -1): from y = 0 it wraps to the top edge.
    let mut grid = Grid::new(3, 3);
    let mut turmites = vec![Turmite { state: 0, dir: 2, pos: Pos(0, 0) }];
    assert!(grid.step(&mut turmites, &table).is_ok());
    assert_eq!(turmites[0].pos, Pos(0, 2));

    // Direction 1 moves by (-1, 0): from x = 0 it wraps to the far column.
    let mut grid = Grid::new(3, 3);
    let mut turmites = vec![Turmite { state: 0, dir: 1, pos: Pos(0, 1) }];
    assert!(grid.step(&mut turmites, &table).is_ok());
    assert_eq!(turmites[0].pos, Pos(2, 1));

    // Direction 3 moves by (1, 0): from the last column it wraps to x = 0.
    let mut grid = Grid::new(3, 3);
    let mut turmites = vec![Turmite { state: 0, dir: 3, pos: Pos(2, 1) }];
    assert!(grid.step(&mut turmites, &table).is_ok());
    assert_eq!(turmites[0].pos, Pos(0, 1));

    // Direction 0 moves by (0, 1): from the last row it wraps to y = 0.
    let mut grid = Grid::new(3, 3);
    let mut turmites = vec![Turmite { state: 0, dir: 0, pos: Pos(1, 2) }];
    assert!(grid.step(&mut turmites, &table).is_ok());
    assert_eq!(turmites[0].pos, Pos(1, 0));
}

#[test]
fn a_tick_changes_only_the_visited_cell() {
    let mut grid = Grid::new(3, 3);
    let table = classic_ant_table();
    let mut turmites = vec![Turmite::new(Pos(1, 1))];
    let before = grid.snapshot_as_bytes();

    assert!(grid.step(&mut turmites, &table).is_ok());

    let after = grid.snapshot_as_bytes();
    let changed: Vec<usize> =
        (0..before.len()).filter(|&i| before[i] != after[i]).collect();
    // Exactly the visited cell (1, 1), at flat index 1 + 3 * 1, changed, and
    // it was painted the rule's color: White.
    assert_eq!(changed, vec![4]);
    assert_eq!(after[4], 1);
}

#[test]
fn lookup_beyond_the_table_fails_with_the_state() {
    let table = classic_ant_table();
    assert_eq!(table.len(), 2);
    assert_eq!(
        table.lookup(5, State::Black),
        Err(UndefinedState { state: 5 })
    );
    assert_eq!(
        table.lookup(2, State::White),
        Err(UndefinedState { state: 2 })
    );
    let rule = table.lookup(0, State::Black).unwrap();
    assert_eq!(rule.new_state, State::White);
    assert_eq!(rule.new_color, 0);
    assert_eq!(rule.rotation, -1);
}

#[test]
fn step_fails_fast_on_an_undefined_state() {
    let mut grid = Grid::new(3, 3);
    let table = classic_ant_table();
    let mut turmites = vec![Turmite { state: 7, dir: 0, pos: Pos(1, 1) }];
    let before = grid.snapshot_as_bytes();

    let r = grid.step(&mut turmites, &table);

    assert_eq!(r, Err(UndefinedState { state: 7 }));
    // The offending turmite did not act: the grid and the turmite stand as
    // they were.
    assert_eq!(grid.snapshot_as_bytes(), before);
    assert_eq!(turmites[0], Turmite { state: 7, dir: 0, pos: Pos(1, 1) });
}

#[test]
fn step_stops_at_the_first_undefined_state() {
    let mut grid = Grid::new(4, 4);
    let table = classic_ant_table();
    let mut turmites = vec![
        Turmite::new(Pos(0, 0)),
        Turmite { state: 9, dir: 0, pos: Pos(2, 2) },
    ];

    let r = grid.step(&mut turmites, &table);

    assert_eq!(r, Err(UndefinedState { state: 9 }));
    // The first turmite completed its visit before the tick stopped.
    assert_eq!(grid.get(Pos(0, 0)), State::White);
    assert_eq!(turmites[0].pos, Pos(0, 1));
    // The offending turmite stands untouched.
    assert_eq!(turmites[1], Turmite { state: 9, dir: 0, pos: Pos(2, 2) });
}

#[test]
fn runs_from_equal_starts_give_identical_snapshots() {
    let mut grid_a = Grid::new(64, 48);
    let mut grid_b = Grid::new(64, 48);
    let table = classic_ant_table();
    let mut turmites_a = vec![Turmite::new(Pos(32, 24))];
    let mut turmites_b = vec![Turmite::new(Pos(32, 24))];

    for _ in 0..2000 {
        assert!(grid_a.step(&mut turmites_a, &table).is_ok());
    }
    for _ in 0..2000 {
        assert!(grid_b.step(&mut turmites_b, &table).is_ok());
    }

    assert_eq!(grid_a.snapshot_as_bytes(), grid_b.snapshot_as_bytes());
    assert_eq!(turmites_a[0], turmites_b[0]);
}

#[test]
fn colliding_turmites_resolve_by_storage_order() {
    // Two turmites on the same cell: the later one in storage order paints
    // last, so the cell ends with its rule's color.
    let rules = vec![
        (
            StateTransition { new_color: 0, new_state: State::White, rotation: 0 },
            StateTransition { new_color: 0, new_state: State::White, rotation: 0 },
        ),
        (
            StateTransition { new_color: 1, new_state: State::Black, rotation: 0 },
            StateTransition { new_color: 1, new_state: State::Black, rotation: 0 },
        ),
    ];
    let table = TransitionTable::new(rules);
    let mut grid = Grid::new(3, 3);
    let mut turmites = vec![
        Turmite { state: 0, dir: 0, pos: Pos(1, 1) },
        Turmite { state: 1, dir: 2, pos: Pos(1, 1) },
    ];

    assert!(grid.step(&mut turmites, &table).is_ok());

    // The first painted White, the second read White and repainted Black.
    assert_eq!(grid.get(Pos(1, 1)), State::Black);
}
