use kociemba::Edge::{BL, BR, FL, FR};
use kociemba::{
    get_co_prune_table, get_co_transition_table, get_eo_prune_table, get_eo_transition_table,
    is_g1, is_solved, phase0, phase1, solve, Cube, Face, Move, PruneTables,
};

fn prune_tables() -> PruneTables {
    let eo_t = get_eo_transition_table();
    let co_t = get_co_transition_table();
    PruneTables {
        eo: get_eo_prune_table(&eo_t),
        co: get_co_prune_table(&co_t),
    }
}

fn apply_all(mut cube: Cube, moves: &[Move]) -> Cube {
    for m in moves {
        cube = cube.apply_move(*m);
    }
    cube
}

#[test]
fn solve_solved_cube_is_empty() {
    let tables = prune_tables();
    let cube = Cube::solved();
    let solution = solve(&cube, &tables, 4, 4).unwrap();
    assert!(solution.is_empty());
}

#[test]
fn solve_g1_scramble() {
    // A scramble of G1-preserving moves: phase 0 has nothing to do.
    let tables = prune_tables();
    let scramble = [
        Move(Face::U, 1),
        Move(Face::R, 2),
        Move(Face::U, 3),
        Move(Face::F, 2),
    ];
    let cube = apply_all(Cube::solved(), &scramble);
    assert!(is_g1(&cube));
    let solution = solve(&cube, &tables, 2, 6).unwrap();
    let restored = apply_all(cube, &solution);
    assert_eq!(Cube::solved(), restored);
}

#[test]
fn solve_quarter_turn_scramble() {
    let tables = prune_tables();
    let cube = Cube::solved().apply_move(Move(Face::R, 1));
    let solution = solve(&cube, &tables, 2, 4).unwrap();
    assert!(!solution.is_empty());
    let restored = apply_all(cube, &solution);
    assert_eq!(Cube::solved(), restored);
    assert!(is_solved(&restored));
}

#[test]
fn phase0_reaches_g1() {
    let tables = prune_tables();
    let scramble = [Move(Face::R, 1), Move(Face::F, 1)];
    let cube = apply_all(Cube::solved(), &scramble);
    assert!(!is_g1(&cube));
    let (moves, out) = phase0(&cube, &tables, 4).unwrap();
    assert_eq!(out, apply_all(cube, &moves));
    assert!(is_g1(&out));
    assert_eq!([0u8; 8], out.co);
    assert_eq!([0u8; 12], out.eo);
    for slot in 8..12 {
        let e = out.ep[slot];
        assert!(e == FR || e == FL || e == BL || e == BR);
    }
}

#[test]
fn phase1_solves_g1_member() {
    let scramble = [Move(Face::D, 1), Move(Face::B, 2), Move(Face::U, 2)];
    let cube = apply_all(Cube::solved(), &scramble);
    assert!(is_g1(&cube));
    let moves = phase1(&cube, 5).unwrap();
    assert!(is_solved(&apply_all(cube, &moves)));
}

#[test]
fn phase0_is_depth_optimal() {
    // One quarter turn of R leaves G1; one move returns to it, and the
    // search may not answer with more.
    let tables = prune_tables();
    let cube = Cube::solved().apply_move(Move(Face::R, 1));
    let (moves, out) = phase0(&cube, &tables, 3).unwrap();
    assert_eq!(1, moves.len());
    assert!(is_g1(&out));
}

#[test]
fn phase_caps_report_failure() {
    // A state needing more moves than the cap allows is reported as
    // unsolved, not mis-solved.
    let tables = prune_tables();
    let scramble = [Move(Face::R, 1), Move(Face::F, 1), Move(Face::L, 1)];
    let cube = apply_all(Cube::solved(), &scramble);
    assert!(phase0(&cube, &tables, 0).is_none());
}
