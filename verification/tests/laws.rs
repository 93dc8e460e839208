use kociemba::cube::Ranked;
use kociemba::Corner::{DBL, DFR, DLF, DRB, UBR, UFL, ULB, URF};
use kociemba::{
    get_co_transition_table, get_eo_transition_table, num_inversions, COCoord, Coord, Corner,
    Cube, EOCoord, Edge, Face, Move,
};

const FACES: [Face; 6] = [Face::U, Face::R, Face::F, Face::D, Face::B, Face::L];

fn scrambled() -> Cube {
    let moves = [
        Move(Face::R, 1),
        Move(Face::U, 2),
        Move(Face::F, 3),
        Move(Face::L, 1),
        Move(Face::D, 2),
        Move(Face::B, 1),
    ];
    let mut cube = Cube::solved();
    for m in &moves {
        cube = cube.apply_move(*m);
    }
    cube
}

#[test]
fn closure_all_moves() {
    let base = scrambled();
    assert!(base.verify().is_ok());
    for &f in &FACES {
        for m in 1..4 {
            let moved = base.apply_move(Move(f, m));
            assert!(moved.verify().is_ok());
        }
    }
}

#[test]
fn four_turns_restore() {
    let base = scrambled();
    for &f in &FACES {
        for m in 1..4 {
            let mut cube = base;
            for _ in 0..4 {
                cube = cube.apply_move(Move(f, m));
            }
            assert_eq!(base, cube);
        }
    }
}

#[test]
fn move_then_inverse_restores() {
    let base = scrambled();
    for &f in &FACES {
        for m in 1..4 {
            let cube = base.apply_move(Move(f, m)).apply_move(Move(f, 4 - m));
            assert_eq!(base, cube);
        }
    }
}

#[test]
fn repeated_single_turns() {
    let base = scrambled();
    for &f in &FACES {
        let twice = base.apply_move(Move(f, 1)).apply_move(Move(f, 1));
        assert_eq!(base.apply_move(Move(f, 2)), twice);
        let thrice = twice.apply_move(Move(f, 1));
        assert_eq!(base.apply_move(Move(f, 3)), thrice);
    }
}

#[test]
fn inversion_counts() {
    let identity = [URF, UFL, ULB, UBR, DFR, DLF, DBL, DRB];
    assert_eq!(0, num_inversions(&identity));
    let one_swap = [UFL, URF, ULB, UBR, DFR, DLF, DBL, DRB];
    assert_eq!(1, num_inversions(&one_swap));
    let reversed = [DRB, DBL, DLF, DFR, UBR, ULB, UFL, URF];
    assert_eq!(28, num_inversions(&reversed));
}

#[test]
fn rank_round_trip() {
    for i in 0..8 {
        assert_eq!(i, Corner::from_index(i).rank());
    }
    for i in 0..12 {
        assert_eq!(i, Edge::from_index(i).rank());
    }
    for (k, &f) in FACES.iter().enumerate() {
        assert_eq!(k, f.index());
    }
}

#[test]
fn eo_transition_matches_probe() {
    let table = get_eo_transition_table();
    assert_eq!(2048, table.len());
    for &i in &[0usize, 1, 2, 37, 1024, 2047] {
        let mut probe = Cube::solved();
        EOCoord::set_coord(&mut probe, i);
        for &f in &FACES {
            let moved = probe.apply_move(Move(f, 1));
            assert_eq!(table[i][f.index()], EOCoord::get_coord(&moved));
            assert!(table[i][f.index()] < 2048);
        }
    }
}

#[test]
fn co_transition_matches_probe() {
    let table = get_co_transition_table();
    assert_eq!(2187, table.len());
    for &i in &[0usize, 1, 2, 81, 1000, 2186] {
        let mut probe = Cube::solved();
        COCoord::set_coord(&mut probe, i);
        for &f in &FACES {
            let moved = probe.apply_move(Move(f, 1));
            assert_eq!(table[i][f.index()], COCoord::get_coord(&moved));
            assert!(table[i][f.index()] < 2187);
        }
    }
}

#[test]
fn half_turn_via_table_twice() {
    // Turning a face twice walks the same table column twice.
    let eo = get_eo_transition_table();
    let mut probe = Cube::solved();
    EOCoord::set_coord(&mut probe, 37);
    for &f in &FACES {
        let moved = probe.apply_move(Move(f, 2));
        let step = eo[37][f.index()];
        assert_eq!(eo[step][f.index()], EOCoord::get_coord(&moved));
    }
}
