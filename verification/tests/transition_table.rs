use kociemba::Corner::{DBL, DFR, DLF, DRB, UBR, UFL, ULB, URF};
use kociemba::Edge::{BL, BR, DB, DF, DL, DR, FL, FR, UB, UF, UL, UR};
use kociemba::{COCoord, Coord, Cube, EOCoord, Face, Move, NUM_CORNERS, NUM_EDGES};
use kociemba::{get_co_transition_table, get_eo_transition_table};

fn exhaustive_coord_check<T: Coord>() {
    for i in 0..T::num_elems() {
        let mut c = Cube::solved();
        T::set_coord(&mut c, i);
        assert_eq!(i, T::get_coord(&c));
    }
}

#[test]
fn eo_coord() {
    let c = Cube::solved();
    assert_eq!(0, EOCoord::get_coord(&c));

    for i in 1..4 {
        let c = c.apply_move(Move(Face::U, i));
        assert_eq!(0, EOCoord::get_coord(&c));
    }

    let c = Cube::new(
        [URF, UFL, ULB, UBR, DFR, DLF, DBL, DRB],
        [0; NUM_CORNERS],
        [UR, UF, UL, UB, DR, DF, DL, DB, FR, FL, BL, BR],
        [1; NUM_EDGES],
    );
    assert_eq!(EOCoord::num_elems() - 1, EOCoord::get_coord(&c));
}

#[test]
fn eo_transition() {
    let eo = get_eo_transition_table();

    let c = Cube::solved();
    let c = c.apply_move(Move(Face::U, 3));
    assert_eq!(0, eo[EOCoord::get_coord(&c)][Face::U.index()]);
}

#[test]
fn eo_coord_exhaustive() {
    exhaustive_coord_check::<EOCoord>();
}

#[test]
fn co_coord() {
    let c = Cube::solved();
    assert_eq!(0, COCoord::get_coord(&c));

    for i in 1..4 {
        let c = c.apply_move(Move(Face::U, i));
        assert_eq!(0, COCoord::get_coord(&c));
    }

    let c = Cube::new(
        [URF, UFL, ULB, UBR, DFR, DLF, DBL, DRB],
        [2, 2, 2, 2, 2, 2, 2, 1],
        [UR, UF, UL, UB, DR, DF, DL, DB, FR, FL, BL, BR],
        [0; NUM_EDGES],
    );
    assert_eq!(COCoord::num_elems() - 1, COCoord::get_coord(&c));
}

#[test]
fn co_transition() {
    let co = get_co_transition_table();

    let c = Cube::solved();
    let c = c.apply_move(Move(Face::F, 3));
    assert_eq!(0, co[COCoord::get_coord(&c)][Face::F.index()]);
}

#[test]
fn co_coord_exhaustive() {
    exhaustive_coord_check::<COCoord>();
}
