//! Transition tables: for each value of a coordinate and each face, the
//! coordinate reached after one quarter turn of that face. Double and
//! triple turns are obtained at search time by iterating a table entry.
use crate::coord::{
    lemma_co_coord_determines, lemma_co_coord_in_range, lemma_co_set_spec,
    lemma_eo_coord_determines, lemma_eo_coord_in_range, lemma_eo_set_spec, COCoord, Coord,
    EOCoord,
};
use crate::cube::{face_index, qt, qt_n, solved_state, valid, Cube, CubeV, Face, Move};
use crate::cube::lemma_solved_valid;
use crate::laws::{lemma_qt_n_valid, lemma_qt_valid};
use vstd::prelude::*;

verus! {

/// The face stored in table column `k`.
pub open spec fn face_of_index(k: int) -> Face {
    if k == 0 {
        Face::U
    } else if k == 1 {
        Face::R
    } else if k == 2 {
        Face::F
    } else if k == 3 {
        Face::D
    } else if k == 4 {
        Face::B
    } else {
        Face::L
    }
}

/// The table entry owed at value `i` under face `f`: the coordinate of
/// the canonical probe state for `i` after one quarter turn of `f`.
pub open spec fn transition_entry<T: Coord>(i: int, f: Face) -> int {
    T::coord_of(qt(T::set_spec(solved_state(), i), f))
}

pub(crate) fn face_from_index(k: usize) -> (f: Face)
    requires
        k < 6,
    ensures
        f == face_of_index(k as int),
        face_index(f) == k as int,
{
    match k {
        0 => Face::U,
        1 => Face::R,
        2 => Face::F,
        3 => Face::D,
        4 => Face::B,
        _ => Face::L,
    }
}

/// Build the transition table of a coordinate family: row `i`, column
/// `k` is the coordinate reached from value `i` by one quarter turn of
/// the face with index `k`, and always lies in range.
pub fn init_transition_table<T: Coord>() -> (table: Vec<[usize; 6]>)
    ensures
        table@.len() == T::num_elems_spec(),
        forall|i: int, k: int|
            0 <= i < table@.len() && 0 <= k < 6 ==> (#[trigger] table@[i]@[k]) as int
                == transition_entry::<T>(i, face_of_index(k)) && (table@[i]@[k] as int)
                < T::num_elems_spec(),
{
    let n = T::num_elems();
    let mut table: Vec<[usize; 6]> = Vec::new();
    let mut i: usize = 0;
    while i < n
        invariant
            n as int == T::num_elems_spec(),
            i <= n,
            table@.len() == i,
            forall|j: int, k: int|
                0 <= j < i && 0 <= k < 6 ==> (#[trigger] table@[j]@[k]) as int
                    == transition_entry::<T>(j, face_of_index(k)) && (table@[j]@[k] as int)
                    < T::num_elems_spec(),
        decreases n - i,
    {
        let mut c = Cube::solved();
        proof {
            T::lemma_solved_settable();
        }
        T::set_coord(&mut c, i);
        let mut row: [usize; 6] = [0; 6];
        let mut k: usize = 0;
        while k < 6
            invariant
                n as int == T::num_elems_spec(),
                i < n,
                k <= 6,
                valid(c@),
                c@ == T::set_spec(solved_state(), i as int),
                forall|t: int|
                    0 <= t < k ==> (#[trigger] row@[t]) as int == transition_entry::<T>(
                        i as int,
                        face_of_index(t),
                    ) && (row@[t] as int) < T::num_elems_spec(),
            decreases 6 - k,
        {
            let f = face_from_index(k);
            let nc = c.apply_move(Move(f, 1));
            proof {
                lemma_qt_valid(c@, f);
                reveal_with_fuel(qt_n, 3);
                assert(qt_n(c@, f, 1) == qt(c@, f));
            }
            let coord = T::get_coord(&nc);
            row[k] = coord;
            k = k + 1;
        }
        table.push(row);
        i = i + 1;
    }
    table
}

/// Get the corner-orientation transition table.
pub fn get_co_transition_table() -> (table: Vec<[usize; 6]>)
    ensures
        table@.len() == COCoord::num_elems_spec(),
        forall|i: int, k: int|
            0 <= i < table@.len() && 0 <= k < 6 ==> (#[trigger] table@[i]@[k]) as int
                == transition_entry::<COCoord>(i, face_of_index(k)) && (table@[i]@[k] as int)
                < COCoord::num_elems_spec(),
        co_table_matches(table@),
{
    init_transition_table::<COCoord>()
}

/// Get the edge-orientation transition table.
pub fn get_eo_transition_table() -> (table: Vec<[usize; 6]>)
    ensures
        table@.len() == EOCoord::num_elems_spec(),
        forall|i: int, k: int|
            0 <= i < table@.len() && 0 <= k < 6 ==> (#[trigger] table@[i]@[k]) as int
                == transition_entry::<EOCoord>(i, face_of_index(k)) && (table@[i]@[k] as int)
                < EOCoord::num_elems_spec(),
        eo_table_matches(table@),
{
    init_transition_table::<EOCoord>()
}


/// A table holds exactly the edge-orientation transition data.
pub open spec fn eo_table_matches(t: Seq<[usize; 6]>) -> bool {
    &&& t.len() == 2048
    &&& forall|i: int, k: int|
        0 <= i < 2048 && 0 <= k < 6 ==> (#[trigger] t[i]@[k]) as int == transition_entry::<
            EOCoord,
        >(i, face_of_index(k))
}

/// A table holds exactly the corner-orientation transition data.
pub open spec fn co_table_matches(t: Seq<[usize; 6]>) -> bool {
    &&& t.len() == 2187
    &&& forall|i: int, k: int|
        0 <= i < 2187 && 0 <= k < 6 ==> (#[trigger] t[i]@[k]) as int == transition_entry::<
            COCoord,
        >(i, face_of_index(k))
}

/// Edge-orientation table entries are again coordinate values.
pub proof fn lemma_eo_entry_in_range(c: int, f: Face)
    requires
        0 <= c < 2048,
    ensures
        0 <= transition_entry::<EOCoord>(c, f) < 2048,
{
    lemma_solved_valid();
    lemma_eo_set_spec(solved_state(), c);
    lemma_qt_valid(EOCoord::set_spec(solved_state(), c), f);
    lemma_eo_coord_in_range(qt(EOCoord::set_spec(solved_state(), c), f));
}

/// Corner-orientation table entries are again coordinate values.
pub proof fn lemma_co_entry_in_range(c: int, f: Face)
    requires
        0 <= c < 2187,
    ensures
        0 <= transition_entry::<COCoord>(c, f) < 2187,
{
    lemma_solved_valid();
    lemma_co_set_spec(solved_state(), c);
    lemma_qt_valid(COCoord::set_spec(solved_state(), c), f);
    lemma_co_coord_in_range(qt(COCoord::set_spec(solved_state(), c), f));
}

/// The table entry owed after `m` quarter turns: the entry iterated.
pub open spec fn transition_entry_n<T: Coord>(i: int, f: Face, m: int) -> int
    decreases m,
{
    if m <= 0 {
        i
    } else {
        transition_entry::<T>(transition_entry_n::<T>(i, f, m - 1), f)
    }
}

/// The edge-orientation table simulates the generators: on a solvable
/// state, the coordinate after one quarter turn is the table entry at
/// the coordinate before it.
pub proof fn lemma_eo_table_simulates(v: CubeV, f: Face)
    requires
        valid(v),
    ensures
        0 <= EOCoord::coord_of(v) < EOCoord::num_elems_spec(),
        transition_entry::<EOCoord>(EOCoord::coord_of(v), f) == EOCoord::coord_of(qt(v, f)),
{
    let c = EOCoord::coord_of(v);
    lemma_eo_coord_in_range(v);
    lemma_solved_valid();
    lemma_eo_set_spec(solved_state(), c);
    let p = EOCoord::set_spec(solved_state(), c);
    lemma_eo_coord_determines(p, v);
    assert(qt(p, f).eo =~= qt(v, f).eo);
}

/// The corner-orientation table simulates the generators in the same
/// way.
pub proof fn lemma_co_table_simulates(v: CubeV, f: Face)
    requires
        valid(v),
    ensures
        0 <= COCoord::coord_of(v) < COCoord::num_elems_spec(),
        transition_entry::<COCoord>(COCoord::coord_of(v), f) == COCoord::coord_of(qt(v, f)),
{
    let c = COCoord::coord_of(v);
    lemma_co_coord_in_range(v);
    lemma_solved_valid();
    lemma_co_set_spec(solved_state(), c);
    let p = COCoord::set_spec(solved_state(), c);
    lemma_co_coord_determines(p, v);
    assert(qt(p, f).co =~= qt(v, f).co);
}

/// Turning a face `m` times is applying the table `m` times with the
/// same face index.
pub proof fn lemma_eo_table_iterates(v: CubeV, f: Face, m: int)
    requires
        valid(v),
        m >= 0,
    ensures
        transition_entry_n::<EOCoord>(EOCoord::coord_of(v), f, m) == EOCoord::coord_of(
            qt_n(v, f, m),
        ),
    decreases m,
{
    if m > 0 {
        lemma_eo_table_iterates(v, f, m - 1);
        lemma_qt_n_valid(v, f, m - 1);
        lemma_eo_table_simulates(qt_n(v, f, m - 1), f);
    }
}

/// Turning a face `m` times is applying the table `m` times with the
/// same face index.
pub proof fn lemma_co_table_iterates(v: CubeV, f: Face, m: int)
    requires
        valid(v),
        m >= 0,
    ensures
        transition_entry_n::<COCoord>(COCoord::coord_of(v), f, m) == COCoord::coord_of(
            qt_n(v, f, m),
        ),
    decreases m,
{
    if m > 0 {
        lemma_co_table_iterates(v, f, m - 1);
        lemma_qt_n_valid(v, f, m - 1);
        lemma_co_table_simulates(qt_n(v, f, m - 1), f);
    }
}


/// Iterated edge-orientation entries stay in range.
pub proof fn lemma_eo_entry_n_in_range(c: int, f: Face, m: int)
    requires
        0 <= c < 2048,
        m >= 0,
    ensures
        0 <= transition_entry_n::<EOCoord>(c, f, m) < 2048,
    decreases m,
{
    if m > 0 {
        lemma_eo_entry_n_in_range(c, f, m - 1);
        lemma_eo_entry_in_range(transition_entry_n::<EOCoord>(c, f, m - 1), f);
    }
}

/// Iterated corner-orientation entries stay in range.
pub proof fn lemma_co_entry_n_in_range(c: int, f: Face, m: int)
    requires
        0 <= c < 2187,
        m >= 0,
    ensures
        0 <= transition_entry_n::<COCoord>(c, f, m) < 2187,
    decreases m,
{
    if m > 0 {
        lemma_co_entry_n_in_range(c, f, m - 1);
        lemma_co_entry_in_range(transition_entry_n::<COCoord>(c, f, m - 1), f);
    }
}

/// Walking a matching concrete table is iterating the owed entries.
pub proof fn lemma_eo_table_move_matches(t: Seq<[usize; 6]>, c: int, k: int, m: int)
    requires
        eo_table_matches(t),
        0 <= c < 2048,
        0 <= k < 6,
        m >= 0,
    ensures
        crate::pruning_table::table_move(t, c, k, m) == transition_entry_n::<EOCoord>(
            c,
            face_of_index(k),
            m,
        ),
    decreases m,
{
    lemma_eo_entry_n_in_range(c, face_of_index(k), m);
    if m > 0 {
        lemma_eo_table_move_matches(t, c, k, m - 1);
        lemma_eo_entry_n_in_range(c, face_of_index(k), m - 1);
    }
}

/// Walking a matching concrete table is iterating the owed entries.
pub proof fn lemma_co_table_move_matches(t: Seq<[usize; 6]>, c: int, k: int, m: int)
    requires
        co_table_matches(t),
        0 <= c < 2187,
        0 <= k < 6,
        m >= 0,
    ensures
        crate::pruning_table::table_move(t, c, k, m) == transition_entry_n::<COCoord>(
            c,
            face_of_index(k),
            m,
        ),
    decreases m,
{
    lemma_co_entry_n_in_range(c, face_of_index(k), m);
    if m > 0 {
        lemma_co_table_move_matches(t, c, k, m - 1);
        lemma_co_entry_n_in_range(c, face_of_index(k), m - 1);
    }
}

} // verus!
