//! The two-phase search. Phase 0 reduces an arbitrary solvable state
//! into the subgroup G1 (all orientations zero, middle-layer edges in
//! the middle layer) by iterative-deepening depth-first search, pruned
//! by the orientation pruning tables, whose admissibility is proved, so
//! the search is verified complete and depth-optimal for its subgoal up
//! to its depth cap. Phase 1 finishes a G1 member the same way with the
//! move set that preserves G1. Every sequence either search returns
//! provably transforms its input into its output; a failure provably
//! means the depth cap was too small.
use crate::coord::{
    lemma_co_coord_in_range, lemma_eo_coord_in_range, lemma_prefix_value_zero, COCoord, Coord,
    EOCoord,
};
use crate::cube::{face_axis, face_index, qt_n, solved_state, valid, Cube, CubeV, Face, Move, Ranked};
use crate::laws::{lemma_move_then_inverse, lemma_qt_n_valid};
use crate::pruning_table::{co_prune_ok, eo_prune_ok};
use crate::transition_table::{lemma_co_table_iterates, lemma_eo_table_iterates};
use vstd::prelude::*;

verus! {

/// A move with a legal magnitude.
pub open spec fn move_wf(m: Move) -> bool {
    1 <= m.1 <= 3
}

/// A sequence of legal moves.
pub open spec fn moves_wf(ms: Seq<Move>) -> bool {
    forall|i: int| 0 <= i < ms.len() ==> move_wf(#[trigger] ms[i])
}

/// The state after applying a sequence of moves in order.
pub open spec fn apply_moves(v: CubeV, ms: Seq<Move>) -> CubeV
    decreases ms.len(),
{
    if ms.len() == 0 {
        v
    } else {
        apply_moves(qt_n(v, ms[0].0, ms[0].1 as int), ms.drop_first())
    }
}

/// Applying a concatenation applies the parts in order.
pub proof fn lemma_apply_moves_concat(v: CubeV, a: Seq<Move>, b: Seq<Move>)
    ensures
        apply_moves(v, a + b) == apply_moves(apply_moves(v, a), b),
    decreases a.len(),
{
    if a.len() == 0 {
        assert(a + b =~= b);
    } else {
        assert((a + b)[0] == a[0]);
        assert((a + b).drop_first() =~= a.drop_first() + b);
        lemma_apply_moves_concat(qt_n(v, a[0].0, a[0].1 as int), a.drop_first(), b);
    }
}

/// Membership in the subgroup G1: every orientation is zero and the
/// four middle-layer edges sit in the middle layer.
pub open spec fn in_g1(v: CubeV) -> bool {
    &&& forall|i: int| 0 <= i < 12 ==> #[trigger] v.eo[i] == 0
    &&& forall|i: int| 0 <= i < 8 ==> #[trigger] v.co[i] == 0
    &&& forall|i: int| 8 <= i < 12 ==> 8 <= #[trigger] v.ep[i] < 12
}

/// The solved state lies in G1.
pub proof fn lemma_solved_in_g1()
    ensures
        in_g1(solved_state()),
{
}

/// Check whether a state is exactly the solved state.
pub fn is_solved(c: &Cube) -> (r: bool)
    ensures
        r == (c@ == solved_state()),
{
    let mut i: usize = 0;
    while i < 8
        invariant
            i <= 8,
            forall|k: int| 0 <= k < i ==> #[trigger] c@.cp[k] == k,
            forall|k: int| 0 <= k < i ==> #[trigger] c@.co[k] == 0,
        decreases 8 - i,
    {
        if c.cp[i].rank() != i || c.co[i] != 0 {
            proof {
                assert(c@.cp[i as int] != i as int || c@.co[i as int] != 0);
                assert(c@ != solved_state());
            }
            return false;
        }
        proof {
            assert(c@.cp[i as int] == i as int && c@.co[i as int] == 0);
        }
        i = i + 1;
    }
    let mut i: usize = 0;
    while i < 12
        invariant
            i <= 12,
            forall|k: int| 0 <= k < 8 ==> #[trigger] c@.cp[k] == k,
            forall|k: int| 0 <= k < 8 ==> #[trigger] c@.co[k] == 0,
            forall|k: int| 0 <= k < i ==> #[trigger] c@.ep[k] == k,
            forall|k: int| 0 <= k < i ==> #[trigger] c@.eo[k] == 0,
        decreases 12 - i,
    {
        if c.ep[i].rank() != i || c.eo[i] != 0 {
            proof {
                assert(c@.ep[i as int] != i as int || c@.eo[i as int] != 0);
                assert(c@ != solved_state());
            }
            return false;
        }
        proof {
            assert(c@.ep[i as int] == i as int && c@.eo[i as int] == 0);
        }
        i = i + 1;
    }
    proof {
        assert(c@.cp =~= solved_state().cp);
        assert(c@.co =~= solved_state().co);
        assert(c@.ep =~= solved_state().ep);
        assert(c@.eo =~= solved_state().eo);
        assert(c@ =~= solved_state());
    }
    true
}

/// Check membership in G1.
pub fn is_g1(c: &Cube) -> (r: bool)
    ensures
        r == in_g1(c@),
{
    let mut i: usize = 0;
    while i < 8
        invariant
            i <= 8,
            forall|k: int| 0 <= k < i ==> #[trigger] c@.co[k] == 0,
        decreases 8 - i,
    {
        if c.co[i] != 0 {
            proof {
                assert(c@.co[i as int] != 0);
            }
            return false;
        }
        i = i + 1;
    }
    let mut i: usize = 0;
    while i < 12
        invariant
            i <= 12,
            forall|k: int| 0 <= k < 8 ==> #[trigger] c@.co[k] == 0,
            forall|k: int| 0 <= k < i ==> #[trigger] c@.eo[k] == 0,
            forall|k: int| 8 <= k < i ==> 8 <= #[trigger] c@.ep[k] < 12,
        decreases 12 - i,
    {
        if c.eo[i] != 0 {
            proof {
                assert(c@.eo[i as int] != 0);
            }
            return false;
        }
        if i >= 8 {
            let e = c.ep[i].rank();
            if e < 8 {
                proof {
                    assert(!(8 <= c@.ep[i as int] < 12));
                }
                return false;
            }
        }
        i = i + 1;
    }
    true
}

/// The orientation pruning tables that steer phase 0.
pub struct PruneTables {
    pub eo: Vec<u8>,
    pub co: Vec<u8>,
}

/// The tables are fixpoint distance tables over their coordinate
/// spaces, so they never overestimate the move count of any walk.
pub open spec fn prune_tables_wf(t: PruneTables) -> bool {
    eo_prune_ok(t.eo@) && co_prune_ok(t.co@)
}

/// A move drawn from the set that preserves G1: any turn of the two
/// up-down-axis faces, half turns only of the other four.
pub open spec fn g1_move(m: Move) -> bool {
    move_wf(m) && (face_axis(m.0) == 0 || m.1 == 2)
}

/// A sequence of G1-preserving moves.
pub open spec fn g1_moves(ms: Seq<Move>) -> bool {
    forall|i: int| 0 <= i < ms.len() ==> g1_move(#[trigger] ms[i])
}

/// A fixpoint distance table bounds every walk into G1: if some move
/// sequence carries a solvable state into G1, the entry at the state's
/// edge-orientation coordinate is at most the sequence length. This is
/// the admissibility of the phase-0 heuristic.
proof fn lemma_eo_prune_bounds_walk(d: Seq<u8>, v: CubeV, ms: Seq<Move>)
    requires
        eo_prune_ok(d),
        valid(v),
        moves_wf(ms),
        in_g1(apply_moves(v, ms)),
    ensures
        0 <= EOCoord::coord_of(v) < 2048,
        d[EOCoord::coord_of(v)] as int <= ms.len(),
    decreases ms.len(),
{
    lemma_eo_coord_in_range(v);
    if ms.len() == 0 {
        lemma_prefix_value_zero(v.eo, 2, 11);
    } else {
        let f = ms[0].0;
        let mg = ms[0].1 as int;
        assert(move_wf(ms[0]));
        let v1 = qt_n(v, f, mg);
        lemma_qt_n_valid(v, f, mg);
        let tail = ms.drop_first();
        assert forall|i: int| 0 <= i < tail.len() implies move_wf(#[trigger] tail[i]) by {
            assert(tail[i] == ms[i + 1]);
        }
        assert(apply_moves(v1, tail) == apply_moves(v, ms));
        lemma_eo_prune_bounds_walk(d, v1, tail);
        lemma_eo_coord_in_range(v1);
        lemma_move_then_inverse(v, f, mg);
        lemma_eo_table_iterates(v1, f, 4 - mg);
    }
}

/// The corner-orientation counterpart of `lemma_eo_prune_bounds_walk`.
proof fn lemma_co_prune_bounds_walk(d: Seq<u8>, v: CubeV, ms: Seq<Move>)
    requires
        co_prune_ok(d),
        valid(v),
        moves_wf(ms),
        in_g1(apply_moves(v, ms)),
    ensures
        0 <= COCoord::coord_of(v) < 2187,
        d[COCoord::coord_of(v)] as int <= ms.len(),
    decreases ms.len(),
{
    lemma_co_coord_in_range(v);
    if ms.len() == 0 {
        lemma_prefix_value_zero(v.co, 3, 7);
    } else {
        let f = ms[0].0;
        let mg = ms[0].1 as int;
        assert(move_wf(ms[0]));
        let v1 = qt_n(v, f, mg);
        lemma_qt_n_valid(v, f, mg);
        let tail = ms.drop_first();
        assert forall|i: int| 0 <= i < tail.len() implies move_wf(#[trigger] tail[i]) by {
            assert(tail[i] == ms[i + 1]);
        }
        assert(apply_moves(v1, tail) == apply_moves(v, ms));
        lemma_co_prune_bounds_walk(d, v1, tail);
        lemma_co_coord_in_range(v1);
        lemma_move_then_inverse(v, f, mg);
        lemma_co_table_iterates(v1, f, 4 - mg);
    }
}

fn phase0_dfs(c: &Cube, bound: u8, tables: &PruneTables) -> (r: Option<(Vec<Move>, Cube)>)
    requires
        valid(c@),
        prune_tables_wf(*tables),
    ensures
        r matches Some(p) ==> moves_wf(p.0@) && p.0@.len() <= bound as int && apply_moves(
            c@,
            p.0@,
        ) == p.1@ && in_g1(p.1@) && valid(p.1@),
        r is None ==> forall|ms: Seq<Move>|
            moves_wf(ms) && ms.len() <= bound as int ==> !in_g1(#[trigger] apply_moves(c@, ms)),
        in_g1(c@) ==> (r matches Some(p) && p.0@.len() == 0 && p.1 == *c),
    decreases bound,
{
    if is_g1(c) {
        let empty: Vec<Move> = Vec::new();
        proof {
            assert(apply_moves(c@, empty@) == c@);
        }
        return Some((empty, *c));
    }
    if bound == 0 {
        proof {
            assert forall|ms: Seq<Move>| moves_wf(ms) && ms.len() <= 0 implies !in_g1(
                #[trigger] apply_moves(c@, ms),
            ) by {
                assert(apply_moves(c@, ms) == c@);
            }
        }
        return None;
    }
    let h_eo = tables.eo[EOCoord::get_coord(c)];
    let h_co = tables.co[COCoord::get_coord(c)];
    let h = if h_eo > h_co {
        h_eo
    } else {
        h_co
    };
    if h > bound {
        proof {
            assert forall|ms: Seq<Move>| moves_wf(ms) && ms.len() <= bound as int implies !in_g1(
                #[trigger] apply_moves(c@, ms),
            ) by {
                if in_g1(apply_moves(c@, ms)) {
                    lemma_eo_prune_bounds_walk(tables.eo@, c@, ms);
                    lemma_co_prune_bounds_walk(tables.co@, c@, ms);
                }
            }
        }
        return None;
    }
    let mut fi: usize = 0;
    while fi < 6
        invariant
            valid(c@),
            prune_tables_wf(*tables),
            !in_g1(c@),
            1 <= bound,
            fi <= 6,
            forall|ms: Seq<Move>|
                moves_wf(ms) && 1 <= ms.len() <= bound as int && in_g1(
                    #[trigger] apply_moves(c@, ms),
                ) ==> face_index(ms[0].0) >= fi as int,
        decreases 6 - fi,
    {
        let f = crate::transition_table::face_from_index(fi);
        let mut mg: u8 = 1;
        while mg < 4
            invariant
                valid(c@),
                prune_tables_wf(*tables),
                !in_g1(c@),
                1 <= bound,
                fi < 6,
                1 <= mg <= 4,
                face_index(f) == fi as int,
                forall|ms: Seq<Move>|
                    moves_wf(ms) && 1 <= ms.len() <= bound as int && in_g1(
                        #[trigger] apply_moves(c@, ms),
                    ) ==> face_index(ms[0].0) > fi as int || (face_index(ms[0].0) == fi as int
                        && ms[0].1 as int >= mg as int),
            decreases 4 - mg,
        {
            let m = Move(f, mg);
            let nc = c.apply_move(m);
            proof {
                lemma_qt_n_valid(c@, f, mg as int);
            }
            let sub = phase0_dfs(&nc, bound - 1, tables);
            match sub {
                Some(p) => {
                    let (rest, out) = p;
                    let ghost restv = rest@;
                    let mut ms: Vec<Move> = Vec::new();
                    ms.push(m);
                    let mut rest = rest;
                    ms.append(&mut rest);
                    proof {
                        assert(ms@[0] == m);
                        assert(ms@.drop_first() =~= restv);
                        assert forall|i: int| 0 <= i < ms@.len() implies move_wf(
                            #[trigger] ms@[i],
                        ) by {
                            if i > 0 {
                                assert(ms@[i] == restv[i - 1]);
                            }
                        }
                        assert(apply_moves(c@, ms@) == apply_moves(nc@, restv));
                    }
                    return Some((ms, out));
                },
                None => {
                    proof {
                        assert forall|ms: Seq<Move>|
                            moves_wf(ms) && 1 <= ms.len() <= bound as int && in_g1(
                                #[trigger] apply_moves(c@, ms),
                            ) implies face_index(ms[0].0) > fi as int || (face_index(ms[0].0)
                            == fi as int && ms[0].1 as int >= mg as int + 1) by {
                            if face_index(ms[0].0) == fi as int && ms[0].1 as int == mg as int {
                                assert(ms[0].0 == f);
                                assert(qt_n(c@, ms[0].0, ms[0].1 as int) == nc@);
                                let tail = ms.drop_first();
                                assert forall|i: int| 0 <= i < tail.len() implies move_wf(
                                    #[trigger] tail[i],
                                ) by {
                                    assert(tail[i] == ms[i + 1]);
                                }
                                assert(apply_moves(nc@, tail) == apply_moves(c@, ms));
                                assert(tail.len() <= (bound - 1) as int);
                                assert(!in_g1(apply_moves(nc@, tail)));
                                assert(false);
                            }
                        }
                    }
                },
            }
            mg = mg + 1;
        }
        proof {
            assert forall|ms: Seq<Move>|
                moves_wf(ms) && 1 <= ms.len() <= bound as int && in_g1(
                    #[trigger] apply_moves(c@, ms),
                ) implies face_index(ms[0].0) >= fi as int + 1 by {
                assert(move_wf(ms[0]));
            }
        }
        fi = fi + 1;
    }
    proof {
        assert forall|ms: Seq<Move>| moves_wf(ms) && ms.len() <= bound as int implies !in_g1(
            #[trigger] apply_moves(c@, ms),
        ) by {
            if in_g1(apply_moves(c@, ms)) {
                if ms.len() == 0 {
                    assert(apply_moves(c@, ms) == c@);
                } else {
                    assert(face_index(ms[0].0) < 6);
                }
            }
        }
    }
    None
}

/// Phase 0: reduce a solvable state into G1 by iterative deepening up
/// to the depth cap. The returned moves provably carry the input to the
/// returned G1 state and no shorter sequence reaches G1 at all; a
/// failure provably means no sequence within the cap reaches G1. Any G1
/// input (the solved cube included) yields the empty sequence.
pub fn phase0(cube: &Cube, tables: &PruneTables, max_depth: u8) -> (r: Option<(Vec<Move>, Cube)>)
    requires
        valid(cube@),
        prune_tables_wf(*tables),
    ensures
        r matches Some(p) ==> moves_wf(p.0@) && p.0@.len() <= max_depth as int && apply_moves(
            cube@,
            p.0@,
        ) == p.1@ && in_g1(p.1@) && valid(p.1@) && (forall|ms: Seq<Move>|
            moves_wf(ms) && ms.len() < p.0@.len() ==> !in_g1(#[trigger] apply_moves(cube@, ms))),
        r is None ==> forall|ms: Seq<Move>|
            moves_wf(ms) && ms.len() <= max_depth as int ==> !in_g1(
                #[trigger] apply_moves(cube@, ms),
            ),
        in_g1(cube@) ==> (r matches Some(p) && p.0@.len() == 0 && p.1 == *cube),
{
    // Start the depth bound at the root heuristic value: the proved
    // admissibility of the tables shows no shorter sequence can reach
    // G1.
    let h_eo = tables.eo[EOCoord::get_coord(cube)];
    let h_co = tables.co[COCoord::get_coord(cube)];
    let h = if h_eo > h_co {
        h_eo
    } else {
        h_co
    };
    proof {
        assert forall|ms: Seq<Move>| moves_wf(ms) && ms.len() < h as int implies !in_g1(
            #[trigger] apply_moves(cube@, ms),
        ) by {
            if in_g1(apply_moves(cube@, ms)) {
                lemma_eo_prune_bounds_walk(tables.eo@, cube@, ms);
                lemma_co_prune_bounds_walk(tables.co@, cube@, ms);
            }
        }
    }
    if h > max_depth {
        proof {
            // A G1 state carries both heuristics at zero, so this
            // branch concerns states outside G1 only.
            if in_g1(cube@) {
                lemma_prefix_value_zero(cube@.eo, 2, 11);
                lemma_prefix_value_zero(cube@.co, 3, 7);
            }
            assert(!in_g1(cube@));
            assert forall|ms: Seq<Move>| moves_wf(ms) && ms.len() <= max_depth as int implies
                !in_g1(#[trigger] apply_moves(cube@, ms)) by {
                if in_g1(apply_moves(cube@, ms)) {
                    lemma_eo_prune_bounds_walk(tables.eo@, cube@, ms);
                    lemma_co_prune_bounds_walk(tables.co@, cube@, ms);
                }
            }
        }
        return None;
    }
    let mut bound: u8 = h;
    loop
        invariant
            valid(cube@),
            prune_tables_wf(*tables),
            bound <= max_depth,
            forall|ms: Seq<Move>|
                moves_wf(ms) && ms.len() < bound as int ==> !in_g1(
                    #[trigger] apply_moves(cube@, ms),
                ),
        decreases max_depth - bound,
    {
        let attempt = phase0_dfs(cube, bound, tables);
        if attempt.is_some() {
            return attempt;
        }
        if bound >= max_depth {
            return None;
        }
        bound = bound + 1;
    }
}

fn phase1_dfs(c: &Cube, bound: u8) -> (r: Option<Vec<Move>>)
    ensures
        r matches Some(ms) ==> g1_moves(ms@) && moves_wf(ms@) && ms@.len() <= bound as int
            && apply_moves(c@, ms@) == solved_state(),
        r is None ==> forall|ms: Seq<Move>|
            g1_moves(ms) && ms.len() <= bound as int ==> apply_moves(c@, ms) != solved_state(),
        c@ == solved_state() ==> (r matches Some(ms) && ms@.len() == 0),
    decreases bound,
{
    if is_solved(c) {
        let empty: Vec<Move> = Vec::new();
        proof {
            assert(apply_moves(c@, empty@) == c@);
        }
        return Some(empty);
    }
    if bound == 0 {
        proof {
            assert forall|ms: Seq<Move>| g1_moves(ms) && ms.len() <= 0 implies apply_moves(c@, ms)
                != solved_state() by {
                assert(apply_moves(c@, ms) == c@);
            }
        }
        return None;
    }
    let mut fi: usize = 0;
    while fi < 6
        invariant
            c@ != solved_state(),
            1 <= bound,
            fi <= 6,
            forall|ms: Seq<Move>|
                g1_moves(ms) && 1 <= ms.len() <= bound as int && apply_moves(c@, ms)
                    == solved_state() ==> face_index(#[trigger] ms[0].0) >= fi as int,
        decreases 6 - fi,
    {
        let f = crate::transition_table::face_from_index(fi);
        // Only moves that preserve G1: any turn of the two up-down-axis
        // faces, half turns of the other four.
        let ud_axis = f.is_opposite(Face::U);
        let mut mg: u8 = if ud_axis {
            1
        } else {
            2
        };
        let step: u8 = if ud_axis {
            1
        } else {
            3
        };
        while mg < 4
            invariant
                c@ != solved_state(),
                1 <= bound,
                fi < 6,
                1 <= mg <= 6,
                face_index(f) == fi as int,
                ud_axis == (face_axis(f) == 0),
                ud_axis ==> step == 1,
                !ud_axis ==> step == 3 && (mg == 2 || mg == 5),
                forall|ms: Seq<Move>|
                    g1_moves(ms) && 1 <= ms.len() <= bound as int && apply_moves(c@, ms)
                        == solved_state() ==> face_index(#[trigger] ms[0].0) > fi as int || (
                    face_index(ms[0].0) == fi as int && ms[0].1 as int >= mg as int),
            decreases 7 - mg,
        {
            let m = Move(f, mg);
            let nc = c.apply_move(m);
            let sub = phase1_dfs(&nc, bound - 1);
            match sub {
                Some(rest) => {
                    let ghost restv = rest@;
                    let mut ms: Vec<Move> = Vec::new();
                    ms.push(m);
                    let mut rest = rest;
                    ms.append(&mut rest);
                    proof {
                        assert(ms@[0] == m);
                        assert(g1_move(m));
                        assert(ms@.drop_first() =~= restv);
                        assert forall|i: int| 0 <= i < ms@.len() implies g1_move(
                            #[trigger] ms@[i],
                        ) by {
                            if i > 0 {
                                assert(ms@[i] == restv[i - 1]);
                            }
                        }
                        assert forall|i: int| 0 <= i < ms@.len() implies move_wf(
                            #[trigger] ms@[i],
                        ) by {
                            assert(g1_move(ms@[i]));
                        }
                        assert(apply_moves(c@, ms@) == apply_moves(nc@, restv));
                    }
                    return Some(ms);
                },
                None => {
                    proof {
                        assert forall|ms: Seq<Move>|
                            g1_moves(ms) && 1 <= ms.len() <= bound as int && apply_moves(c@, ms)
                                == solved_state() implies face_index(#[trigger] ms[0].0)
                            > fi as int || (face_index(ms[0].0) == fi as int && ms[0].1 as int
                            >= mg as int + step as int) by {
                            assert(g1_move(ms[0]));
                            if face_index(ms[0].0) == fi as int {
                                assert(ms[0].0 == f);
                                if ms[0].1 as int == mg as int {
                                    assert(qt_n(c@, ms[0].0, ms[0].1 as int) == nc@);
                                    let tail = ms.drop_first();
                                    assert forall|i: int| 0 <= i < tail.len() implies g1_move(
                                        #[trigger] tail[i],
                                    ) by {
                                        assert(tail[i] == ms[i + 1]);
                                    }
                                    assert(g1_moves(tail));
                                    assert(apply_moves(nc@, tail) == apply_moves(c@, ms));
                                    assert(tail.len() <= (bound - 1) as int);
                                    assert(apply_moves(nc@, tail) != solved_state());
                                    assert(false);
                                }
                            }
                        }
                    }
                },
            }
            mg = mg + step;
        }
        proof {
            assert forall|ms: Seq<Move>|
                g1_moves(ms) && 1 <= ms.len() <= bound as int && apply_moves(c@, ms)
                    == solved_state() implies face_index(#[trigger] ms[0].0) >= fi as int + 1 by {
                assert(g1_move(ms[0]));
            }
        }
        fi = fi + 1;
    }
    proof {
        assert forall|ms: Seq<Move>| g1_moves(ms) && ms.len() <= bound as int implies apply_moves(
            c@,
            ms,
        ) != solved_state() by {
            if ms.len() == 0 {
                assert(apply_moves(c@, ms) == c@);
            } else if apply_moves(c@, ms) == solved_state() {
                assert(face_index(ms[0].0) < 6);
            }
        }
    }
    None
}

/// Phase 1: fully solve a G1 member by iterative deepening over the
/// G1-preserving move set, up to the depth cap. The returned moves are
/// drawn from that set, provably carry the input to the solved state,
/// and no shorter such sequence does; a failure provably means no
/// sequence from the set within the cap solves the input. The solved
/// input yields the empty sequence.
pub fn phase1(cube: &Cube, max_depth: u8) -> (r: Option<Vec<Move>>)
    ensures
        r matches Some(ms) ==> g1_moves(ms@) && moves_wf(ms@) && ms@.len() <= max_depth as int
            && apply_moves(cube@, ms@) == solved_state() && (forall|ms1: Seq<Move>|
            g1_moves(ms1) && ms1.len() < ms@.len() ==> apply_moves(cube@, ms1) != solved_state()),
        r is None ==> forall|ms: Seq<Move>|
            g1_moves(ms) && ms.len() <= max_depth as int ==> apply_moves(cube@, ms)
                != solved_state(),
        cube@ == solved_state() ==> (r matches Some(ms) && ms@.len() == 0),
{
    let mut bound: u8 = 0;
    loop
        invariant
            bound <= max_depth,
            forall|ms: Seq<Move>|
                g1_moves(ms) && ms.len() < bound as int ==> apply_moves(cube@, ms)
                    != solved_state(),
        decreases max_depth - bound,
    {
        let attempt = phase1_dfs(cube, bound);
        if attempt.is_some() {
            return attempt;
        }
        if bound >= max_depth {
            return None;
        }
        bound = bound + 1;
    }
}

/// Solve a cube: run phase 0, feed its output into phase 1, and
/// concatenate the two sequences. A returned sequence provably drives
/// the input state back to the solved state, and the solved cube yields
/// the empty sequence. A failure provably means a cap was too small:
/// either no sequence within the phase-0 cap reaches G1 at all, or the
/// G1 state that phase 0 reached admits no G1-preserving sequence
/// within the phase-1 cap. Each phase's sub-sequence is depth-optimal
/// for its own subgoal; the concatenation need not be globally optimal.
pub fn solve(cube: &Cube, tables: &PruneTables, max_depth0: u8, max_depth1: u8) -> (r: Option<
    Vec<Move>,
>)
    requires
        valid(cube@),
        prune_tables_wf(*tables),
    ensures
        r matches Some(ms) ==> moves_wf(ms@) && apply_moves(cube@, ms@) == solved_state(),
        r is None ==> ((forall|ms: Seq<Move>|
            moves_wf(ms) && ms.len() <= max_depth0 as int ==> !in_g1(
                #[trigger] apply_moves(cube@, ms),
            )) || (exists|ms0: Seq<Move>|
            moves_wf(ms0) && ms0.len() <= max_depth0 as int && in_g1(
                #[trigger] apply_moves(cube@, ms0),
            ) && (forall|ms1: Seq<Move>|
                g1_moves(ms1) && ms1.len() <= max_depth1 as int ==> apply_moves(
                    apply_moves(cube@, ms0),
                    ms1,
                ) != solved_state()))),
        cube@ == solved_state() ==> (r matches Some(ms) && ms@.len() == 0),
{
    proof {
        lemma_solved_in_g1();
    }
    match phase0(cube, tables, max_depth0) {
        Some((ms0, mid)) => match phase1(&mid, max_depth1) {
            Some(ms1) => {
                let ghost a = ms0@;
                let ghost b = ms1@;
                let mut ms = ms0;
                let mut ms1 = ms1;
                ms.append(&mut ms1);
                proof {
                    lemma_apply_moves_concat(cube@, a, b);
                    assert forall|i: int| 0 <= i < ms@.len() implies move_wf(
                        #[trigger] ms@[i],
                    ) by {
                        if i < a.len() {
                            assert(ms@[i] == a[i]);
                        } else {
                            assert(ms@[i] == b[i - a.len()]);
                            assert(g1_move(b[i - a.len()]));
                        }
                    }
                }
                Some(ms)
            },
            None => {
                proof {
                    assert(in_g1(apply_moves(cube@, ms0@)));
                    assert forall|ms1: Seq<Move>|
                        g1_moves(ms1) && ms1.len() <= max_depth1 as int implies apply_moves(
                        apply_moves(cube@, ms0@),
                        ms1,
                    ) != solved_state() by {
                        assert(apply_moves(cube@, ms0@) == mid@);
                    }
                }
                None
            },
        },
        None => None,
    }
}

} // verus!
