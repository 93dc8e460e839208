//! Pruning tables: for every coordinate value, the exact minimum number
//! of moves (a face turned once, twice or three times, each counting as
//! one move) needed to reach it from the start value in the transition
//! graph. The construction relaxes distances until a fixed point; the
//! resulting table is provably admissible: no entry exceeds the length
//! of any path.
use crate::coord::{COCoord, Coord, EOCoord};
use crate::cube::{solved_state, Face};
use crate::transition_table::{
    co_table_matches, eo_table_matches, face_of_index, lemma_co_entry_in_range,
    lemma_co_table_move_matches, lemma_eo_entry_in_range, lemma_eo_table_move_matches,
    transition_entry_n,
};
use vstd::prelude::*;

verus! {

/// The distance recorded for values not reached.
pub const UNREACHED: u8 = 255;

/// Every entry of the transition table is again a valid table index.
pub open spec fn table_in_range(table: Seq<[usize; 6]>) -> bool {
    forall|v: int, f: int|
        0 <= v < table.len() && 0 <= f < 6 ==> (#[trigger] table[v]@[f]) < table.len()
}

/// The value reached from `v` by turning the face in column `f` once.
pub open spec fn table_step(table: Seq<[usize; 6]>, v: int, f: int) -> int {
    table[v]@[f] as int
}

/// The value reached from `v` by turning the face in column `f` `m`
/// quarter turns: one move of magnitude `m`.
pub open spec fn table_move(table: Seq<[usize; 6]>, v: int, f: int, m: int) -> int
    decreases m,
{
    if m <= 0 {
        v
    } else {
        table_step(table, table_move(table, v, f, m - 1), f)
    }
}

/// There is a walk of exactly `k` moves from `start` to `v`.
pub open spec fn has_path(table: Seq<[usize; 6]>, start: int, v: int, k: int) -> bool
    decreases k,
{
    if k <= 0 {
        v == start
    } else {
        exists|u: int, f: int, m: int|
            0 <= u < table.len() && 0 <= f < 6 && 1 <= m <= 3 && #[trigger] table_move(
                table,
                u,
                f,
                m,
            ) == v && has_path(table, start, u, k - 1)
    }
}

/// No single move improves any recorded distance: the table is a fixed
/// point of distance relaxation.
pub open spec fn relaxed(table: Seq<[usize; 6]>, dist: Seq<u8>) -> bool {
    forall|v: int, f: int, m: int|
        0 <= v < table.len() && 0 <= f < 6 && 1 <= m <= 3 ==> dist[#[trigger] table_move(
            table,
            v,
            f,
            m,
        )] as int <= dist[v] as int + 1
}

/// Every recorded distance is witnessed by a path of that length.
pub open spec fn sound(table: Seq<[usize; 6]>, start: int, dist: Seq<u8>) -> bool {
    forall|v: int|
        0 <= v < dist.len() && (#[trigger] dist[v]) < UNREACHED ==> has_path(
            table,
            start,
            v,
            dist[v] as int,
        )
}

spec fn byte_sum(s: Seq<u8>) -> int
    decreases s.len(),
{
    if s.len() == 0 {
        0
    } else {
        byte_sum(s.drop_last()) + s.last()
    }
}

proof fn lemma_byte_sum_nonneg(s: Seq<u8>)
    ensures
        byte_sum(s) >= 0,
    decreases s.len(),
{
    if s.len() > 0 {
        lemma_byte_sum_nonneg(s.drop_last());
    }
}

proof fn lemma_byte_sum_update(s: Seq<u8>, i: int, x: u8)
    requires
        0 <= i < s.len(),
    ensures
        byte_sum(s.update(i, x)) == byte_sum(s) - s[i] + x,
    decreases s.len(),
{
    let t = s.update(i, x);
    if i == s.len() - 1 {
        assert(t.drop_last() =~= s.drop_last());
    } else {
        assert(t.drop_last() =~= s.drop_last().update(i, x));
        lemma_byte_sum_update(s.drop_last(), i, x);
    }
}

/// Build the pruning table for a transition graph: breadth-first
/// relaxation from `start` until no move improves any distance. The
/// result records, for every value it reaches, the exact minimum move
/// count from `start`: an entry never exceeds the length of any walk
/// (see `lemma_prune_admissible`), and is itself witnessed by a walk.
pub fn init_prune_table(table: &Vec<[usize; 6]>, start: usize) -> (dist: Vec<u8>)
    requires
        1 <= table@.len(),
        (start as int) < table@.len(),
        table_in_range(table@),
    ensures
        dist@.len() == table@.len(),
        dist@[start as int] == 0,
        relaxed(table@, dist@),
        sound(table@, start as int, dist@),
{
    let n = table.len();
    let mut dist: Vec<u8> = Vec::new();
    let mut i: usize = 0;
    while i < n
        invariant
            i <= n,
            dist@.len() == i,
            forall|v: int| 0 <= v < i ==> (#[trigger] dist@[v]) == UNREACHED,
        decreases n - i,
    {
        dist.push(UNREACHED);
        i = i + 1;
    }
    dist[start] = 0;
    proof {
        assert(has_path(table@, start as int, start as int, 0));
        lemma_byte_sum_nonneg(dist@);
    }
    loop
        invariant_except_break
            n == table@.len(),
            (start as int) < n,
            table_in_range(table@),
            dist@.len() == n,
            dist@[start as int] == 0,
            sound(table@, start as int, dist@),
        ensures
            n == table@.len(),
            dist@.len() == n,
            dist@[start as int] == 0,
            sound(table@, start as int, dist@),
            relaxed(table@, dist@),
        decreases byte_sum(dist@),
    {
        let ghost sum0 = byte_sum(dist@);
        proof {
            lemma_byte_sum_nonneg(dist@);
        }
        let mut changed = false;
        let mut v: usize = 0;
        while v < n
            invariant
                n == table@.len(),
                (start as int) < n,
                table_in_range(table@),
                dist@.len() == n,
                dist@[start as int] == 0,
                sound(table@, start as int, dist@),
                v <= n,
                byte_sum(dist@) <= sum0,
                changed ==> byte_sum(dist@) < sum0,
                !changed ==> forall|v0: int, f0: int, m0: int|
                    0 <= v0 < v && 0 <= f0 < 6 && 1 <= m0 <= 3 ==> dist@[#[trigger] table_move(
                        table@,
                        v0,
                        f0,
                        m0,
                    )] as int <= dist@[v0] as int + 1,
            decreases n - v,
        {
            let dv = dist[v];
            let mut f: usize = 0;
            while f < 6
                invariant
                    n == table@.len(),
                    (start as int) < n,
                    table_in_range(table@),
                    dist@.len() == n,
                    dist@[start as int] == 0,
                    sound(table@, start as int, dist@),
                    v < n,
                    f <= 6,
                    dv == dist@[v as int],
                    byte_sum(dist@) <= sum0,
                    changed ==> byte_sum(dist@) < sum0,
                    !changed ==> forall|v0: int, f0: int, m0: int|
                        0 <= v0 < v && 0 <= f0 < 6 && 1 <= m0 <= 3 ==> dist@[#[trigger] table_move(
                            table@,
                            v0,
                            f0,
                            m0,
                        )] as int <= dist@[v0] as int + 1,
                    !changed ==> forall|f0: int, m0: int|
                        0 <= f0 < f && 1 <= m0 <= 3 ==> dist@[#[trigger] table_move(
                            table@,
                            v as int,
                            f0,
                            m0,
                        )] as int <= dist@[v as int] as int + 1,
                decreases 6 - f,
            {
                let mut w = v;
                let mut m: usize = 0;
                while m < 3
                    invariant
                        n == table@.len(),
                        (start as int) < n,
                        table_in_range(table@),
                        dist@.len() == n,
                        dist@[start as int] == 0,
                        sound(table@, start as int, dist@),
                        v < n,
                        f < 6,
                        m <= 3,
                        w < n,
                        w as int == table_move(table@, v as int, f as int, m as int),
                        dv == dist@[v as int],
                        byte_sum(dist@) <= sum0,
                        changed ==> byte_sum(dist@) < sum0,
                        !changed ==> forall|v0: int, f0: int, m0: int|
                            0 <= v0 < v && 0 <= f0 < 6 && 1 <= m0 <= 3 ==> dist@[
                            #[trigger] table_move(table@, v0, f0, m0)] as int <= dist@[v0] as int
                                + 1,
                        !changed ==> forall|f0: int, m0: int|
                            0 <= f0 < f && 1 <= m0 <= 3 ==> dist@[#[trigger] table_move(
                                table@,
                                v as int,
                                f0,
                                m0,
                            )] as int <= dist@[v as int] as int + 1,
                        !changed ==> forall|m0: int|
                            1 <= m0 <= m ==> dist@[#[trigger] table_move(
                                table@,
                                v as int,
                                f as int,
                                m0,
                            )] as int <= dist@[v as int] as int + 1,
                    decreases 3 - m,
                {
                    w = table[w][f];
                    proof {
                        assert(w as int == table_move(table@, v as int, f as int, m as int + 1));
                    }
                    if dv != UNREACHED {
                        let cand = dv + 1;
                        if cand < dist[w] {
                            proof {
                                lemma_byte_sum_update(dist@, w as int, cand);
                                assert(has_path(table@, start as int, v as int, dv as int));
                                assert(table_move(table@, v as int, f as int, m as int + 1)
                                    == w as int);
                                assert(has_path(table@, start as int, w as int, dv as int + 1));
                            }
                            dist[w] = cand;
                            changed = true;
                        }
                    }
                    m = m + 1;
                }
                f = f + 1;
            }
            v = v + 1;
        }
        if !changed {
            break;
        }
        proof {
            lemma_byte_sum_nonneg(dist@);
            assert(byte_sum(dist@) < sum0);
        }
    }
    dist
}


proof fn lemma_table_move_range(table: Seq<[usize; 6]>, v: int, f: int, m: int)
    requires
        table_in_range(table),
        0 <= v < table.len(),
        0 <= f < 6,
        m >= 0,
    ensures
        0 <= table_move(table, v, f, m) < table.len(),
    decreases m,
{
    if m > 0 {
        lemma_table_move_range(table, v, f, m - 1);
    }
}

/// Admissibility: a pruning-table entry never exceeds the length of any
/// walk from the start value, so it is an exact lower bound on the moves
/// needed to reach a coordinate.
pub proof fn lemma_prune_admissible(
    table: Seq<[usize; 6]>,
    dist: Seq<u8>,
    start: int,
    c: int,
    k: int,
)
    requires
        table.len() == dist.len(),
        table_in_range(table),
        0 <= start < table.len(),
        dist[start] == 0,
        relaxed(table, dist),
        k >= 0,
        has_path(table, start, c, k),
    ensures
        dist[c] as int <= k,
    decreases k,
{
    if k > 0 {
        let (u, f, m) = choose|u: int, f: int, m: int|
            0 <= u < table.len() && 0 <= f < 6 && 1 <= m <= 3 && #[trigger] table_move(
                table,
                u,
                f,
                m,
            ) == c && has_path(table, start, u, k - 1);
        lemma_prune_admissible(table, dist, start, u, k - 1);
    }
}

/// A distance table over the edge-orientation coordinate space that no
/// single move can improve: zero at the solved coordinate, and an entry
/// never more than one above the entry it is reached from. Such a table
/// under-approximates the move count of every walk.
pub open spec fn eo_prune_ok(d: Seq<u8>) -> bool {
    &&& d.len() == 2048
    &&& d[0] == 0
    &&& forall|c: int, f: Face, m: int|
        0 <= c < 2048 && 1 <= m <= 3 ==> d[#[trigger] transition_entry_n::<EOCoord>(c, f, m)]
            as int <= d[c] as int + 1
}

/// The corner-orientation counterpart of `eo_prune_ok`.
pub open spec fn co_prune_ok(d: Seq<u8>) -> bool {
    &&& d.len() == 2187
    &&& d[0] == 0
    &&& forall|c: int, f: Face, m: int|
        0 <= c < 2187 && 1 <= m <= 3 ==> d[#[trigger] transition_entry_n::<COCoord>(c, f, m)]
            as int <= d[c] as int + 1
}

proof fn lemma_eo_prune_ok(t: Seq<[usize; 6]>, d: Seq<u8>)
    requires
        eo_table_matches(t),
        relaxed(t, d),
        d.len() == 2048,
        d[0] == 0,
    ensures
        eo_prune_ok(d),
{
    assert forall|c: int, f: Face, m: int| 0 <= c < 2048 && 1 <= m <= 3 implies d[
        #[trigger] transition_entry_n::<EOCoord>(c, f, m)] as int <= d[c] as int + 1 by {
        let k = crate::cube::face_index(f);
        assert(face_of_index(k) == f);
        lemma_eo_table_move_matches(t, c, k, m);
    }
}

proof fn lemma_co_prune_ok(t: Seq<[usize; 6]>, d: Seq<u8>)
    requires
        co_table_matches(t),
        relaxed(t, d),
        d.len() == 2187,
        d[0] == 0,
    ensures
        co_prune_ok(d),
{
    assert forall|c: int, f: Face, m: int| 0 <= c < 2187 && 1 <= m <= 3 implies d[
        #[trigger] transition_entry_n::<COCoord>(c, f, m)] as int <= d[c] as int + 1 by {
        let k = crate::cube::face_index(f);
        assert(face_of_index(k) == f);
        lemma_co_table_move_matches(t, c, k, m);
    }
}

/// The solved state carries edge-orientation coordinate 0.
pub proof fn lemma_eo_identity_coord()
    ensures
        EOCoord::coord_of(solved_state()) == 0,
{
    reveal_with_fuel(crate::coord::prefix_value, 13);
}

/// The solved state carries corner-orientation coordinate 0.
pub proof fn lemma_co_identity_coord()
    ensures
        COCoord::coord_of(solved_state()) == 0,
{
    reveal_with_fuel(crate::coord::prefix_value, 9);
}

/// Get the edge-orientation pruning table: exact distances to the
/// solved edge-orientation coordinate over its transition table.
pub fn get_eo_prune_table(table: &Vec<[usize; 6]>) -> (dist: Vec<u8>)
    requires
        eo_table_matches(table@),
    ensures
        dist@.len() == table@.len(),
        dist@[EOCoord::coord_of(solved_state())] == 0,
        relaxed(table@, dist@),
        sound(table@, EOCoord::coord_of(solved_state()), dist@),
        eo_prune_ok(dist@),
{
    proof {
        lemma_eo_identity_coord();
        assert forall|v: int, f: int| 0 <= v < table@.len() && 0 <= f < 6 implies (
        #[trigger] table@[v]@[f]) < table@.len() by {
            lemma_eo_entry_in_range(v, face_of_index(f));
        }
    }
    let dist = init_prune_table(table, 0);
    proof {
        lemma_eo_prune_ok(table@, dist@);
    }
    dist
}

/// Get the corner-orientation pruning table: exact distances to the
/// solved corner-orientation coordinate over its transition table.
pub fn get_co_prune_table(table: &Vec<[usize; 6]>) -> (dist: Vec<u8>)
    requires
        co_table_matches(table@),
    ensures
        dist@.len() == table@.len(),
        dist@[COCoord::coord_of(solved_state())] == 0,
        relaxed(table@, dist@),
        sound(table@, COCoord::coord_of(solved_state()), dist@),
        co_prune_ok(dist@),
{
    proof {
        lemma_co_identity_coord();
        assert forall|v: int, f: int| 0 <= v < table@.len() && 0 <= f < 6 implies (
        #[trigger] table@[v]@[f]) < table@.len() by {
            lemma_co_entry_in_range(v, face_of_index(f));
        }
    }
    let dist = init_prune_table(table, 0);
    proof {
        lemma_co_prune_ok(table@, dist@);
    }
    dist
}

} // verus!
