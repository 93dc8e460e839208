//! Coordinate compressions of cube state: each coordinate projects one
//! attribute of the state onto a bounded integer, can rebuild a canonical
//! probe state from any value in range, and satisfies the round-trip law
//! `get(set(identity, v)) == v` as part of its contract.
use crate::cube::{co_ok, eo_ok, lemma_xor_flip, solved_state, valid, Cube, CubeV};
use crate::permutation::{lemma_seq_sum_12, lemma_seq_sum_8, seq_sum};
use vstd::arithmetic::div_mod::{
    lemma_div_denominator, lemma_fundamental_div_mod, lemma_mod_multiples_vanish,
};
use vstd::prelude::*;

verus! {

/// Powers of two.
pub open spec fn p2(k: int) -> int
    decreases k,
{
    if k <= 0 {
        1
    } else {
        2 * p2(k - 1)
    }
}

/// Powers of three.
pub open spec fn p3(k: int) -> int
    decreases k,
{
    if k <= 0 {
        1
    } else {
        3 * p3(k - 1)
    }
}

pub proof fn lemma_p2_pos(k: int)
    ensures
        p2(k) >= 1,
    decreases k,
{
    if k > 0 {
        lemma_p2_pos(k - 1);
    }
}

pub proof fn lemma_p3_pos(k: int)
    ensures
        p3(k) >= 1,
    decreases k,
{
    if k > 0 {
        lemma_p3_pos(k - 1);
    }
}

proof fn lemma_p2_le(a: int, b: int)
    requires
        a <= b,
    ensures
        p2(a) <= p2(b),
    decreases b - a,
{
    lemma_p2_pos(a);
    if a < b {
        lemma_p2_le(a, b - 1);
        lemma_p2_pos(b - 1);
    }
}

proof fn lemma_p3_le(a: int, b: int)
    requires
        a <= b,
    ensures
        p3(a) <= p3(b),
    decreases b - a,
{
    lemma_p3_pos(a);
    if a < b {
        lemma_p3_le(a, b - 1);
        lemma_p3_pos(b - 1);
    }
}

/// Adding a multiple of the modulus on the left leaves a remainder alone.
proof fn lemma_mod_add_left(a: int, b: int, m: int)
    requires
        m > 0,
    ensures
        (a % m + b) % m == (a + b) % m,
{
    lemma_fundamental_div_mod(a, m);
    assert(m * (-(a / m)) == -(m * (a / m))) by (nonlinear_arith);
    lemma_mod_multiples_vanish(-(a / m), a + b, m);
}

/// The value of the leading entries of an orientation vector read as a
/// base-`base` number, most significant entry first.
pub open spec fn prefix_value(s: Seq<int>, base: int, k: int) -> int
    decreases k,
{
    if k <= 0 {
        0
    } else {
        base * prefix_value(s, base, k - 1) + s[k - 1]
    }
}

proof fn lemma_prefix_value_bound(s: Seq<int>, base: int, k: int)
    requires
        k >= 0,
        base == 2 || base == 3,
        forall|i: int| 0 <= i < k ==> 0 <= #[trigger] s[i] < base,
    ensures
        0 <= prefix_value(s, base, k),
        base == 2 ==> prefix_value(s, base, k) < p2(k),
        base == 3 ==> prefix_value(s, base, k) < p3(k),
    decreases k,
{
    if k > 0 {
        lemma_prefix_value_bound(s, base, k - 1);
    }
}

/// A digit string of zeroes reads as zero.
pub proof fn lemma_prefix_value_zero(s: Seq<int>, base: int, k: int)
    requires
        forall|i: int| 0 <= i < k ==> #[trigger] s[i] == 0,
    ensures
        prefix_value(s, base, k) == 0,
    decreases k,
{
    if k > 0 {
        lemma_prefix_value_zero(s, base, k - 1);
    }
}

/// A base-2 or base-3 reading pins down its digits: two digit strings
/// with the same value agree pointwise.
proof fn lemma_prefix_value_injective(s1: Seq<int>, s2: Seq<int>, base: int, k: int)
    requires
        k >= 0,
        base == 2 || base == 3,
        forall|i: int| 0 <= i < k ==> 0 <= #[trigger] s1[i] < base,
        forall|i: int| 0 <= i < k ==> 0 <= #[trigger] s2[i] < base,
        prefix_value(s1, base, k) == prefix_value(s2, base, k),
    ensures
        forall|i: int| 0 <= i < k ==> #[trigger] s1[i] == s2[i],
    decreases k,
{
    if k > 0 {
        let a = prefix_value(s1, base, k - 1);
        let b = prefix_value(s2, base, k - 1);
        lemma_prefix_value_bound(s1, base, k - 1);
        lemma_prefix_value_bound(s2, base, k - 1);
        assert(base * a + s1[k - 1] == base * b + s2[k - 1]);
        assert(a == b && s1[k - 1] == s2[k - 1]) by (nonlinear_arith)
            requires
                base >= 2,
                0 <= s1[k - 1] < base,
                0 <= s2[k - 1] < base,
                base * a + s1[k - 1] == base * b + s2[k - 1],
        ;
        lemma_prefix_value_injective(s1, s2, base, k - 1);
    }
}

/// Digit `i` (most significant first) of `c` written with `n` digits in
/// base 2.
pub open spec fn bit_of(c: int, n: int, i: int) -> int {
    (c / p2(n - 1 - i)) % 2
}

/// Digit `i` (most significant first) of `c` written with `n` digits in
/// base 3.
pub open spec fn trit_of(c: int, n: int, i: int) -> int {
    (c / p3(n - 1 - i)) % 3
}

proof fn lemma_bits_reconstruct(c: int, s: Seq<int>, k: int)
    requires
        0 <= c < p2(11),
        0 <= k <= 11,
        forall|i: int| 0 <= i < 11 ==> #[trigger] s[i] == bit_of(c, 11, i),
    ensures
        prefix_value(s, 2, k) == c / p2(11 - k),
    decreases k,
{
    if k == 0 {
        lemma_p2_pos(11);
        assert(c / p2(11) == 0) by {
            vstd::arithmetic::div_mod::lemma_basic_div(c, p2(11));
        }
    } else {
        lemma_bits_reconstruct(c, s, k - 1);
        lemma_p2_pos(11 - k);
        let q = c / p2(11 - k);
        lemma_div_denominator(c, p2(11 - k), 2);
        assert(p2(12 - k) == 2 * p2(11 - k));
        assert(p2(11 - k) * 2 == 2 * p2(11 - k)) by (nonlinear_arith);
        assert(q / 2 == c / p2(12 - k));
        lemma_fundamental_div_mod(q, 2);
        assert(s[k - 1] == q % 2);
        assert(prefix_value(s, 2, k) == 2 * (q / 2) + q % 2);
    }
}

proof fn lemma_trits_reconstruct(c: int, s: Seq<int>, k: int)
    requires
        0 <= c < p3(7),
        0 <= k <= 7,
        forall|i: int| 0 <= i < 7 ==> #[trigger] s[i] == trit_of(c, 7, i),
    ensures
        prefix_value(s, 3, k) == c / p3(7 - k),
    decreases k,
{
    if k == 0 {
        lemma_p3_pos(7);
        assert(c / p3(7) == 0) by {
            vstd::arithmetic::div_mod::lemma_basic_div(c, p3(7));
        }
    } else {
        lemma_trits_reconstruct(c, s, k - 1);
        lemma_p3_pos(7 - k);
        let q = c / p3(7 - k);
        lemma_div_denominator(c, p3(7 - k), 3);
        assert(p3(8 - k) == 3 * p3(7 - k));
        assert(p3(7 - k) * 3 == 3 * p3(7 - k)) by (nonlinear_arith);
        assert(q / 3 == c / p3(8 - k));
        lemma_fundamental_div_mod(q, 3);
        assert(s[k - 1] == q % 3);
        assert(prefix_value(s, 3, k) == 3 * (q / 3) + q % 3);
    }
}

/// The forced last edge orientation: the running flip parity after the
/// leading `k` bits of `c` have been written, in the order the probe
/// builder writes them (least significant bit first).
pub open spec fn eo_tail(c: int, k: int) -> int
    decreases k,
{
    if k <= 0 {
        0
    } else {
        (eo_tail(c, k - 1) + bit_of(c, 11, 11 - k)) % 2
    }
}

/// The forced last corner orientation: the running counter-twist after
/// the leading `k` trits of `c` have been written, in the order the probe
/// builder writes them (least significant trit first).
pub open spec fn co_tail(c: int, k: int) -> int
    decreases k,
{
    if k <= 0 {
        0
    } else {
        (co_tail(c, k - 1) + 3 - trit_of(c, 7, 7 - k)) % 3
    }
}

/// Sum of the first `k` bits written (least significant bit first).
spec fn eo_written_sum(c: int, k: int) -> int
    decreases k,
{
    if k <= 0 {
        0
    } else {
        eo_written_sum(c, k - 1) + bit_of(c, 11, 11 - k)
    }
}

/// Sum of the first `k` trits written (least significant trit first).
spec fn co_written_sum(c: int, k: int) -> int
    decreases k,
{
    if k <= 0 {
        0
    } else {
        co_written_sum(c, k - 1) + trit_of(c, 7, 7 - k)
    }
}

proof fn lemma_eo_tail_parity(c: int, k: int)
    requires
        k >= 0,
    ensures
        eo_tail(c, k) == eo_written_sum(c, k) % 2,
        0 <= eo_tail(c, k) <= 1,
    decreases k,
{
    if k > 0 {
        lemma_eo_tail_parity(c, k - 1);
        lemma_mod_add_left(eo_written_sum(c, k - 1), bit_of(c, 11, 11 - k), 2);
    }
}

proof fn lemma_co_tail_twist(c: int, k: int)
    requires
        k >= 0,
    ensures
        co_tail(c, k) == (3 * k - co_written_sum(c, k)) % 3,
        0 <= co_tail(c, k) <= 2,
    decreases k,
{
    if k > 0 {
        lemma_co_tail_twist(c, k - 1);
        lemma_mod_add_left(3 * (k - 1) - co_written_sum(c, k - 1), 3 - trit_of(c, 7, 7 - k), 3);
    }
}

/// Writing coordinate `c` over a solvable state whose last edge
/// orientation is zero yields a solvable state carrying exactly `c`.
pub proof fn lemma_eo_set_spec(v: CubeV, c: int)
    requires
        valid(v),
        v.eo[11] == 0,
        0 <= c < 2048,
    ensures
        valid(EOCoord::set_spec(v, c)),
        EOCoord::coord_of(EOCoord::set_spec(v, c)) == c,
{
    let sv = EOCoord::set_spec(v, c);
    lemma_eo_tail_parity(c, 11);
    assert(forall|i: int| 0 <= i < 11 ==> #[trigger] sv.eo[i] == bit_of(c, 11, i));
    assert(forall|i: int| 0 <= i < 12 ==> 0 <= #[trigger] sv.eo[i] <= 1);
    lemma_seq_sum_12(sv.eo);
    reveal_with_fuel(eo_written_sum, 13);
    assert(eo_written_sum(c, 11) == sv.eo[0] + sv.eo[1] + sv.eo[2] + sv.eo[3] + sv.eo[4]
        + sv.eo[5] + sv.eo[6] + sv.eo[7] + sv.eo[8] + sv.eo[9] + sv.eo[10]);
    let w = eo_written_sum(c, 11);
    lemma_mod_add_left(w, w % 2, 2);
    lemma_fundamental_div_mod(w, 2);
    lemma_mod_multiples_vanish(w / 2, 0, 2);
    assert(seq_sum(sv.eo) % 2 == 0);
    assert(p2(11) == 2048) by {
        reveal_with_fuel(p2, 13);
    }
    lemma_bits_reconstruct(c, sv.eo, 11);
    assert(p2(0) == 1);
    assert(c / p2(0) == c);
}

/// Writing coordinate `c` over a solvable state whose last corner
/// orientation is zero yields a solvable state carrying exactly `c`.
pub proof fn lemma_co_set_spec(v: CubeV, c: int)
    requires
        valid(v),
        v.co[7] == 0,
        0 <= c < 2187,
    ensures
        valid(COCoord::set_spec(v, c)),
        COCoord::coord_of(COCoord::set_spec(v, c)) == c,
{
    let sv = COCoord::set_spec(v, c);
    lemma_co_tail_twist(c, 7);
    assert(forall|i: int| 0 <= i < 7 ==> #[trigger] sv.co[i] == trit_of(c, 7, i));
    assert(forall|i: int| 0 <= i < 8 ==> 0 <= #[trigger] sv.co[i] <= 2);
    lemma_seq_sum_8(sv.co);
    reveal_with_fuel(co_written_sum, 9);
    assert(co_written_sum(c, 7) == sv.co[0] + sv.co[1] + sv.co[2] + sv.co[3] + sv.co[4] + sv.co[5]
        + sv.co[6]);
    let w = co_written_sum(c, 7);
    lemma_mod_add_left(21 - w, w, 3);
    lemma_mod_multiples_vanish(7, 0, 3);
    assert((21 - w + w) % 3 == 0);
    assert(seq_sum(sv.co) % 3 == 0);
    assert(p3(7) == 2187) by {
        reveal_with_fuel(p3, 9);
    }
    lemma_trits_reconstruct(c, sv.co, 7);
    assert(p3(0) == 1);
    assert(c / p3(0) == c);
}

/// The edge-orientation coordinate of a solvable state is in range.
pub proof fn lemma_eo_coord_in_range(v: CubeV)
    requires
        valid(v),
    ensures
        0 <= EOCoord::coord_of(v) < 2048,
{
    lemma_prefix_value_bound(v.eo, 2, 11);
    assert(p2(11) == 2048) by {
        reveal_with_fuel(p2, 13);
    }
    lemma_p2_le(11, 11);
}

/// The corner-orientation coordinate of a solvable state is in range.
pub proof fn lemma_co_coord_in_range(v: CubeV)
    requires
        valid(v),
    ensures
        0 <= COCoord::coord_of(v) < 2187,
{
    lemma_prefix_value_bound(v.co, 3, 7);
    assert(p3(7) == 2187) by {
        reveal_with_fuel(p3, 9);
    }
}

/// On solvable states the edge-orientation coordinate pins the whole
/// orientation vector: the forced twelfth entry follows from parity.
pub proof fn lemma_eo_coord_determines(v: CubeV, w: CubeV)
    requires
        valid(v),
        valid(w),
        EOCoord::coord_of(v) == EOCoord::coord_of(w),
    ensures
        v.eo == w.eo,
{
    lemma_prefix_value_injective(v.eo, w.eo, 2, 11);
    lemma_seq_sum_12(v.eo);
    lemma_seq_sum_12(w.eo);
    assert(v.eo[11] == w.eo[11]);
    assert(v.eo =~= w.eo);
}

/// On solvable states the corner-orientation coordinate pins the whole
/// orientation vector: the forced eighth entry follows from the total
/// twist.
pub proof fn lemma_co_coord_determines(v: CubeV, w: CubeV)
    requires
        valid(v),
        valid(w),
        COCoord::coord_of(v) == COCoord::coord_of(w),
    ensures
        v.co == w.co,
{
    lemma_prefix_value_injective(v.co, w.co, 3, 7);
    lemma_seq_sum_8(v.co);
    lemma_seq_sum_8(w.co);
    assert(v.co[7] == w.co[7]);
    assert(v.co =~= w.co);
}

/// A coordinate family: a bounded-integer projection of cube state with a
/// canonical probe builder, satisfying `get(set(state, v)) == v`.
pub trait Coord {
    /// Number of distinct values of this coordinate.
    spec fn num_elems_spec() -> int;

    /// States whose untouched remainder lets the probe builder succeed.
    spec fn settable(v: CubeV) -> bool;

    /// The probe state produced by writing coordinate `c`.
    spec fn set_spec(v: CubeV, c: int) -> CubeV;

    /// The coordinate value carried by a state.
    spec fn coord_of(v: CubeV) -> int;

    /// The solved state is always an acceptable probe base.
    proof fn lemma_solved_settable()
        ensures
            Self::settable(solved_state()),
    ;

    /// Number of elements in the coordinate's transition table.
    fn num_elems() -> (n: usize)
        ensures
            n as int == Self::num_elems_spec(),
            1 <= n,
    ;

    /// Modify `Cube` to have the given coordinate, leaving the rest of
    /// the state as it was; the result is again a solvable state that
    /// carries exactly the requested coordinate.
    fn set_coord(cube: &mut Cube, coord: usize)
        requires
            valid(old(cube)@),
            Self::settable(old(cube)@),
            (coord as int) < Self::num_elems_spec(),
        ensures
            final(cube)@ == Self::set_spec(old(cube)@, coord as int),
            valid(final(cube)@),
            Self::coord_of(final(cube)@) == coord as int,
    ;

    /// Get the coordinate for a given `Cube`.
    fn get_coord(cube: &Cube) -> (c: usize)
        requires
            valid(cube@),
        ensures
            c as int == Self::coord_of(cube@),
            (c as int) < Self::num_elems_spec(),
    ;
}

/// The edge-orientation coordinate: an 11-bit number whose bits are the
/// orientations of the first 11 edges. The 12th orientation is forced by
/// the even-flip invariant.
pub struct EOCoord;

/// The corner-orientation coordinate: a 7-digit base-3 number whose
/// digits are the orientations of the first 7 corners. The 8th
/// orientation is forced by the total-twist invariant.
pub struct COCoord;

impl Coord for EOCoord {
    open spec fn num_elems_spec() -> int {
        2048
    }

    open spec fn settable(v: CubeV) -> bool {
        v.eo[11] == 0
    }

    open spec fn set_spec(v: CubeV, c: int) -> CubeV {
        CubeV {
            eo: Seq::new(
                12,
                |i: int|
                    if i < 11 {
                        bit_of(c, 11, i)
                    } else {
                        eo_tail(c, 11)
                    },
            ),
            ..v
        }
    }

    open spec fn coord_of(v: CubeV) -> int {
        prefix_value(v.eo, 2, 11)
    }

    proof fn lemma_solved_settable() {
    }

    fn num_elems() -> (n: usize) {
        2048
    }

    fn set_coord(cube: &mut Cube, coord: usize) {
        let ghost c = coord as int;
        let ghost orig = *cube;
        let mut rem = coord;
        let mut k: usize = 0;
        while k < 11
            invariant
                k <= 11,
                c == coord as int,
                0 <= c < 2048,
                valid(orig@),
                orig@.eo[11] == 0,
                cube.cp == orig.cp,
                cube.co == orig.co,
                cube.ep == orig.ep,
                forall|i: int| 0 <= i < 11 - k ==> cube.eo@[i] == orig.eo@[i],
                forall|i: int|
                    11 - k <= i < 11 ==> (#[trigger] cube.eo@[i]) as int == bit_of(c, 11, i),
                cube.eo@[11] as int == eo_tail(c, k as int),
                rem as int == c / p2(k as int),
            decreases 11 - k,
        {
            proof {
                lemma_p2_pos(k as int);
                assert(p2(11) == 2048) by {
                    reveal_with_fuel(p2, 13);
                }
                lemma_p2_le(k as int, 11);
                lemma_eo_tail_parity(c, k as int);
            }
            let bit = (rem % 2) as u8;
            proof {
                assert(bit_of(c, 11, 10 - k as int) == rem as int % 2);
            }
            cube.eo[10 - k] = bit;
            let e11 = cube.eo[11];
            proof {
                lemma_xor_flip(e11, bit);
                assert(eo_tail(c, k as int + 1) == (eo_tail(c, k as int) + bit_of(
                    c,
                    11,
                    10 - k as int,
                )) % 2);
            }
            cube.eo[11] = e11 ^ bit;
            proof {
                lemma_div_denominator(c, p2(k as int), 2);
                assert(p2(k as int + 1) == 2 * p2(k as int));
                assert(p2(k as int) * 2 == 2 * p2(k as int)) by (nonlinear_arith);
            }
            rem = rem / 2;
            k = k + 1;
        }
        proof {
            let nv = cube@;
            let sv = EOCoord::set_spec(orig@, c);
            lemma_eo_tail_parity(c, 11);
            assert(nv.eo =~= sv.eo);
            assert(nv =~= sv);
            lemma_eo_set_spec(orig@, c);
        }
        cube.verify().unwrap();
    }

    fn get_coord(cube: &Cube) -> (c: usize) {
        proof {
            assert(p2(11) == 2048) by {
                reveal_with_fuel(p2, 13);
            }
        }
        let mut c: usize = 0;
        let mut i: usize = 0;
        while i < 11
            invariant
                i <= 11,
                valid(cube@),
                c as int == prefix_value(cube@.eo, 2, i as int),
                0 <= c as int,
                (c as int) < p2(i as int),
            decreases 11 - i,
        {
            proof {
                lemma_p2_le(i as int, 10);
                assert(p2(10) == 1024) by {
                    reveal_with_fuel(p2, 12);
                }
                assert(p2(i as int + 1) == 2 * p2(i as int));
                assert(0 <= cube@.eo[i as int] <= 1);
            }
            c = c * 2 + (cube.eo[i] as usize);
            i = i + 1;
        }
        c
    }
}

impl Coord for COCoord {
    open spec fn num_elems_spec() -> int {
        2187
    }

    open spec fn settable(v: CubeV) -> bool {
        v.co[7] == 0
    }

    open spec fn set_spec(v: CubeV, c: int) -> CubeV {
        CubeV {
            co: Seq::new(
                8,
                |i: int|
                    if i < 7 {
                        trit_of(c, 7, i)
                    } else {
                        co_tail(c, 7)
                    },
            ),
            ..v
        }
    }

    open spec fn coord_of(v: CubeV) -> int {
        prefix_value(v.co, 3, 7)
    }

    proof fn lemma_solved_settable() {
    }

    fn num_elems() -> (n: usize) {
        2187
    }

    fn set_coord(cube: &mut Cube, coord: usize) {
        let ghost c = coord as int;
        let ghost orig = *cube;
        let mut rem = coord;
        let mut k: usize = 0;
        while k < 7
            invariant
                k <= 7,
                c == coord as int,
                0 <= c < 2187,
                valid(orig@),
                orig@.co[7] == 0,
                cube.cp == orig.cp,
                cube.eo == orig.eo,
                cube.ep == orig.ep,
                forall|i: int| 0 <= i < 7 - k ==> cube.co@[i] == orig.co@[i],
                forall|i: int|
                    7 - k <= i < 7 ==> (#[trigger] cube.co@[i]) as int == trit_of(c, 7, i),
                cube.co@[7] as int == co_tail(c, k as int),
                rem as int == c / p3(k as int),
            decreases 7 - k,
        {
            proof {
                lemma_p3_pos(k as int);
                assert(p3(7) == 2187) by {
                    reveal_with_fuel(p3, 9);
                }
                lemma_p3_le(k as int, 7);
                lemma_co_tail_twist(c, k as int);
            }
            let d = (rem % 3) as u8;
            proof {
                assert(trit_of(c, 7, 6 - k as int) == rem as int % 3);
                assert(co_tail(c, k as int + 1) == (co_tail(c, k as int) + 3 - trit_of(
                    c,
                    7,
                    6 - k as int,
                )) % 3);
            }
            cube.co[6 - k] = d;
            let c7 = cube.co[7];
            cube.co[7] = ((c7 + 3) - d) % 3;
            proof {
                lemma_div_denominator(c, p3(k as int), 3);
                assert(p3(k as int + 1) == 3 * p3(k as int));
                assert(p3(k as int) * 3 == 3 * p3(k as int)) by (nonlinear_arith);
            }
            rem = rem / 3;
            k = k + 1;
        }
        proof {
            let nv = cube@;
            let sv = COCoord::set_spec(orig@, c);
            lemma_co_tail_twist(c, 7);
            assert(nv.co =~= sv.co);
            assert(nv =~= sv);
            lemma_co_set_spec(orig@, c);
        }
        cube.verify().unwrap();
    }

    fn get_coord(cube: &Cube) -> (c: usize) {
        proof {
            assert(p3(7) == 2187) by {
                reveal_with_fuel(p3, 9);
            }
        }
        let mut c: usize = 0;
        let mut i: usize = 0;
        while i < 7
            invariant
                i <= 7,
                valid(cube@),
                c as int == prefix_value(cube@.co, 3, i as int),
                0 <= c as int,
                (c as int) < p3(i as int),
            decreases 7 - i,
        {
            proof {
                lemma_p3_le(i as int, 6);
                assert(p3(6) == 729) by {
                    reveal_with_fuel(p3, 8);
                }
                assert(p3(i as int + 1) == 3 * p3(i as int));
                assert(0 <= cube@.co[i as int] <= 2);
            }
            c = c * 3 + (cube.co[i] as usize);
            i = i + 1;
        }
        c
    }
}

} // verus!
