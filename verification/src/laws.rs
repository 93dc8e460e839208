//! The laws of the generator set, proved once and for all: a quarter
//! turn carries every solvable state to a solvable state, four quarter
//! turns of one face are the identity, and a move of magnitude m is
//! undone by one of magnitude 4 - m.
use crate::cube::{
    co_ok, cp_ok, eo_flip, eo_ok, ep_ok, mv_co, mv_cp, mv_eo, mv_ep, qt, qt_n, valid,
    wf, CubeV, Face,
};
use crate::permutation::{
    gt_ind, inversions, is_permutation, lemma_inversions_12, lemma_inversions_8,
    lemma_seq_sum_12, lemma_seq_sum_8, seq_sum,
};
use vstd::arithmetic::div_mod::{lemma_fundamental_div_mod, lemma_mod_multiples_vanish};
use vstd::prelude::*;

verus! {

/// The slot-source table of every face is itself a permutation, and the
/// orientation deltas are in range.
proof fn lemma_mv_tables(f: Face)
    ensures
        is_permutation(mv_cp(f), 8),
        is_permutation(mv_ep(f), 12),
        forall|i: int| 0 <= i < 8 ==> 0 <= #[trigger] mv_co(f)[i] <= 2,
        forall|i: int| 0 <= i < 12 ==> 0 <= #[trigger] mv_eo(f)[i] <= 1,
{
}

proof fn lemma_qt_cp_ok(v: CubeV, f: Face)
    requires
        wf(v),
        cp_ok(v),
    ensures
        cp_ok(qt(v, f)),
{
    lemma_mv_tables(f);
    let p = mv_cp(f);
    let t = qt(v, f).cp;
    assert forall|i: int| 0 <= i < 8 implies 0 <= #[trigger] t[i] < 8 by {
        assert(0 <= p[i] < 8);
        assert(0 <= v.cp[p[i]] < 8);
    }
    assert forall|i: int, j: int| 0 <= i < j < 8 implies t[i] != t[j] by {
        assert(p[i] != p[j]);
        if p[i] < p[j] {
            assert(v.cp[p[i]] != v.cp[p[j]]);
        } else {
            assert(v.cp[p[j]] != v.cp[p[i]]);
        }
    }
}

proof fn lemma_qt_ep_ok(v: CubeV, f: Face)
    requires
        wf(v),
        ep_ok(v),
    ensures
        ep_ok(qt(v, f)),
{
    lemma_mv_tables(f);
    let p = mv_ep(f);
    let t = qt(v, f).ep;
    assert forall|i: int| 0 <= i < 12 implies 0 <= #[trigger] t[i] < 12 by {
        assert(0 <= p[i] < 12);
        assert(0 <= v.ep[p[i]] < 12);
    }
    assert forall|i: int, j: int| 0 <= i < j < 12 implies t[i] != t[j] by {
        assert(p[i] != p[j]);
        if p[i] < p[j] {
            assert(v.ep[p[i]] != v.ep[p[j]]);
        } else {
            assert(v.ep[p[j]] != v.ep[p[i]]);
        }
    }
}

#[verifier::rlimit(60)]
#[verifier::spinoff_prover]
proof fn lemma_qt_co_ok_u(v: CubeV)
    requires
        wf(v),
        co_ok(v),
    ensures
        co_ok(qt(v, Face::U)),
{
    let c = v.co;
    let t = qt(v, Face::U).co;
    assert(t[0] == (c[3] + 0) % 3);
    lemma_fundamental_div_mod(c[3] + 0, 3);
    assert(t[1] == (c[0] + 0) % 3);
    lemma_fundamental_div_mod(c[0] + 0, 3);
    assert(t[2] == (c[1] + 0) % 3);
    lemma_fundamental_div_mod(c[1] + 0, 3);
    assert(t[3] == (c[2] + 0) % 3);
    lemma_fundamental_div_mod(c[2] + 0, 3);
    assert(t[4] == (c[4] + 0) % 3);
    lemma_fundamental_div_mod(c[4] + 0, 3);
    assert(t[5] == (c[5] + 0) % 3);
    lemma_fundamental_div_mod(c[5] + 0, 3);
    assert(t[6] == (c[6] + 0) % 3);
    lemma_fundamental_div_mod(c[6] + 0, 3);
    assert(t[7] == (c[7] + 0) % 3);
    lemma_fundamental_div_mod(c[7] + 0, 3);
    assert(forall|i: int| 0 <= i < 8 ==> 0 <= #[trigger] t[i] <= 2);
    lemma_seq_sum_8(c);
    lemma_seq_sum_8(t);
    let q = (c[3] + 0) / 3 + (c[0] + 0) / 3 + (c[1] + 0) / 3 + (c[2] + 0) / 3 + (c[4] + 0) / 3 + (c[5] + 0) / 3 + (c[6] + 0) / 3 + (c[7] + 0) / 3;
    assert(seq_sum(t) == 3 * (0 - q) + seq_sum(c));
    lemma_mod_multiples_vanish(0 - q, seq_sum(c), 3);
    assert(seq_sum(t) % 3 == 0);
}

#[verifier::rlimit(60)]
#[verifier::spinoff_prover]
proof fn lemma_qt_co_ok_r(v: CubeV)
    requires
        wf(v),
        co_ok(v),
    ensures
        co_ok(qt(v, Face::R)),
{
    let c = v.co;
    let t = qt(v, Face::R).co;
    assert(t[0] == (c[4] + 1) % 3);
    lemma_fundamental_div_mod(c[4] + 1, 3);
    assert(t[1] == (c[1] + 0) % 3);
    lemma_fundamental_div_mod(c[1] + 0, 3);
    assert(t[2] == (c[2] + 0) % 3);
    lemma_fundamental_div_mod(c[2] + 0, 3);
    assert(t[3] == (c[0] + 2) % 3);
    lemma_fundamental_div_mod(c[0] + 2, 3);
    assert(t[4] == (c[7] + 2) % 3);
    lemma_fundamental_div_mod(c[7] + 2, 3);
    assert(t[5] == (c[5] + 0) % 3);
    lemma_fundamental_div_mod(c[5] + 0, 3);
    assert(t[6] == (c[6] + 0) % 3);
    lemma_fundamental_div_mod(c[6] + 0, 3);
    assert(t[7] == (c[3] + 1) % 3);
    lemma_fundamental_div_mod(c[3] + 1, 3);
    assert(forall|i: int| 0 <= i < 8 ==> 0 <= #[trigger] t[i] <= 2);
    lemma_seq_sum_8(c);
    lemma_seq_sum_8(t);
    let q = (c[4] + 1) / 3 + (c[1] + 0) / 3 + (c[2] + 0) / 3 + (c[0] + 2) / 3 + (c[7] + 2) / 3 + (c[5] + 0) / 3 + (c[6] + 0) / 3 + (c[3] + 1) / 3;
    assert(seq_sum(t) == 3 * (2 - q) + seq_sum(c));
    lemma_mod_multiples_vanish(2 - q, seq_sum(c), 3);
    assert(seq_sum(t) % 3 == 0);
}

#[verifier::rlimit(60)]
#[verifier::spinoff_prover]
proof fn lemma_qt_co_ok_f(v: CubeV)
    requires
        wf(v),
        co_ok(v),
    ensures
        co_ok(qt(v, Face::F)),
{
    let c = v.co;
    let t = qt(v, Face::F).co;
    assert(t[0] == (c[1] + 2) % 3);
    lemma_fundamental_div_mod(c[1] + 2, 3);
    assert(t[1] == (c[5] + 1) % 3);
    lemma_fundamental_div_mod(c[5] + 1, 3);
    assert(t[2] == (c[2] + 0) % 3);
    lemma_fundamental_div_mod(c[2] + 0, 3);
    assert(t[3] == (c[3] + 0) % 3);
    lemma_fundamental_div_mod(c[3] + 0, 3);
    assert(t[4] == (c[0] + 1) % 3);
    lemma_fundamental_div_mod(c[0] + 1, 3);
    assert(t[5] == (c[4] + 2) % 3);
    lemma_fundamental_div_mod(c[4] + 2, 3);
    assert(t[6] == (c[6] + 0) % 3);
    lemma_fundamental_div_mod(c[6] + 0, 3);
    assert(t[7] == (c[7] + 0) % 3);
    lemma_fundamental_div_mod(c[7] + 0, 3);
    assert(forall|i: int| 0 <= i < 8 ==> 0 <= #[trigger] t[i] <= 2);
    lemma_seq_sum_8(c);
    lemma_seq_sum_8(t);
    let q = (c[1] + 2) / 3 + (c[5] + 1) / 3 + (c[2] + 0) / 3 + (c[3] + 0) / 3 + (c[0] + 1) / 3 + (c[4] + 2) / 3 + (c[6] + 0) / 3 + (c[7] + 0) / 3;
    assert(seq_sum(t) == 3 * (2 - q) + seq_sum(c));
    lemma_mod_multiples_vanish(2 - q, seq_sum(c), 3);
    assert(seq_sum(t) % 3 == 0);
}

#[verifier::rlimit(60)]
#[verifier::spinoff_prover]
proof fn lemma_qt_co_ok_d(v: CubeV)
    requires
        wf(v),
        co_ok(v),
    ensures
        co_ok(qt(v, Face::D)),
{
    let c = v.co;
    let t = qt(v, Face::D).co;
    assert(t[0] == (c[0] + 0) % 3);
    lemma_fundamental_div_mod(c[0] + 0, 3);
    assert(t[1] == (c[1] + 0) % 3);
    lemma_fundamental_div_mod(c[1] + 0, 3);
    assert(t[2] == (c[2] + 0) % 3);
    lemma_fundamental_div_mod(c[2] + 0, 3);
    assert(t[3] == (c[3] + 0) % 3);
    lemma_fundamental_div_mod(c[3] + 0, 3);
    assert(t[4] == (c[5] + 0) % 3);
    lemma_fundamental_div_mod(c[5] + 0, 3);
    assert(t[5] == (c[6] + 0) % 3);
    lemma_fundamental_div_mod(c[6] + 0, 3);
    assert(t[6] == (c[7] + 0) % 3);
    lemma_fundamental_div_mod(c[7] + 0, 3);
    assert(t[7] == (c[4] + 0) % 3);
    lemma_fundamental_div_mod(c[4] + 0, 3);
    assert(forall|i: int| 0 <= i < 8 ==> 0 <= #[trigger] t[i] <= 2);
    lemma_seq_sum_8(c);
    lemma_seq_sum_8(t);
    let q = (c[0] + 0) / 3 + (c[1] + 0) / 3 + (c[2] + 0) / 3 + (c[3] + 0) / 3 + (c[5] + 0) / 3 + (c[6] + 0) / 3 + (c[7] + 0) / 3 + (c[4] + 0) / 3;
    assert(seq_sum(t) == 3 * (0 - q) + seq_sum(c));
    lemma_mod_multiples_vanish(0 - q, seq_sum(c), 3);
    assert(seq_sum(t) % 3 == 0);
}

#[verifier::rlimit(60)]
#[verifier::spinoff_prover]
proof fn lemma_qt_co_ok_b(v: CubeV)
    requires
        wf(v),
        co_ok(v),
    ensures
        co_ok(qt(v, Face::B)),
{
    let c = v.co;
    let t = qt(v, Face::B).co;
    assert(t[0] == (c[0] + 0) % 3);
    lemma_fundamental_div_mod(c[0] + 0, 3);
    assert(t[1] == (c[1] + 0) % 3);
    lemma_fundamental_div_mod(c[1] + 0, 3);
    assert(t[2] == (c[3] + 2) % 3);
    lemma_fundamental_div_mod(c[3] + 2, 3);
    assert(t[3] == (c[7] + 1) % 3);
    lemma_fundamental_div_mod(c[7] + 1, 3);
    assert(t[4] == (c[4] + 0) % 3);
    lemma_fundamental_div_mod(c[4] + 0, 3);
    assert(t[5] == (c[5] + 0) % 3);
    lemma_fundamental_div_mod(c[5] + 0, 3);
    assert(t[6] == (c[2] + 1) % 3);
    lemma_fundamental_div_mod(c[2] + 1, 3);
    assert(t[7] == (c[6] + 2) % 3);
    lemma_fundamental_div_mod(c[6] + 2, 3);
    assert(forall|i: int| 0 <= i < 8 ==> 0 <= #[trigger] t[i] <= 2);
    lemma_seq_sum_8(c);
    lemma_seq_sum_8(t);
    let q = (c[0] + 0) / 3 + (c[1] + 0) / 3 + (c[3] + 2) / 3 + (c[7] + 1) / 3 + (c[4] + 0) / 3 + (c[5] + 0) / 3 + (c[2] + 1) / 3 + (c[6] + 2) / 3;
    assert(seq_sum(t) == 3 * (2 - q) + seq_sum(c));
    lemma_mod_multiples_vanish(2 - q, seq_sum(c), 3);
    assert(seq_sum(t) % 3 == 0);
}

#[verifier::rlimit(60)]
#[verifier::spinoff_prover]
proof fn lemma_qt_co_ok_l(v: CubeV)
    requires
        wf(v),
        co_ok(v),
    ensures
        co_ok(qt(v, Face::L)),
{
    let c = v.co;
    let t = qt(v, Face::L).co;
    assert(t[0] == (c[0] + 0) % 3);
    lemma_fundamental_div_mod(c[0] + 0, 3);
    assert(t[1] == (c[2] + 2) % 3);
    lemma_fundamental_div_mod(c[2] + 2, 3);
    assert(t[2] == (c[6] + 1) % 3);
    lemma_fundamental_div_mod(c[6] + 1, 3);
    assert(t[3] == (c[3] + 0) % 3);
    lemma_fundamental_div_mod(c[3] + 0, 3);
    assert(t[4] == (c[4] + 0) % 3);
    lemma_fundamental_div_mod(c[4] + 0, 3);
    assert(t[5] == (c[1] + 1) % 3);
    lemma_fundamental_div_mod(c[1] + 1, 3);
    assert(t[6] == (c[5] + 2) % 3);
    lemma_fundamental_div_mod(c[5] + 2, 3);
    assert(t[7] == (c[7] + 0) % 3);
    lemma_fundamental_div_mod(c[7] + 0, 3);
    assert(forall|i: int| 0 <= i < 8 ==> 0 <= #[trigger] t[i] <= 2);
    lemma_seq_sum_8(c);
    lemma_seq_sum_8(t);
    let q = (c[0] + 0) / 3 + (c[2] + 2) / 3 + (c[6] + 1) / 3 + (c[3] + 0) / 3 + (c[4] + 0) / 3 + (c[1] + 1) / 3 + (c[5] + 2) / 3 + (c[7] + 0) / 3;
    assert(seq_sum(t) == 3 * (2 - q) + seq_sum(c));
    lemma_mod_multiples_vanish(2 - q, seq_sum(c), 3);
    assert(seq_sum(t) % 3 == 0);
}

#[verifier::rlimit(60)]
#[verifier::spinoff_prover]
proof fn lemma_qt_eo_ok_u(v: CubeV)
    requires
        wf(v),
        eo_ok(v),
    ensures
        eo_ok(qt(v, Face::U)),
{
    let c = v.eo;
    let t = qt(v, Face::U).eo;
    assert(t[0] == c[3]);
    assert(t[1] == c[0]);
    assert(t[2] == c[1]);
    assert(t[3] == c[2]);
    assert(t[4] == c[4]);
    assert(t[5] == c[5]);
    assert(t[6] == c[6]);
    assert(t[7] == c[7]);
    assert(t[8] == c[8]);
    assert(t[9] == c[9]);
    assert(t[10] == c[10]);
    assert(t[11] == c[11]);
    assert(forall|i: int| 0 <= i < 12 ==> 0 <= #[trigger] t[i] <= 1);
    lemma_seq_sum_12(c);
    lemma_seq_sum_12(t);
    assert(seq_sum(t) == seq_sum(c));
    assert(seq_sum(t) % 2 == 0);
}

#[verifier::rlimit(60)]
#[verifier::spinoff_prover]
proof fn lemma_qt_eo_ok_r(v: CubeV)
    requires
        wf(v),
        eo_ok(v),
    ensures
        eo_ok(qt(v, Face::R)),
{
    let c = v.eo;
    let t = qt(v, Face::R).eo;
    assert(t[0] == c[8]);
    assert(t[1] == c[1]);
    assert(t[2] == c[2]);
    assert(t[3] == c[3]);
    assert(t[4] == c[11]);
    assert(t[5] == c[5]);
    assert(t[6] == c[6]);
    assert(t[7] == c[7]);
    assert(t[8] == c[4]);
    assert(t[9] == c[9]);
    assert(t[10] == c[10]);
    assert(t[11] == c[0]);
    assert(forall|i: int| 0 <= i < 12 ==> 0 <= #[trigger] t[i] <= 1);
    lemma_seq_sum_12(c);
    lemma_seq_sum_12(t);
    assert(seq_sum(t) == seq_sum(c));
    assert(seq_sum(t) % 2 == 0);
}

#[verifier::rlimit(60)]
#[verifier::spinoff_prover]
proof fn lemma_qt_eo_ok_f(v: CubeV)
    requires
        wf(v),
        eo_ok(v),
    ensures
        eo_ok(qt(v, Face::F)),
{
    let c = v.eo;
    let t = qt(v, Face::F).eo;
    assert(t[0] == c[0]);
    assert(0 <= c[9] <= 1);
    assert(t[1] == 1 - c[9]);
    assert(t[2] == c[2]);
    assert(t[3] == c[3]);
    assert(t[4] == c[4]);
    assert(0 <= c[8] <= 1);
    assert(t[5] == 1 - c[8]);
    assert(t[6] == c[6]);
    assert(t[7] == c[7]);
    assert(0 <= c[1] <= 1);
    assert(t[8] == 1 - c[1]);
    assert(0 <= c[5] <= 1);
    assert(t[9] == 1 - c[5]);
    assert(t[10] == c[10]);
    assert(t[11] == c[11]);
    assert(forall|i: int| 0 <= i < 12 ==> 0 <= #[trigger] t[i] <= 1);
    lemma_seq_sum_12(c);
    lemma_seq_sum_12(t);
    let x = c[9] + c[8] + c[1] + c[5];
    assert(seq_sum(t) == 2 * (2 - x) + seq_sum(c));
    lemma_mod_multiples_vanish(2 - x, seq_sum(c), 2);
    assert(seq_sum(t) % 2 == 0);
}

#[verifier::rlimit(60)]
#[verifier::spinoff_prover]
proof fn lemma_qt_eo_ok_d(v: CubeV)
    requires
        wf(v),
        eo_ok(v),
    ensures
        eo_ok(qt(v, Face::D)),
{
    let c = v.eo;
    let t = qt(v, Face::D).eo;
    assert(t[0] == c[0]);
    assert(t[1] == c[1]);
    assert(t[2] == c[2]);
    assert(t[3] == c[3]);
    assert(t[4] == c[5]);
    assert(t[5] == c[6]);
    assert(t[6] == c[7]);
    assert(t[7] == c[4]);
    assert(t[8] == c[8]);
    assert(t[9] == c[9]);
    assert(t[10] == c[10]);
    assert(t[11] == c[11]);
    assert(forall|i: int| 0 <= i < 12 ==> 0 <= #[trigger] t[i] <= 1);
    lemma_seq_sum_12(c);
    lemma_seq_sum_12(t);
    assert(seq_sum(t) == seq_sum(c));
    assert(seq_sum(t) % 2 == 0);
}

#[verifier::rlimit(60)]
#[verifier::spinoff_prover]
proof fn lemma_qt_eo_ok_b(v: CubeV)
    requires
        wf(v),
        eo_ok(v),
    ensures
        eo_ok(qt(v, Face::B)),
{
    let c = v.eo;
    let t = qt(v, Face::B).eo;
    assert(t[0] == c[0]);
    assert(t[1] == c[1]);
    assert(t[2] == c[2]);
    assert(0 <= c[11] <= 1);
    assert(t[3] == 1 - c[11]);
    assert(t[4] == c[4]);
    assert(t[5] == c[5]);
    assert(t[6] == c[6]);
    assert(0 <= c[10] <= 1);
    assert(t[7] == 1 - c[10]);
    assert(t[8] == c[8]);
    assert(t[9] == c[9]);
    assert(0 <= c[3] <= 1);
    assert(t[10] == 1 - c[3]);
    assert(0 <= c[7] <= 1);
    assert(t[11] == 1 - c[7]);
    assert(forall|i: int| 0 <= i < 12 ==> 0 <= #[trigger] t[i] <= 1);
    lemma_seq_sum_12(c);
    lemma_seq_sum_12(t);
    let x = c[11] + c[10] + c[3] + c[7];
    assert(seq_sum(t) == 2 * (2 - x) + seq_sum(c));
    lemma_mod_multiples_vanish(2 - x, seq_sum(c), 2);
    assert(seq_sum(t) % 2 == 0);
}

#[verifier::rlimit(60)]
#[verifier::spinoff_prover]
proof fn lemma_qt_eo_ok_l(v: CubeV)
    requires
        wf(v),
        eo_ok(v),
    ensures
        eo_ok(qt(v, Face::L)),
{
    let c = v.eo;
    let t = qt(v, Face::L).eo;
    assert(t[0] == c[0]);
    assert(t[1] == c[1]);
    assert(t[2] == c[10]);
    assert(t[3] == c[3]);
    assert(t[4] == c[4]);
    assert(t[5] == c[5]);
    assert(t[6] == c[9]);
    assert(t[7] == c[7]);
    assert(t[8] == c[8]);
    assert(t[9] == c[2]);
    assert(t[10] == c[6]);
    assert(t[11] == c[11]);
    assert(forall|i: int| 0 <= i < 12 ==> 0 <= #[trigger] t[i] <= 1);
    lemma_seq_sum_12(c);
    lemma_seq_sum_12(t);
    assert(seq_sum(t) == seq_sum(c));
    assert(seq_sum(t) % 2 == 0);
}

#[verifier::rlimit(100)]
#[verifier::spinoff_prover]
proof fn lemma_qt_cp_inv_flip_u(v: CubeV)
    requires
        wf(v),
        cp_ok(v),
    ensures
        inversions(qt(v, Face::U).cp) % 2 != inversions(v.cp) % 2,
{
    let s = v.cp;
    let t = qt(v, Face::U).cp;
    assert(t[0] == s[3]);
    assert(t[1] == s[0]);
    assert(t[2] == s[1]);
    assert(t[3] == s[2]);
    assert(t[4] == s[4]);
    assert(t[5] == s[5]);
    assert(t[6] == s[6]);
    assert(t[7] == s[7]);
    lemma_inversions_8(s);
    lemma_inversions_8(t);
    assert(s[0] != s[3]);
    assert(gt_ind(s[3], s[0]) + gt_ind(s[0], s[3]) == 1);
    assert(s[1] != s[3]);
    assert(gt_ind(s[3], s[1]) + gt_ind(s[1], s[3]) == 1);
    assert(s[2] != s[3]);
    assert(gt_ind(s[3], s[2]) + gt_ind(s[2], s[3]) == 1);
    let x = gt_ind(s[0], s[3]) + gt_ind(s[1], s[3]) + gt_ind(s[2], s[3]);
    assert(inversions(t) == inversions(s) + 3 - 2 * x);
    lemma_mod_multiples_vanish(1 - x, inversions(s) + 1, 2);
    assert(inversions(t) % 2 != inversions(s) % 2);
}

#[verifier::rlimit(100)]
#[verifier::spinoff_prover]
proof fn lemma_qt_cp_inv_flip_r(v: CubeV)
    requires
        wf(v),
        cp_ok(v),
    ensures
        inversions(qt(v, Face::R).cp) % 2 != inversions(v.cp) % 2,
{
    let s = v.cp;
    let t = qt(v, Face::R).cp;
    assert(t[0] == s[4]);
    assert(t[1] == s[1]);
    assert(t[2] == s[2]);
    assert(t[3] == s[0]);
    assert(t[4] == s[7]);
    assert(t[5] == s[5]);
    assert(t[6] == s[6]);
    assert(t[7] == s[3]);
    lemma_inversions_8(s);
    lemma_inversions_8(t);
    assert(s[1] != s[4]);
    assert(gt_ind(s[4], s[1]) + gt_ind(s[1], s[4]) == 1);
    assert(s[2] != s[4]);
    assert(gt_ind(s[4], s[2]) + gt_ind(s[2], s[4]) == 1);
    assert(s[0] != s[4]);
    assert(gt_ind(s[4], s[0]) + gt_ind(s[0], s[4]) == 1);
    assert(s[3] != s[4]);
    assert(gt_ind(s[4], s[3]) + gt_ind(s[3], s[4]) == 1);
    assert(s[0] != s[1]);
    assert(gt_ind(s[1], s[0]) + gt_ind(s[0], s[1]) == 1);
    assert(s[0] != s[2]);
    assert(gt_ind(s[2], s[0]) + gt_ind(s[0], s[2]) == 1);
    assert(s[5] != s[7]);
    assert(gt_ind(s[7], s[5]) + gt_ind(s[5], s[7]) == 1);
    assert(s[6] != s[7]);
    assert(gt_ind(s[7], s[6]) + gt_ind(s[6], s[7]) == 1);
    assert(s[3] != s[7]);
    assert(gt_ind(s[7], s[3]) + gt_ind(s[3], s[7]) == 1);
    assert(s[3] != s[5]);
    assert(gt_ind(s[5], s[3]) + gt_ind(s[3], s[5]) == 1);
    assert(s[3] != s[6]);
    assert(gt_ind(s[6], s[3]) + gt_ind(s[3], s[6]) == 1);
    let x = gt_ind(s[1], s[4]) + gt_ind(s[2], s[4]) + gt_ind(s[0], s[4]) + gt_ind(s[3], s[4]) + gt_ind(s[0], s[1]) + gt_ind(s[0], s[2]) + gt_ind(s[5], s[7]) + gt_ind(s[6], s[7]) + gt_ind(s[3], s[7]) + gt_ind(s[3], s[5]) + gt_ind(s[3], s[6]);
    assert(inversions(t) == inversions(s) + 11 - 2 * x);
    lemma_mod_multiples_vanish(5 - x, inversions(s) + 1, 2);
    assert(inversions(t) % 2 != inversions(s) % 2);
}

#[verifier::rlimit(100)]
#[verifier::spinoff_prover]
proof fn lemma_qt_cp_inv_flip_f(v: CubeV)
    requires
        wf(v),
        cp_ok(v),
    ensures
        inversions(qt(v, Face::F).cp) % 2 != inversions(v.cp) % 2,
{
    let s = v.cp;
    let t = qt(v, Face::F).cp;
    assert(t[0] == s[1]);
    assert(t[1] == s[5]);
    assert(t[2] == s[2]);
    assert(t[3] == s[3]);
    assert(t[4] == s[0]);
    assert(t[5] == s[4]);
    assert(t[6] == s[6]);
    assert(t[7] == s[7]);
    lemma_inversions_8(s);
    lemma_inversions_8(t);
    assert(s[0] != s[1]);
    assert(gt_ind(s[1], s[0]) + gt_ind(s[0], s[1]) == 1);
    assert(s[2] != s[5]);
    assert(gt_ind(s[5], s[2]) + gt_ind(s[2], s[5]) == 1);
    assert(s[3] != s[5]);
    assert(gt_ind(s[5], s[3]) + gt_ind(s[3], s[5]) == 1);
    assert(s[0] != s[5]);
    assert(gt_ind(s[5], s[0]) + gt_ind(s[0], s[5]) == 1);
    assert(s[4] != s[5]);
    assert(gt_ind(s[5], s[4]) + gt_ind(s[4], s[5]) == 1);
    assert(s[0] != s[2]);
    assert(gt_ind(s[2], s[0]) + gt_ind(s[0], s[2]) == 1);
    assert(s[0] != s[3]);
    assert(gt_ind(s[3], s[0]) + gt_ind(s[0], s[3]) == 1);
    let x = gt_ind(s[0], s[1]) + gt_ind(s[2], s[5]) + gt_ind(s[3], s[5]) + gt_ind(s[0], s[5]) + gt_ind(s[4], s[5]) + gt_ind(s[0], s[2]) + gt_ind(s[0], s[3]);
    assert(inversions(t) == inversions(s) + 7 - 2 * x);
    lemma_mod_multiples_vanish(3 - x, inversions(s) + 1, 2);
    assert(inversions(t) % 2 != inversions(s) % 2);
}

#[verifier::rlimit(100)]
#[verifier::spinoff_prover]
proof fn lemma_qt_cp_inv_flip_d(v: CubeV)
    requires
        wf(v),
        cp_ok(v),
    ensures
        inversions(qt(v, Face::D).cp) % 2 != inversions(v.cp) % 2,
{
    let s = v.cp;
    let t = qt(v, Face::D).cp;
    assert(t[0] == s[0]);
    assert(t[1] == s[1]);
    assert(t[2] == s[2]);
    assert(t[3] == s[3]);
    assert(t[4] == s[5]);
    assert(t[5] == s[6]);
    assert(t[6] == s[7]);
    assert(t[7] == s[4]);
    lemma_inversions_8(s);
    lemma_inversions_8(t);
    assert(s[4] != s[5]);
    assert(gt_ind(s[5], s[4]) + gt_ind(s[4], s[5]) == 1);
    assert(s[4] != s[6]);
    assert(gt_ind(s[6], s[4]) + gt_ind(s[4], s[6]) == 1);
    assert(s[4] != s[7]);
    assert(gt_ind(s[7], s[4]) + gt_ind(s[4], s[7]) == 1);
    let x = gt_ind(s[4], s[5]) + gt_ind(s[4], s[6]) + gt_ind(s[4], s[7]);
    assert(inversions(t) == inversions(s) + 3 - 2 * x);
    lemma_mod_multiples_vanish(1 - x, inversions(s) + 1, 2);
    assert(inversions(t) % 2 != inversions(s) % 2);
}

#[verifier::rlimit(100)]
#[verifier::spinoff_prover]
proof fn lemma_qt_cp_inv_flip_b(v: CubeV)
    requires
        wf(v),
        cp_ok(v),
    ensures
        inversions(qt(v, Face::B).cp) % 2 != inversions(v.cp) % 2,
{
    let s = v.cp;
    let t = qt(v, Face::B).cp;
    assert(t[0] == s[0]);
    assert(t[1] == s[1]);
    assert(t[2] == s[3]);
    assert(t[3] == s[7]);
    assert(t[4] == s[4]);
    assert(t[5] == s[5]);
    assert(t[6] == s[2]);
    assert(t[7] == s[6]);
    lemma_inversions_8(s);
    lemma_inversions_8(t);
    assert(s[2] != s[3]);
    assert(gt_ind(s[3], s[2]) + gt_ind(s[2], s[3]) == 1);
    assert(s[4] != s[7]);
    assert(gt_ind(s[7], s[4]) + gt_ind(s[4], s[7]) == 1);
    assert(s[5] != s[7]);
    assert(gt_ind(s[7], s[5]) + gt_ind(s[5], s[7]) == 1);
    assert(s[2] != s[7]);
    assert(gt_ind(s[7], s[2]) + gt_ind(s[2], s[7]) == 1);
    assert(s[6] != s[7]);
    assert(gt_ind(s[7], s[6]) + gt_ind(s[6], s[7]) == 1);
    assert(s[2] != s[4]);
    assert(gt_ind(s[4], s[2]) + gt_ind(s[2], s[4]) == 1);
    assert(s[2] != s[5]);
    assert(gt_ind(s[5], s[2]) + gt_ind(s[2], s[5]) == 1);
    let x = gt_ind(s[2], s[3]) + gt_ind(s[4], s[7]) + gt_ind(s[5], s[7]) + gt_ind(s[2], s[7]) + gt_ind(s[6], s[7]) + gt_ind(s[2], s[4]) + gt_ind(s[2], s[5]);
    assert(inversions(t) == inversions(s) + 7 - 2 * x);
    lemma_mod_multiples_vanish(3 - x, inversions(s) + 1, 2);
    assert(inversions(t) % 2 != inversions(s) % 2);
}

#[verifier::rlimit(100)]
#[verifier::spinoff_prover]
proof fn lemma_qt_cp_inv_flip_l(v: CubeV)
    requires
        wf(v),
        cp_ok(v),
    ensures
        inversions(qt(v, Face::L).cp) % 2 != inversions(v.cp) % 2,
{
    let s = v.cp;
    let t = qt(v, Face::L).cp;
    assert(t[0] == s[0]);
    assert(t[1] == s[2]);
    assert(t[2] == s[6]);
    assert(t[3] == s[3]);
    assert(t[4] == s[4]);
    assert(t[5] == s[1]);
    assert(t[6] == s[5]);
    assert(t[7] == s[7]);
    lemma_inversions_8(s);
    lemma_inversions_8(t);
    assert(s[1] != s[2]);
    assert(gt_ind(s[2], s[1]) + gt_ind(s[1], s[2]) == 1);
    assert(s[3] != s[6]);
    assert(gt_ind(s[6], s[3]) + gt_ind(s[3], s[6]) == 1);
    assert(s[4] != s[6]);
    assert(gt_ind(s[6], s[4]) + gt_ind(s[4], s[6]) == 1);
    assert(s[1] != s[6]);
    assert(gt_ind(s[6], s[1]) + gt_ind(s[1], s[6]) == 1);
    assert(s[5] != s[6]);
    assert(gt_ind(s[6], s[5]) + gt_ind(s[5], s[6]) == 1);
    assert(s[1] != s[3]);
    assert(gt_ind(s[3], s[1]) + gt_ind(s[1], s[3]) == 1);
    assert(s[1] != s[4]);
    assert(gt_ind(s[4], s[1]) + gt_ind(s[1], s[4]) == 1);
    let x = gt_ind(s[1], s[2]) + gt_ind(s[3], s[6]) + gt_ind(s[4], s[6]) + gt_ind(s[1], s[6]) + gt_ind(s[5], s[6]) + gt_ind(s[1], s[3]) + gt_ind(s[1], s[4]);
    assert(inversions(t) == inversions(s) + 7 - 2 * x);
    lemma_mod_multiples_vanish(3 - x, inversions(s) + 1, 2);
    assert(inversions(t) % 2 != inversions(s) % 2);
}

#[verifier::rlimit(100)]
#[verifier::spinoff_prover]
proof fn lemma_qt_ep_inv_flip_u(v: CubeV)
    requires
        wf(v),
        ep_ok(v),
    ensures
        inversions(qt(v, Face::U).ep) % 2 != inversions(v.ep) % 2,
{
    let s = v.ep;
    let t = qt(v, Face::U).ep;
    assert(t[0] == s[3]);
    assert(t[1] == s[0]);
    assert(t[2] == s[1]);
    assert(t[3] == s[2]);
    assert(t[4] == s[4]);
    assert(t[5] == s[5]);
    assert(t[6] == s[6]);
    assert(t[7] == s[7]);
    assert(t[8] == s[8]);
    assert(t[9] == s[9]);
    assert(t[10] == s[10]);
    assert(t[11] == s[11]);
    lemma_inversions_12(s);
    lemma_inversions_12(t);
    assert(s[0] != s[3]);
    assert(gt_ind(s[3], s[0]) + gt_ind(s[0], s[3]) == 1);
    assert(s[1] != s[3]);
    assert(gt_ind(s[3], s[1]) + gt_ind(s[1], s[3]) == 1);
    assert(s[2] != s[3]);
    assert(gt_ind(s[3], s[2]) + gt_ind(s[2], s[3]) == 1);
    let x = gt_ind(s[0], s[3]) + gt_ind(s[1], s[3]) + gt_ind(s[2], s[3]);
    assert(inversions(t) == inversions(s) + 3 - 2 * x);
    lemma_mod_multiples_vanish(1 - x, inversions(s) + 1, 2);
    assert(inversions(t) % 2 != inversions(s) % 2);
}

#[verifier::rlimit(100)]
#[verifier::spinoff_prover]
proof fn lemma_qt_ep_inv_flip_r(v: CubeV)
    requires
        wf(v),
        ep_ok(v),
    ensures
        inversions(qt(v, Face::R).ep) % 2 != inversions(v.ep) % 2,
{
    let s = v.ep;
    let t = qt(v, Face::R).ep;
    assert(t[0] == s[8]);
    assert(t[1] == s[1]);
    assert(t[2] == s[2]);
    assert(t[3] == s[3]);
    assert(t[4] == s[11]);
    assert(t[5] == s[5]);
    assert(t[6] == s[6]);
    assert(t[7] == s[7]);
    assert(t[8] == s[4]);
    assert(t[9] == s[9]);
    assert(t[10] == s[10]);
    assert(t[11] == s[0]);
    lemma_inversions_12(s);
    lemma_inversions_12(t);
    assert(s[1] != s[8]);
    assert(gt_ind(s[8], s[1]) + gt_ind(s[1], s[8]) == 1);
    assert(s[2] != s[8]);
    assert(gt_ind(s[8], s[2]) + gt_ind(s[2], s[8]) == 1);
    assert(s[3] != s[8]);
    assert(gt_ind(s[8], s[3]) + gt_ind(s[3], s[8]) == 1);
    assert(s[5] != s[8]);
    assert(gt_ind(s[8], s[5]) + gt_ind(s[5], s[8]) == 1);
    assert(s[6] != s[8]);
    assert(gt_ind(s[8], s[6]) + gt_ind(s[6], s[8]) == 1);
    assert(s[7] != s[8]);
    assert(gt_ind(s[8], s[7]) + gt_ind(s[7], s[8]) == 1);
    assert(s[4] != s[8]);
    assert(gt_ind(s[8], s[4]) + gt_ind(s[4], s[8]) == 1);
    assert(s[0] != s[8]);
    assert(gt_ind(s[8], s[0]) + gt_ind(s[0], s[8]) == 1);
    assert(s[0] != s[1]);
    assert(gt_ind(s[1], s[0]) + gt_ind(s[0], s[1]) == 1);
    assert(s[0] != s[2]);
    assert(gt_ind(s[2], s[0]) + gt_ind(s[0], s[2]) == 1);
    assert(s[0] != s[3]);
    assert(gt_ind(s[3], s[0]) + gt_ind(s[0], s[3]) == 1);
    assert(s[5] != s[11]);
    assert(gt_ind(s[11], s[5]) + gt_ind(s[5], s[11]) == 1);
    assert(s[6] != s[11]);
    assert(gt_ind(s[11], s[6]) + gt_ind(s[6], s[11]) == 1);
    assert(s[7] != s[11]);
    assert(gt_ind(s[11], s[7]) + gt_ind(s[7], s[11]) == 1);
    assert(s[4] != s[11]);
    assert(gt_ind(s[11], s[4]) + gt_ind(s[4], s[11]) == 1);
    assert(s[9] != s[11]);
    assert(gt_ind(s[11], s[9]) + gt_ind(s[9], s[11]) == 1);
    assert(s[10] != s[11]);
    assert(gt_ind(s[11], s[10]) + gt_ind(s[10], s[11]) == 1);
    assert(s[0] != s[11]);
    assert(gt_ind(s[11], s[0]) + gt_ind(s[0], s[11]) == 1);
    assert(s[4] != s[5]);
    assert(gt_ind(s[5], s[4]) + gt_ind(s[4], s[5]) == 1);
    assert(s[0] != s[5]);
    assert(gt_ind(s[5], s[0]) + gt_ind(s[0], s[5]) == 1);
    assert(s[4] != s[6]);
    assert(gt_ind(s[6], s[4]) + gt_ind(s[4], s[6]) == 1);
    assert(s[0] != s[6]);
    assert(gt_ind(s[6], s[0]) + gt_ind(s[0], s[6]) == 1);
    assert(s[4] != s[7]);
    assert(gt_ind(s[7], s[4]) + gt_ind(s[4], s[7]) == 1);
    assert(s[0] != s[7]);
    assert(gt_ind(s[7], s[0]) + gt_ind(s[0], s[7]) == 1);
    assert(s[0] != s[4]);
    assert(gt_ind(s[4], s[0]) + gt_ind(s[0], s[4]) == 1);
    assert(s[0] != s[9]);
    assert(gt_ind(s[9], s[0]) + gt_ind(s[0], s[9]) == 1);
    assert(s[0] != s[10]);
    assert(gt_ind(s[10], s[0]) + gt_ind(s[0], s[10]) == 1);
    let x = gt_ind(s[1], s[8]) + gt_ind(s[2], s[8]) + gt_ind(s[3], s[8]) + gt_ind(s[5], s[8]) + gt_ind(s[6], s[8]) + gt_ind(s[7], s[8]) + gt_ind(s[4], s[8]) + gt_ind(s[0], s[8]) + gt_ind(s[0], s[1]) + gt_ind(s[0], s[2]) + gt_ind(s[0], s[3]) + gt_ind(s[5], s[11]) + gt_ind(s[6], s[11]) + gt_ind(s[7], s[11]) + gt_ind(s[4], s[11]) + gt_ind(s[9], s[11]) + gt_ind(s[10], s[11]) + gt_ind(s[0], s[11]) + gt_ind(s[4], s[5]) + gt_ind(s[0], s[5]) + gt_ind(s[4], s[6]) + gt_ind(s[0], s[6]) + gt_ind(s[4], s[7]) + gt_ind(s[0], s[7]) + gt_ind(s[0], s[4]) + gt_ind(s[0], s[9]) + gt_ind(s[0], s[10]);
    assert(inversions(t) == inversions(s) + 27 - 2 * x);
    lemma_mod_multiples_vanish(13 - x, inversions(s) + 1, 2);
    assert(inversions(t) % 2 != inversions(s) % 2);
}

#[verifier::rlimit(100)]
#[verifier::spinoff_prover]
proof fn lemma_qt_ep_inv_flip_f(v: CubeV)
    requires
        wf(v),
        ep_ok(v),
    ensures
        inversions(qt(v, Face::F).ep) % 2 != inversions(v.ep) % 2,
{
    let s = v.ep;
    let t = qt(v, Face::F).ep;
    assert(t[0] == s[0]);
    assert(t[1] == s[9]);
    assert(t[2] == s[2]);
    assert(t[3] == s[3]);
    assert(t[4] == s[4]);
    assert(t[5] == s[8]);
    assert(t[6] == s[6]);
    assert(t[7] == s[7]);
    assert(t[8] == s[1]);
    assert(t[9] == s[5]);
    assert(t[10] == s[10]);
    assert(t[11] == s[11]);
    lemma_inversions_12(s);
    lemma_inversions_12(t);
    assert(s[2] != s[9]);
    assert(gt_ind(s[9], s[2]) + gt_ind(s[2], s[9]) == 1);
    assert(s[3] != s[9]);
    assert(gt_ind(s[9], s[3]) + gt_ind(s[3], s[9]) == 1);
    assert(s[4] != s[9]);
    assert(gt_ind(s[9], s[4]) + gt_ind(s[4], s[9]) == 1);
    assert(s[8] != s[9]);
    assert(gt_ind(s[9], s[8]) + gt_ind(s[8], s[9]) == 1);
    assert(s[6] != s[9]);
    assert(gt_ind(s[9], s[6]) + gt_ind(s[6], s[9]) == 1);
    assert(s[7] != s[9]);
    assert(gt_ind(s[9], s[7]) + gt_ind(s[7], s[9]) == 1);
    assert(s[1] != s[9]);
    assert(gt_ind(s[9], s[1]) + gt_ind(s[1], s[9]) == 1);
    assert(s[5] != s[9]);
    assert(gt_ind(s[9], s[5]) + gt_ind(s[5], s[9]) == 1);
    assert(s[1] != s[2]);
    assert(gt_ind(s[2], s[1]) + gt_ind(s[1], s[2]) == 1);
    assert(s[1] != s[3]);
    assert(gt_ind(s[3], s[1]) + gt_ind(s[1], s[3]) == 1);
    assert(s[1] != s[4]);
    assert(gt_ind(s[4], s[1]) + gt_ind(s[1], s[4]) == 1);
    assert(s[6] != s[8]);
    assert(gt_ind(s[8], s[6]) + gt_ind(s[6], s[8]) == 1);
    assert(s[7] != s[8]);
    assert(gt_ind(s[8], s[7]) + gt_ind(s[7], s[8]) == 1);
    assert(s[1] != s[8]);
    assert(gt_ind(s[8], s[1]) + gt_ind(s[1], s[8]) == 1);
    assert(s[5] != s[8]);
    assert(gt_ind(s[8], s[5]) + gt_ind(s[5], s[8]) == 1);
    assert(s[1] != s[6]);
    assert(gt_ind(s[6], s[1]) + gt_ind(s[1], s[6]) == 1);
    assert(s[5] != s[6]);
    assert(gt_ind(s[6], s[5]) + gt_ind(s[5], s[6]) == 1);
    assert(s[1] != s[7]);
    assert(gt_ind(s[7], s[1]) + gt_ind(s[1], s[7]) == 1);
    assert(s[5] != s[7]);
    assert(gt_ind(s[7], s[5]) + gt_ind(s[5], s[7]) == 1);
    let x = gt_ind(s[2], s[9]) + gt_ind(s[3], s[9]) + gt_ind(s[4], s[9]) + gt_ind(s[8], s[9]) + gt_ind(s[6], s[9]) + gt_ind(s[7], s[9]) + gt_ind(s[1], s[9]) + gt_ind(s[5], s[9]) + gt_ind(s[1], s[2]) + gt_ind(s[1], s[3]) + gt_ind(s[1], s[4]) + gt_ind(s[6], s[8]) + gt_ind(s[7], s[8]) + gt_ind(s[1], s[8]) + gt_ind(s[5], s[8]) + gt_ind(s[1], s[6]) + gt_ind(s[5], s[6]) + gt_ind(s[1], s[7]) + gt_ind(s[5], s[7]);
    assert(inversions(t) == inversions(s) + 19 - 2 * x);
    lemma_mod_multiples_vanish(9 - x, inversions(s) + 1, 2);
    assert(inversions(t) % 2 != inversions(s) % 2);
}

#[verifier::rlimit(100)]
#[verifier::spinoff_prover]
proof fn lemma_qt_ep_inv_flip_d(v: CubeV)
    requires
        wf(v),
        ep_ok(v),
    ensures
        inversions(qt(v, Face::D).ep) % 2 != inversions(v.ep) % 2,
{
    let s = v.ep;
    let t = qt(v, Face::D).ep;
    assert(t[0] == s[0]);
    assert(t[1] == s[1]);
    assert(t[2] == s[2]);
    assert(t[3] == s[3]);
    assert(t[4] == s[5]);
    assert(t[5] == s[6]);
    assert(t[6] == s[7]);
    assert(t[7] == s[4]);
    assert(t[8] == s[8]);
    assert(t[9] == s[9]);
    assert(t[10] == s[10]);
    assert(t[11] == s[11]);
    lemma_inversions_12(s);
    lemma_inversions_12(t);
    assert(s[4] != s[5]);
    assert(gt_ind(s[5], s[4]) + gt_ind(s[4], s[5]) == 1);
    assert(s[4] != s[6]);
    assert(gt_ind(s[6], s[4]) + gt_ind(s[4], s[6]) == 1);
    assert(s[4] != s[7]);
    assert(gt_ind(s[7], s[4]) + gt_ind(s[4], s[7]) == 1);
    let x = gt_ind(s[4], s[5]) + gt_ind(s[4], s[6]) + gt_ind(s[4], s[7]);
    assert(inversions(t) == inversions(s) + 3 - 2 * x);
    lemma_mod_multiples_vanish(1 - x, inversions(s) + 1, 2);
    assert(inversions(t) % 2 != inversions(s) % 2);
}

#[verifier::rlimit(100)]
#[verifier::spinoff_prover]
proof fn lemma_qt_ep_inv_flip_b(v: CubeV)
    requires
        wf(v),
        ep_ok(v),
    ensures
        inversions(qt(v, Face::B).ep) % 2 != inversions(v.ep) % 2,
{
    let s = v.ep;
    let t = qt(v, Face::B).ep;
    assert(t[0] == s[0]);
    assert(t[1] == s[1]);
    assert(t[2] == s[2]);
    assert(t[3] == s[11]);
    assert(t[4] == s[4]);
    assert(t[5] == s[5]);
    assert(t[6] == s[6]);
    assert(t[7] == s[10]);
    assert(t[8] == s[8]);
    assert(t[9] == s[9]);
    assert(t[10] == s[3]);
    assert(t[11] == s[7]);
    lemma_inversions_12(s);
    lemma_inversions_12(t);
    assert(s[4] != s[11]);
    assert(gt_ind(s[11], s[4]) + gt_ind(s[4], s[11]) == 1);
    assert(s[5] != s[11]);
    assert(gt_ind(s[11], s[5]) + gt_ind(s[5], s[11]) == 1);
    assert(s[6] != s[11]);
    assert(gt_ind(s[11], s[6]) + gt_ind(s[6], s[11]) == 1);
    assert(s[10] != s[11]);
    assert(gt_ind(s[11], s[10]) + gt_ind(s[10], s[11]) == 1);
    assert(s[8] != s[11]);
    assert(gt_ind(s[11], s[8]) + gt_ind(s[8], s[11]) == 1);
    assert(s[9] != s[11]);
    assert(gt_ind(s[11], s[9]) + gt_ind(s[9], s[11]) == 1);
    assert(s[3] != s[11]);
    assert(gt_ind(s[11], s[3]) + gt_ind(s[3], s[11]) == 1);
    assert(s[7] != s[11]);
    assert(gt_ind(s[11], s[7]) + gt_ind(s[7], s[11]) == 1);
    assert(s[3] != s[4]);
    assert(gt_ind(s[4], s[3]) + gt_ind(s[3], s[4]) == 1);
    assert(s[3] != s[5]);
    assert(gt_ind(s[5], s[3]) + gt_ind(s[3], s[5]) == 1);
    assert(s[3] != s[6]);
    assert(gt_ind(s[6], s[3]) + gt_ind(s[3], s[6]) == 1);
    assert(s[8] != s[10]);
    assert(gt_ind(s[10], s[8]) + gt_ind(s[8], s[10]) == 1);
    assert(s[9] != s[10]);
    assert(gt_ind(s[10], s[9]) + gt_ind(s[9], s[10]) == 1);
    assert(s[3] != s[10]);
    assert(gt_ind(s[10], s[3]) + gt_ind(s[3], s[10]) == 1);
    assert(s[7] != s[10]);
    assert(gt_ind(s[10], s[7]) + gt_ind(s[7], s[10]) == 1);
    assert(s[3] != s[8]);
    assert(gt_ind(s[8], s[3]) + gt_ind(s[3], s[8]) == 1);
    assert(s[7] != s[8]);
    assert(gt_ind(s[8], s[7]) + gt_ind(s[7], s[8]) == 1);
    assert(s[3] != s[9]);
    assert(gt_ind(s[9], s[3]) + gt_ind(s[3], s[9]) == 1);
    assert(s[7] != s[9]);
    assert(gt_ind(s[9], s[7]) + gt_ind(s[7], s[9]) == 1);
    let x = gt_ind(s[4], s[11]) + gt_ind(s[5], s[11]) + gt_ind(s[6], s[11]) + gt_ind(s[10], s[11]) + gt_ind(s[8], s[11]) + gt_ind(s[9], s[11]) + gt_ind(s[3], s[11]) + gt_ind(s[7], s[11]) + gt_ind(s[3], s[4]) + gt_ind(s[3], s[5]) + gt_ind(s[3], s[6]) + gt_ind(s[8], s[10]) + gt_ind(s[9], s[10]) + gt_ind(s[3], s[10]) + gt_ind(s[7], s[10]) + gt_ind(s[3], s[8]) + gt_ind(s[7], s[8]) + gt_ind(s[3], s[9]) + gt_ind(s[7], s[9]);
    assert(inversions(t) == inversions(s) + 19 - 2 * x);
    lemma_mod_multiples_vanish(9 - x, inversions(s) + 1, 2);
    assert(inversions(t) % 2 != inversions(s) % 2);
}

#[verifier::rlimit(100)]
#[verifier::spinoff_prover]
proof fn lemma_qt_ep_inv_flip_l(v: CubeV)
    requires
        wf(v),
        ep_ok(v),
    ensures
        inversions(qt(v, Face::L).ep) % 2 != inversions(v.ep) % 2,
{
    let s = v.ep;
    let t = qt(v, Face::L).ep;
    assert(t[0] == s[0]);
    assert(t[1] == s[1]);
    assert(t[2] == s[10]);
    assert(t[3] == s[3]);
    assert(t[4] == s[4]);
    assert(t[5] == s[5]);
    assert(t[6] == s[9]);
    assert(t[7] == s[7]);
    assert(t[8] == s[8]);
    assert(t[9] == s[2]);
    assert(t[10] == s[6]);
    assert(t[11] == s[11]);
    lemma_inversions_12(s);
    lemma_inversions_12(t);
    assert(s[3] != s[10]);
    assert(gt_ind(s[10], s[3]) + gt_ind(s[3], s[10]) == 1);
    assert(s[4] != s[10]);
    assert(gt_ind(s[10], s[4]) + gt_ind(s[4], s[10]) == 1);
    assert(s[5] != s[10]);
    assert(gt_ind(s[10], s[5]) + gt_ind(s[5], s[10]) == 1);
    assert(s[9] != s[10]);
    assert(gt_ind(s[10], s[9]) + gt_ind(s[9], s[10]) == 1);
    assert(s[7] != s[10]);
    assert(gt_ind(s[10], s[7]) + gt_ind(s[7], s[10]) == 1);
    assert(s[8] != s[10]);
    assert(gt_ind(s[10], s[8]) + gt_ind(s[8], s[10]) == 1);
    assert(s[2] != s[10]);
    assert(gt_ind(s[10], s[2]) + gt_ind(s[2], s[10]) == 1);
    assert(s[6] != s[10]);
    assert(gt_ind(s[10], s[6]) + gt_ind(s[6], s[10]) == 1);
    assert(s[2] != s[3]);
    assert(gt_ind(s[3], s[2]) + gt_ind(s[2], s[3]) == 1);
    assert(s[2] != s[4]);
    assert(gt_ind(s[4], s[2]) + gt_ind(s[2], s[4]) == 1);
    assert(s[2] != s[5]);
    assert(gt_ind(s[5], s[2]) + gt_ind(s[2], s[5]) == 1);
    assert(s[7] != s[9]);
    assert(gt_ind(s[9], s[7]) + gt_ind(s[7], s[9]) == 1);
    assert(s[8] != s[9]);
    assert(gt_ind(s[9], s[8]) + gt_ind(s[8], s[9]) == 1);
    assert(s[2] != s[9]);
    assert(gt_ind(s[9], s[2]) + gt_ind(s[2], s[9]) == 1);
    assert(s[6] != s[9]);
    assert(gt_ind(s[9], s[6]) + gt_ind(s[6], s[9]) == 1);
    assert(s[2] != s[7]);
    assert(gt_ind(s[7], s[2]) + gt_ind(s[2], s[7]) == 1);
    assert(s[6] != s[7]);
    assert(gt_ind(s[7], s[6]) + gt_ind(s[6], s[7]) == 1);
    assert(s[2] != s[8]);
    assert(gt_ind(s[8], s[2]) + gt_ind(s[2], s[8]) == 1);
    assert(s[6] != s[8]);
    assert(gt_ind(s[8], s[6]) + gt_ind(s[6], s[8]) == 1);
    let x = gt_ind(s[3], s[10]) + gt_ind(s[4], s[10]) + gt_ind(s[5], s[10]) + gt_ind(s[9], s[10]) + gt_ind(s[7], s[10]) + gt_ind(s[8], s[10]) + gt_ind(s[2], s[10]) + gt_ind(s[6], s[10]) + gt_ind(s[2], s[3]) + gt_ind(s[2], s[4]) + gt_ind(s[2], s[5]) + gt_ind(s[7], s[9]) + gt_ind(s[8], s[9]) + gt_ind(s[2], s[9]) + gt_ind(s[6], s[9]) + gt_ind(s[2], s[7]) + gt_ind(s[6], s[7]) + gt_ind(s[2], s[8]) + gt_ind(s[6], s[8]);
    assert(inversions(t) == inversions(s) + 19 - 2 * x);
    lemma_mod_multiples_vanish(9 - x, inversions(s) + 1, 2);
    assert(inversions(t) % 2 != inversions(s) % 2);
}

proof fn lemma_qt_co_ok(v: CubeV, f: Face)
    requires
        wf(v),
        co_ok(v),
    ensures
        co_ok(qt(v, f)),
{
    match f {
        Face::U => lemma_qt_co_ok_u(v),
        Face::R => lemma_qt_co_ok_r(v),
        Face::F => lemma_qt_co_ok_f(v),
        Face::D => lemma_qt_co_ok_d(v),
        Face::B => lemma_qt_co_ok_b(v),
        Face::L => lemma_qt_co_ok_l(v),
    }
}

proof fn lemma_qt_eo_ok(v: CubeV, f: Face)
    requires
        wf(v),
        eo_ok(v),
    ensures
        eo_ok(qt(v, f)),
{
    match f {
        Face::U => lemma_qt_eo_ok_u(v),
        Face::R => lemma_qt_eo_ok_r(v),
        Face::F => lemma_qt_eo_ok_f(v),
        Face::D => lemma_qt_eo_ok_d(v),
        Face::B => lemma_qt_eo_ok_b(v),
        Face::L => lemma_qt_eo_ok_l(v),
    }
}

proof fn lemma_qt_cp_inv_flip(v: CubeV, f: Face)
    requires
        wf(v),
        cp_ok(v),
    ensures
        inversions(qt(v, f).cp) % 2 != inversions(v.cp) % 2,
{
    match f {
        Face::U => lemma_qt_cp_inv_flip_u(v),
        Face::R => lemma_qt_cp_inv_flip_r(v),
        Face::F => lemma_qt_cp_inv_flip_f(v),
        Face::D => lemma_qt_cp_inv_flip_d(v),
        Face::B => lemma_qt_cp_inv_flip_b(v),
        Face::L => lemma_qt_cp_inv_flip_l(v),
    }
}

proof fn lemma_qt_ep_inv_flip(v: CubeV, f: Face)
    requires
        wf(v),
        ep_ok(v),
    ensures
        inversions(qt(v, f).ep) % 2 != inversions(v.ep) % 2,
{
    match f {
        Face::U => lemma_qt_ep_inv_flip_u(v),
        Face::R => lemma_qt_ep_inv_flip_r(v),
        Face::F => lemma_qt_ep_inv_flip_f(v),
        Face::D => lemma_qt_ep_inv_flip_d(v),
        Face::B => lemma_qt_ep_inv_flip_b(v),
        Face::L => lemma_qt_ep_inv_flip_l(v),
    }
}

/// One quarter turn of any face carries a solvable state to a solvable
/// state.
pub proof fn lemma_qt_valid(v: CubeV, f: Face)
    requires
        valid(v),
    ensures
        valid(qt(v, f)),
{
    lemma_qt_cp_ok(v, f);
    lemma_qt_ep_ok(v, f);
    lemma_qt_co_ok(v, f);
    lemma_qt_eo_ok(v, f);
    lemma_qt_cp_inv_flip(v, f);
    lemma_qt_ep_inv_flip(v, f);
}

/// Any number of quarter turns carries a solvable state to a solvable
/// state.
pub proof fn lemma_qt_n_valid(v: CubeV, f: Face, n: int)
    requires
        valid(v),
        n >= 0,
    ensures
        valid(qt_n(v, f, n)),
    decreases n,
{
    if n > 0 {
        lemma_qt_n_valid(v, f, n - 1);
        lemma_qt_valid(qt_n(v, f, n - 1), f);
    }
}

/// Closure: applying any legal move to any solvable state yields a
/// solvable state.
pub proof fn lemma_apply_move_closure(v: CubeV, f: Face, m: int)
    requires
        valid(v),
        1 <= m <= 3,
    ensures
        valid(qt_n(v, f, m)),
{
    lemma_qt_n_valid(v, f, m);
}

#[verifier::rlimit(100)]
#[verifier::spinoff_prover]
proof fn lemma_qt_four_u(v: CubeV)
    requires
        valid(v),
    ensures
        qt_n(v, Face::U, 4) == v,
{
    reveal_with_fuel(qt_n, 5);
    let w1 = qt(v, Face::U);
    let w2 = qt(w1, Face::U);
    let w3 = qt(w2, Face::U);
    let w4 = qt(w3, Face::U);
    assert(w1.cp[0] == v.cp[3]);
    assert(w1.co[0] == (v.co[3] + 0) % 3);
    assert(w1.cp[1] == v.cp[0]);
    assert(w1.co[1] == (v.co[0] + 0) % 3);
    assert(w1.cp[2] == v.cp[1]);
    assert(w1.co[2] == (v.co[1] + 0) % 3);
    assert(w1.cp[3] == v.cp[2]);
    assert(w1.co[3] == (v.co[2] + 0) % 3);
    assert(w1.cp[4] == v.cp[4]);
    assert(w1.co[4] == (v.co[4] + 0) % 3);
    assert(w1.cp[5] == v.cp[5]);
    assert(w1.co[5] == (v.co[5] + 0) % 3);
    assert(w1.cp[6] == v.cp[6]);
    assert(w1.co[6] == (v.co[6] + 0) % 3);
    assert(w1.cp[7] == v.cp[7]);
    assert(w1.co[7] == (v.co[7] + 0) % 3);
    assert(w1.ep[0] == v.ep[3]);
    assert(w1.eo[0] == eo_flip(v.eo[3], 0));
    assert(w1.ep[1] == v.ep[0]);
    assert(w1.eo[1] == eo_flip(v.eo[0], 0));
    assert(w1.ep[2] == v.ep[1]);
    assert(w1.eo[2] == eo_flip(v.eo[1], 0));
    assert(w1.ep[3] == v.ep[2]);
    assert(w1.eo[3] == eo_flip(v.eo[2], 0));
    assert(w1.ep[4] == v.ep[4]);
    assert(w1.eo[4] == eo_flip(v.eo[4], 0));
    assert(w1.ep[5] == v.ep[5]);
    assert(w1.eo[5] == eo_flip(v.eo[5], 0));
    assert(w1.ep[6] == v.ep[6]);
    assert(w1.eo[6] == eo_flip(v.eo[6], 0));
    assert(w1.ep[7] == v.ep[7]);
    assert(w1.eo[7] == eo_flip(v.eo[7], 0));
    assert(w1.ep[8] == v.ep[8]);
    assert(w1.eo[8] == eo_flip(v.eo[8], 0));
    assert(w1.ep[9] == v.ep[9]);
    assert(w1.eo[9] == eo_flip(v.eo[9], 0));
    assert(w1.ep[10] == v.ep[10]);
    assert(w1.eo[10] == eo_flip(v.eo[10], 0));
    assert(w1.ep[11] == v.ep[11]);
    assert(w1.eo[11] == eo_flip(v.eo[11], 0));
    assert(w2.cp[0] == w1.cp[3]);
    assert(w2.co[0] == (w1.co[3] + 0) % 3);
    assert(w2.cp[1] == w1.cp[0]);
    assert(w2.co[1] == (w1.co[0] + 0) % 3);
    assert(w2.cp[2] == w1.cp[1]);
    assert(w2.co[2] == (w1.co[1] + 0) % 3);
    assert(w2.cp[3] == w1.cp[2]);
    assert(w2.co[3] == (w1.co[2] + 0) % 3);
    assert(w2.cp[4] == w1.cp[4]);
    assert(w2.co[4] == (w1.co[4] + 0) % 3);
    assert(w2.cp[5] == w1.cp[5]);
    assert(w2.co[5] == (w1.co[5] + 0) % 3);
    assert(w2.cp[6] == w1.cp[6]);
    assert(w2.co[6] == (w1.co[6] + 0) % 3);
    assert(w2.cp[7] == w1.cp[7]);
    assert(w2.co[7] == (w1.co[7] + 0) % 3);
    assert(w2.ep[0] == w1.ep[3]);
    assert(w2.eo[0] == eo_flip(w1.eo[3], 0));
    assert(w2.ep[1] == w1.ep[0]);
    assert(w2.eo[1] == eo_flip(w1.eo[0], 0));
    assert(w2.ep[2] == w1.ep[1]);
    assert(w2.eo[2] == eo_flip(w1.eo[1], 0));
    assert(w2.ep[3] == w1.ep[2]);
    assert(w2.eo[3] == eo_flip(w1.eo[2], 0));
    assert(w2.ep[4] == w1.ep[4]);
    assert(w2.eo[4] == eo_flip(w1.eo[4], 0));
    assert(w2.ep[5] == w1.ep[5]);
    assert(w2.eo[5] == eo_flip(w1.eo[5], 0));
    assert(w2.ep[6] == w1.ep[6]);
    assert(w2.eo[6] == eo_flip(w1.eo[6], 0));
    assert(w2.ep[7] == w1.ep[7]);
    assert(w2.eo[7] == eo_flip(w1.eo[7], 0));
    assert(w2.ep[8] == w1.ep[8]);
    assert(w2.eo[8] == eo_flip(w1.eo[8], 0));
    assert(w2.ep[9] == w1.ep[9]);
    assert(w2.eo[9] == eo_flip(w1.eo[9], 0));
    assert(w2.ep[10] == w1.ep[10]);
    assert(w2.eo[10] == eo_flip(w1.eo[10], 0));
    assert(w2.ep[11] == w1.ep[11]);
    assert(w2.eo[11] == eo_flip(w1.eo[11], 0));
    assert(w3.cp[0] == w2.cp[3]);
    assert(w3.co[0] == (w2.co[3] + 0) % 3);
    assert(w3.cp[1] == w2.cp[0]);
    assert(w3.co[1] == (w2.co[0] + 0) % 3);
    assert(w3.cp[2] == w2.cp[1]);
    assert(w3.co[2] == (w2.co[1] + 0) % 3);
    assert(w3.cp[3] == w2.cp[2]);
    assert(w3.co[3] == (w2.co[2] + 0) % 3);
    assert(w3.cp[4] == w2.cp[4]);
    assert(w3.co[4] == (w2.co[4] + 0) % 3);
    assert(w3.cp[5] == w2.cp[5]);
    assert(w3.co[5] == (w2.co[5] + 0) % 3);
    assert(w3.cp[6] == w2.cp[6]);
    assert(w3.co[6] == (w2.co[6] + 0) % 3);
    assert(w3.cp[7] == w2.cp[7]);
    assert(w3.co[7] == (w2.co[7] + 0) % 3);
    assert(w3.ep[0] == w2.ep[3]);
    assert(w3.eo[0] == eo_flip(w2.eo[3], 0));
    assert(w3.ep[1] == w2.ep[0]);
    assert(w3.eo[1] == eo_flip(w2.eo[0], 0));
    assert(w3.ep[2] == w2.ep[1]);
    assert(w3.eo[2] == eo_flip(w2.eo[1], 0));
    assert(w3.ep[3] == w2.ep[2]);
    assert(w3.eo[3] == eo_flip(w2.eo[2], 0));
    assert(w3.ep[4] == w2.ep[4]);
    assert(w3.eo[4] == eo_flip(w2.eo[4], 0));
    assert(w3.ep[5] == w2.ep[5]);
    assert(w3.eo[5] == eo_flip(w2.eo[5], 0));
    assert(w3.ep[6] == w2.ep[6]);
    assert(w3.eo[6] == eo_flip(w2.eo[6], 0));
    assert(w3.ep[7] == w2.ep[7]);
    assert(w3.eo[7] == eo_flip(w2.eo[7], 0));
    assert(w3.ep[8] == w2.ep[8]);
    assert(w3.eo[8] == eo_flip(w2.eo[8], 0));
    assert(w3.ep[9] == w2.ep[9]);
    assert(w3.eo[9] == eo_flip(w2.eo[9], 0));
    assert(w3.ep[10] == w2.ep[10]);
    assert(w3.eo[10] == eo_flip(w2.eo[10], 0));
    assert(w3.ep[11] == w2.ep[11]);
    assert(w3.eo[11] == eo_flip(w2.eo[11], 0));
    assert(w4.cp[0] == w3.cp[3]);
    assert(w4.co[0] == (w3.co[3] + 0) % 3);
    assert(w4.cp[1] == w3.cp[0]);
    assert(w4.co[1] == (w3.co[0] + 0) % 3);
    assert(w4.cp[2] == w3.cp[1]);
    assert(w4.co[2] == (w3.co[1] + 0) % 3);
    assert(w4.cp[3] == w3.cp[2]);
    assert(w4.co[3] == (w3.co[2] + 0) % 3);
    assert(w4.cp[4] == w3.cp[4]);
    assert(w4.co[4] == (w3.co[4] + 0) % 3);
    assert(w4.cp[5] == w3.cp[5]);
    assert(w4.co[5] == (w3.co[5] + 0) % 3);
    assert(w4.cp[6] == w3.cp[6]);
    assert(w4.co[6] == (w3.co[6] + 0) % 3);
    assert(w4.cp[7] == w3.cp[7]);
    assert(w4.co[7] == (w3.co[7] + 0) % 3);
    assert(w4.ep[0] == w3.ep[3]);
    assert(w4.eo[0] == eo_flip(w3.eo[3], 0));
    assert(w4.ep[1] == w3.ep[0]);
    assert(w4.eo[1] == eo_flip(w3.eo[0], 0));
    assert(w4.ep[2] == w3.ep[1]);
    assert(w4.eo[2] == eo_flip(w3.eo[1], 0));
    assert(w4.ep[3] == w3.ep[2]);
    assert(w4.eo[3] == eo_flip(w3.eo[2], 0));
    assert(w4.ep[4] == w3.ep[4]);
    assert(w4.eo[4] == eo_flip(w3.eo[4], 0));
    assert(w4.ep[5] == w3.ep[5]);
    assert(w4.eo[5] == eo_flip(w3.eo[5], 0));
    assert(w4.ep[6] == w3.ep[6]);
    assert(w4.eo[6] == eo_flip(w3.eo[6], 0));
    assert(w4.ep[7] == w3.ep[7]);
    assert(w4.eo[7] == eo_flip(w3.eo[7], 0));
    assert(w4.ep[8] == w3.ep[8]);
    assert(w4.eo[8] == eo_flip(w3.eo[8], 0));
    assert(w4.ep[9] == w3.ep[9]);
    assert(w4.eo[9] == eo_flip(w3.eo[9], 0));
    assert(w4.ep[10] == w3.ep[10]);
    assert(w4.eo[10] == eo_flip(w3.eo[10], 0));
    assert(w4.ep[11] == w3.ep[11]);
    assert(w4.eo[11] == eo_flip(w3.eo[11], 0));
    assert(w4.cp[0] == v.cp[0]);
    assert(w4.co[0] == v.co[0]);
    assert(w4.cp[1] == v.cp[1]);
    assert(w4.co[1] == v.co[1]);
    assert(w4.cp[2] == v.cp[2]);
    assert(w4.co[2] == v.co[2]);
    assert(w4.cp[3] == v.cp[3]);
    assert(w4.co[3] == v.co[3]);
    assert(w4.cp[4] == v.cp[4]);
    assert(w4.co[4] == v.co[4]);
    assert(w4.cp[5] == v.cp[5]);
    assert(w4.co[5] == v.co[5]);
    assert(w4.cp[6] == v.cp[6]);
    assert(w4.co[6] == v.co[6]);
    assert(w4.cp[7] == v.cp[7]);
    assert(w4.co[7] == v.co[7]);
    assert(w4.ep[0] == v.ep[0]);
    assert(w4.eo[0] == v.eo[0]);
    assert(w4.ep[1] == v.ep[1]);
    assert(w4.eo[1] == v.eo[1]);
    assert(w4.ep[2] == v.ep[2]);
    assert(w4.eo[2] == v.eo[2]);
    assert(w4.ep[3] == v.ep[3]);
    assert(w4.eo[3] == v.eo[3]);
    assert(w4.ep[4] == v.ep[4]);
    assert(w4.eo[4] == v.eo[4]);
    assert(w4.ep[5] == v.ep[5]);
    assert(w4.eo[5] == v.eo[5]);
    assert(w4.ep[6] == v.ep[6]);
    assert(w4.eo[6] == v.eo[6]);
    assert(w4.ep[7] == v.ep[7]);
    assert(w4.eo[7] == v.eo[7]);
    assert(w4.ep[8] == v.ep[8]);
    assert(w4.eo[8] == v.eo[8]);
    assert(w4.ep[9] == v.ep[9]);
    assert(w4.eo[9] == v.eo[9]);
    assert(w4.ep[10] == v.ep[10]);
    assert(w4.eo[10] == v.eo[10]);
    assert(w4.ep[11] == v.ep[11]);
    assert(w4.eo[11] == v.eo[11]);
    assert(w4.cp =~= v.cp);
    assert(w4.co =~= v.co);
    assert(w4.ep =~= v.ep);
    assert(w4.eo =~= v.eo);
    assert(qt_n(v, Face::U, 4) == w4);
    assert(w4 =~= v);
}

#[verifier::rlimit(100)]
#[verifier::spinoff_prover]
proof fn lemma_qt_four_r(v: CubeV)
    requires
        valid(v),
    ensures
        qt_n(v, Face::R, 4) == v,
{
    reveal_with_fuel(qt_n, 5);
    let w1 = qt(v, Face::R);
    let w2 = qt(w1, Face::R);
    let w3 = qt(w2, Face::R);
    let w4 = qt(w3, Face::R);
    assert(w1.cp[0] == v.cp[4]);
    assert(w1.co[0] == (v.co[4] + 1) % 3);
    assert(w1.cp[1] == v.cp[1]);
    assert(w1.co[1] == (v.co[1] + 0) % 3);
    assert(w1.cp[2] == v.cp[2]);
    assert(w1.co[2] == (v.co[2] + 0) % 3);
    assert(w1.cp[3] == v.cp[0]);
    assert(w1.co[3] == (v.co[0] + 2) % 3);
    assert(w1.cp[4] == v.cp[7]);
    assert(w1.co[4] == (v.co[7] + 2) % 3);
    assert(w1.cp[5] == v.cp[5]);
    assert(w1.co[5] == (v.co[5] + 0) % 3);
    assert(w1.cp[6] == v.cp[6]);
    assert(w1.co[6] == (v.co[6] + 0) % 3);
    assert(w1.cp[7] == v.cp[3]);
    assert(w1.co[7] == (v.co[3] + 1) % 3);
    assert(w1.ep[0] == v.ep[8]);
    assert(w1.eo[0] == eo_flip(v.eo[8], 0));
    assert(w1.ep[1] == v.ep[1]);
    assert(w1.eo[1] == eo_flip(v.eo[1], 0));
    assert(w1.ep[2] == v.ep[2]);
    assert(w1.eo[2] == eo_flip(v.eo[2], 0));
    assert(w1.ep[3] == v.ep[3]);
    assert(w1.eo[3] == eo_flip(v.eo[3], 0));
    assert(w1.ep[4] == v.ep[11]);
    assert(w1.eo[4] == eo_flip(v.eo[11], 0));
    assert(w1.ep[5] == v.ep[5]);
    assert(w1.eo[5] == eo_flip(v.eo[5], 0));
    assert(w1.ep[6] == v.ep[6]);
    assert(w1.eo[6] == eo_flip(v.eo[6], 0));
    assert(w1.ep[7] == v.ep[7]);
    assert(w1.eo[7] == eo_flip(v.eo[7], 0));
    assert(w1.ep[8] == v.ep[4]);
    assert(w1.eo[8] == eo_flip(v.eo[4], 0));
    assert(w1.ep[9] == v.ep[9]);
    assert(w1.eo[9] == eo_flip(v.eo[9], 0));
    assert(w1.ep[10] == v.ep[10]);
    assert(w1.eo[10] == eo_flip(v.eo[10], 0));
    assert(w1.ep[11] == v.ep[0]);
    assert(w1.eo[11] == eo_flip(v.eo[0], 0));
    assert(w2.cp[0] == w1.cp[4]);
    assert(w2.co[0] == (w1.co[4] + 1) % 3);
    assert(w2.cp[1] == w1.cp[1]);
    assert(w2.co[1] == (w1.co[1] + 0) % 3);
    assert(w2.cp[2] == w1.cp[2]);
    assert(w2.co[2] == (w1.co[2] + 0) % 3);
    assert(w2.cp[3] == w1.cp[0]);
    assert(w2.co[3] == (w1.co[0] + 2) % 3);
    assert(w2.cp[4] == w1.cp[7]);
    assert(w2.co[4] == (w1.co[7] + 2) % 3);
    assert(w2.cp[5] == w1.cp[5]);
    assert(w2.co[5] == (w1.co[5] + 0) % 3);
    assert(w2.cp[6] == w1.cp[6]);
    assert(w2.co[6] == (w1.co[6] + 0) % 3);
    assert(w2.cp[7] == w1.cp[3]);
    assert(w2.co[7] == (w1.co[3] + 1) % 3);
    assert(w2.ep[0] == w1.ep[8]);
    assert(w2.eo[0] == eo_flip(w1.eo[8], 0));
    assert(w2.ep[1] == w1.ep[1]);
    assert(w2.eo[1] == eo_flip(w1.eo[1], 0));
    assert(w2.ep[2] == w1.ep[2]);
    assert(w2.eo[2] == eo_flip(w1.eo[2], 0));
    assert(w2.ep[3] == w1.ep[3]);
    assert(w2.eo[3] == eo_flip(w1.eo[3], 0));
    assert(w2.ep[4] == w1.ep[11]);
    assert(w2.eo[4] == eo_flip(w1.eo[11], 0));
    assert(w2.ep[5] == w1.ep[5]);
    assert(w2.eo[5] == eo_flip(w1.eo[5], 0));
    assert(w2.ep[6] == w1.ep[6]);
    assert(w2.eo[6] == eo_flip(w1.eo[6], 0));
    assert(w2.ep[7] == w1.ep[7]);
    assert(w2.eo[7] == eo_flip(w1.eo[7], 0));
    assert(w2.ep[8] == w1.ep[4]);
    assert(w2.eo[8] == eo_flip(w1.eo[4], 0));
    assert(w2.ep[9] == w1.ep[9]);
    assert(w2.eo[9] == eo_flip(w1.eo[9], 0));
    assert(w2.ep[10] == w1.ep[10]);
    assert(w2.eo[10] == eo_flip(w1.eo[10], 0));
    assert(w2.ep[11] == w1.ep[0]);
    assert(w2.eo[11] == eo_flip(w1.eo[0], 0));
    assert(w3.cp[0] == w2.cp[4]);
    assert(w3.co[0] == (w2.co[4] + 1) % 3);
    assert(w3.cp[1] == w2.cp[1]);
    assert(w3.co[1] == (w2.co[1] + 0) % 3);
    assert(w3.cp[2] == w2.cp[2]);
    assert(w3.co[2] == (w2.co[2] + 0) % 3);
    assert(w3.cp[3] == w2.cp[0]);
    assert(w3.co[3] == (w2.co[0] + 2) % 3);
    assert(w3.cp[4] == w2.cp[7]);
    assert(w3.co[4] == (w2.co[7] + 2) % 3);
    assert(w3.cp[5] == w2.cp[5]);
    assert(w3.co[5] == (w2.co[5] + 0) % 3);
    assert(w3.cp[6] == w2.cp[6]);
    assert(w3.co[6] == (w2.co[6] + 0) % 3);
    assert(w3.cp[7] == w2.cp[3]);
    assert(w3.co[7] == (w2.co[3] + 1) % 3);
    assert(w3.ep[0] == w2.ep[8]);
    assert(w3.eo[0] == eo_flip(w2.eo[8], 0));
    assert(w3.ep[1] == w2.ep[1]);
    assert(w3.eo[1] == eo_flip(w2.eo[1], 0));
    assert(w3.ep[2] == w2.ep[2]);
    assert(w3.eo[2] == eo_flip(w2.eo[2], 0));
    assert(w3.ep[3] == w2.ep[3]);
    assert(w3.eo[3] == eo_flip(w2.eo[3], 0));
    assert(w3.ep[4] == w2.ep[11]);
    assert(w3.eo[4] == eo_flip(w2.eo[11], 0));
    assert(w3.ep[5] == w2.ep[5]);
    assert(w3.eo[5] == eo_flip(w2.eo[5], 0));
    assert(w3.ep[6] == w2.ep[6]);
    assert(w3.eo[6] == eo_flip(w2.eo[6], 0));
    assert(w3.ep[7] == w2.ep[7]);
    assert(w3.eo[7] == eo_flip(w2.eo[7], 0));
    assert(w3.ep[8] == w2.ep[4]);
    assert(w3.eo[8] == eo_flip(w2.eo[4], 0));
    assert(w3.ep[9] == w2.ep[9]);
    assert(w3.eo[9] == eo_flip(w2.eo[9], 0));
    assert(w3.ep[10] == w2.ep[10]);
    assert(w3.eo[10] == eo_flip(w2.eo[10], 0));
    assert(w3.ep[11] == w2.ep[0]);
    assert(w3.eo[11] == eo_flip(w2.eo[0], 0));
    assert(w4.cp[0] == w3.cp[4]);
    assert(w4.co[0] == (w3.co[4] + 1) % 3);
    assert(w4.cp[1] == w3.cp[1]);
    assert(w4.co[1] == (w3.co[1] + 0) % 3);
    assert(w4.cp[2] == w3.cp[2]);
    assert(w4.co[2] == (w3.co[2] + 0) % 3);
    assert(w4.cp[3] == w3.cp[0]);
    assert(w4.co[3] == (w3.co[0] + 2) % 3);
    assert(w4.cp[4] == w3.cp[7]);
    assert(w4.co[4] == (w3.co[7] + 2) % 3);
    assert(w4.cp[5] == w3.cp[5]);
    assert(w4.co[5] == (w3.co[5] + 0) % 3);
    assert(w4.cp[6] == w3.cp[6]);
    assert(w4.co[6] == (w3.co[6] + 0) % 3);
    assert(w4.cp[7] == w3.cp[3]);
    assert(w4.co[7] == (w3.co[3] + 1) % 3);
    assert(w4.ep[0] == w3.ep[8]);
    assert(w4.eo[0] == eo_flip(w3.eo[8], 0));
    assert(w4.ep[1] == w3.ep[1]);
    assert(w4.eo[1] == eo_flip(w3.eo[1], 0));
    assert(w4.ep[2] == w3.ep[2]);
    assert(w4.eo[2] == eo_flip(w3.eo[2], 0));
    assert(w4.ep[3] == w3.ep[3]);
    assert(w4.eo[3] == eo_flip(w3.eo[3], 0));
    assert(w4.ep[4] == w3.ep[11]);
    assert(w4.eo[4] == eo_flip(w3.eo[11], 0));
    assert(w4.ep[5] == w3.ep[5]);
    assert(w4.eo[5] == eo_flip(w3.eo[5], 0));
    assert(w4.ep[6] == w3.ep[6]);
    assert(w4.eo[6] == eo_flip(w3.eo[6], 0));
    assert(w4.ep[7] == w3.ep[7]);
    assert(w4.eo[7] == eo_flip(w3.eo[7], 0));
    assert(w4.ep[8] == w3.ep[4]);
    assert(w4.eo[8] == eo_flip(w3.eo[4], 0));
    assert(w4.ep[9] == w3.ep[9]);
    assert(w4.eo[9] == eo_flip(w3.eo[9], 0));
    assert(w4.ep[10] == w3.ep[10]);
    assert(w4.eo[10] == eo_flip(w3.eo[10], 0));
    assert(w4.ep[11] == w3.ep[0]);
    assert(w4.eo[11] == eo_flip(w3.eo[0], 0));
    assert(w4.cp[0] == v.cp[0]);
    assert(w4.co[0] == v.co[0]);
    assert(w4.cp[1] == v.cp[1]);
    assert(w4.co[1] == v.co[1]);
    assert(w4.cp[2] == v.cp[2]);
    assert(w4.co[2] == v.co[2]);
    assert(w4.cp[3] == v.cp[3]);
    assert(w4.co[3] == v.co[3]);
    assert(w4.cp[4] == v.cp[4]);
    assert(w4.co[4] == v.co[4]);
    assert(w4.cp[5] == v.cp[5]);
    assert(w4.co[5] == v.co[5]);
    assert(w4.cp[6] == v.cp[6]);
    assert(w4.co[6] == v.co[6]);
    assert(w4.cp[7] == v.cp[7]);
    assert(w4.co[7] == v.co[7]);
    assert(w4.ep[0] == v.ep[0]);
    assert(w4.eo[0] == v.eo[0]);
    assert(w4.ep[1] == v.ep[1]);
    assert(w4.eo[1] == v.eo[1]);
    assert(w4.ep[2] == v.ep[2]);
    assert(w4.eo[2] == v.eo[2]);
    assert(w4.ep[3] == v.ep[3]);
    assert(w4.eo[3] == v.eo[3]);
    assert(w4.ep[4] == v.ep[4]);
    assert(w4.eo[4] == v.eo[4]);
    assert(w4.ep[5] == v.ep[5]);
    assert(w4.eo[5] == v.eo[5]);
    assert(w4.ep[6] == v.ep[6]);
    assert(w4.eo[6] == v.eo[6]);
    assert(w4.ep[7] == v.ep[7]);
    assert(w4.eo[7] == v.eo[7]);
    assert(w4.ep[8] == v.ep[8]);
    assert(w4.eo[8] == v.eo[8]);
    assert(w4.ep[9] == v.ep[9]);
    assert(w4.eo[9] == v.eo[9]);
    assert(w4.ep[10] == v.ep[10]);
    assert(w4.eo[10] == v.eo[10]);
    assert(w4.ep[11] == v.ep[11]);
    assert(w4.eo[11] == v.eo[11]);
    assert(w4.cp =~= v.cp);
    assert(w4.co =~= v.co);
    assert(w4.ep =~= v.ep);
    assert(w4.eo =~= v.eo);
    assert(qt_n(v, Face::R, 4) == w4);
    assert(w4 =~= v);
}

#[verifier::rlimit(100)]
#[verifier::spinoff_prover]
proof fn lemma_qt_four_f(v: CubeV)
    requires
        valid(v),
    ensures
        qt_n(v, Face::F, 4) == v,
{
    reveal_with_fuel(qt_n, 5);
    let w1 = qt(v, Face::F);
    let w2 = qt(w1, Face::F);
    let w3 = qt(w2, Face::F);
    let w4 = qt(w3, Face::F);
    assert(w1.cp[0] == v.cp[1]);
    assert(w1.co[0] == (v.co[1] + 2) % 3);
    assert(w1.cp[1] == v.cp[5]);
    assert(w1.co[1] == (v.co[5] + 1) % 3);
    assert(w1.cp[2] == v.cp[2]);
    assert(w1.co[2] == (v.co[2] + 0) % 3);
    assert(w1.cp[3] == v.cp[3]);
    assert(w1.co[3] == (v.co[3] + 0) % 3);
    assert(w1.cp[4] == v.cp[0]);
    assert(w1.co[4] == (v.co[0] + 1) % 3);
    assert(w1.cp[5] == v.cp[4]);
    assert(w1.co[5] == (v.co[4] + 2) % 3);
    assert(w1.cp[6] == v.cp[6]);
    assert(w1.co[6] == (v.co[6] + 0) % 3);
    assert(w1.cp[7] == v.cp[7]);
    assert(w1.co[7] == (v.co[7] + 0) % 3);
    assert(w1.ep[0] == v.ep[0]);
    assert(w1.eo[0] == eo_flip(v.eo[0], 0));
    assert(w1.ep[1] == v.ep[9]);
    assert(w1.eo[1] == eo_flip(v.eo[9], 1));
    assert(w1.ep[2] == v.ep[2]);
    assert(w1.eo[2] == eo_flip(v.eo[2], 0));
    assert(w1.ep[3] == v.ep[3]);
    assert(w1.eo[3] == eo_flip(v.eo[3], 0));
    assert(w1.ep[4] == v.ep[4]);
    assert(w1.eo[4] == eo_flip(v.eo[4], 0));
    assert(w1.ep[5] == v.ep[8]);
    assert(w1.eo[5] == eo_flip(v.eo[8], 1));
    assert(w1.ep[6] == v.ep[6]);
    assert(w1.eo[6] == eo_flip(v.eo[6], 0));
    assert(w1.ep[7] == v.ep[7]);
    assert(w1.eo[7] == eo_flip(v.eo[7], 0));
    assert(w1.ep[8] == v.ep[1]);
    assert(w1.eo[8] == eo_flip(v.eo[1], 1));
    assert(w1.ep[9] == v.ep[5]);
    assert(w1.eo[9] == eo_flip(v.eo[5], 1));
    assert(w1.ep[10] == v.ep[10]);
    assert(w1.eo[10] == eo_flip(v.eo[10], 0));
    assert(w1.ep[11] == v.ep[11]);
    assert(w1.eo[11] == eo_flip(v.eo[11], 0));
    assert(w2.cp[0] == w1.cp[1]);
    assert(w2.co[0] == (w1.co[1] + 2) % 3);
    assert(w2.cp[1] == w1.cp[5]);
    assert(w2.co[1] == (w1.co[5] + 1) % 3);
    assert(w2.cp[2] == w1.cp[2]);
    assert(w2.co[2] == (w1.co[2] + 0) % 3);
    assert(w2.cp[3] == w1.cp[3]);
    assert(w2.co[3] == (w1.co[3] + 0) % 3);
    assert(w2.cp[4] == w1.cp[0]);
    assert(w2.co[4] == (w1.co[0] + 1) % 3);
    assert(w2.cp[5] == w1.cp[4]);
    assert(w2.co[5] == (w1.co[4] + 2) % 3);
    assert(w2.cp[6] == w1.cp[6]);
    assert(w2.co[6] == (w1.co[6] + 0) % 3);
    assert(w2.cp[7] == w1.cp[7]);
    assert(w2.co[7] == (w1.co[7] + 0) % 3);
    assert(w2.ep[0] == w1.ep[0]);
    assert(w2.eo[0] == eo_flip(w1.eo[0], 0));
    assert(w2.ep[1] == w1.ep[9]);
    assert(w2.eo[1] == eo_flip(w1.eo[9], 1));
    assert(w2.ep[2] == w1.ep[2]);
    assert(w2.eo[2] == eo_flip(w1.eo[2], 0));
    assert(w2.ep[3] == w1.ep[3]);
    assert(w2.eo[3] == eo_flip(w1.eo[3], 0));
    assert(w2.ep[4] == w1.ep[4]);
    assert(w2.eo[4] == eo_flip(w1.eo[4], 0));
    assert(w2.ep[5] == w1.ep[8]);
    assert(w2.eo[5] == eo_flip(w1.eo[8], 1));
    assert(w2.ep[6] == w1.ep[6]);
    assert(w2.eo[6] == eo_flip(w1.eo[6], 0));
    assert(w2.ep[7] == w1.ep[7]);
    assert(w2.eo[7] == eo_flip(w1.eo[7], 0));
    assert(w2.ep[8] == w1.ep[1]);
    assert(w2.eo[8] == eo_flip(w1.eo[1], 1));
    assert(w2.ep[9] == w1.ep[5]);
    assert(w2.eo[9] == eo_flip(w1.eo[5], 1));
    assert(w2.ep[10] == w1.ep[10]);
    assert(w2.eo[10] == eo_flip(w1.eo[10], 0));
    assert(w2.ep[11] == w1.ep[11]);
    assert(w2.eo[11] == eo_flip(w1.eo[11], 0));
    assert(w3.cp[0] == w2.cp[1]);
    assert(w3.co[0] == (w2.co[1] + 2) % 3);
    assert(w3.cp[1] == w2.cp[5]);
    assert(w3.co[1] == (w2.co[5] + 1) % 3);
    assert(w3.cp[2] == w2.cp[2]);
    assert(w3.co[2] == (w2.co[2] + 0) % 3);
    assert(w3.cp[3] == w2.cp[3]);
    assert(w3.co[3] == (w2.co[3] + 0) % 3);
    assert(w3.cp[4] == w2.cp[0]);
    assert(w3.co[4] == (w2.co[0] + 1) % 3);
    assert(w3.cp[5] == w2.cp[4]);
    assert(w3.co[5] == (w2.co[4] + 2) % 3);
    assert(w3.cp[6] == w2.cp[6]);
    assert(w3.co[6] == (w2.co[6] + 0) % 3);
    assert(w3.cp[7] == w2.cp[7]);
    assert(w3.co[7] == (w2.co[7] + 0) % 3);
    assert(w3.ep[0] == w2.ep[0]);
    assert(w3.eo[0] == eo_flip(w2.eo[0], 0));
    assert(w3.ep[1] == w2.ep[9]);
    assert(w3.eo[1] == eo_flip(w2.eo[9], 1));
    assert(w3.ep[2] == w2.ep[2]);
    assert(w3.eo[2] == eo_flip(w2.eo[2], 0));
    assert(w3.ep[3] == w2.ep[3]);
    assert(w3.eo[3] == eo_flip(w2.eo[3], 0));
    assert(w3.ep[4] == w2.ep[4]);
    assert(w3.eo[4] == eo_flip(w2.eo[4], 0));
    assert(w3.ep[5] == w2.ep[8]);
    assert(w3.eo[5] == eo_flip(w2.eo[8], 1));
    assert(w3.ep[6] == w2.ep[6]);
    assert(w3.eo[6] == eo_flip(w2.eo[6], 0));
    assert(w3.ep[7] == w2.ep[7]);
    assert(w3.eo[7] == eo_flip(w2.eo[7], 0));
    assert(w3.ep[8] == w2.ep[1]);
    assert(w3.eo[8] == eo_flip(w2.eo[1], 1));
    assert(w3.ep[9] == w2.ep[5]);
    assert(w3.eo[9] == eo_flip(w2.eo[5], 1));
    assert(w3.ep[10] == w2.ep[10]);
    assert(w3.eo[10] == eo_flip(w2.eo[10], 0));
    assert(w3.ep[11] == w2.ep[11]);
    assert(w3.eo[11] == eo_flip(w2.eo[11], 0));
    assert(w4.cp[0] == w3.cp[1]);
    assert(w4.co[0] == (w3.co[1] + 2) % 3);
    assert(w4.cp[1] == w3.cp[5]);
    assert(w4.co[1] == (w3.co[5] + 1) % 3);
    assert(w4.cp[2] == w3.cp[2]);
    assert(w4.co[2] == (w3.co[2] + 0) % 3);
    assert(w4.cp[3] == w3.cp[3]);
    assert(w4.co[3] == (w3.co[3] + 0) % 3);
    assert(w4.cp[4] == w3.cp[0]);
    assert(w4.co[4] == (w3.co[0] + 1) % 3);
    assert(w4.cp[5] == w3.cp[4]);
    assert(w4.co[5] == (w3.co[4] + 2) % 3);
    assert(w4.cp[6] == w3.cp[6]);
    assert(w4.co[6] == (w3.co[6] + 0) % 3);
    assert(w4.cp[7] == w3.cp[7]);
    assert(w4.co[7] == (w3.co[7] + 0) % 3);
    assert(w4.ep[0] == w3.ep[0]);
    assert(w4.eo[0] == eo_flip(w3.eo[0], 0));
    assert(w4.ep[1] == w3.ep[9]);
    assert(w4.eo[1] == eo_flip(w3.eo[9], 1));
    assert(w4.ep[2] == w3.ep[2]);
    assert(w4.eo[2] == eo_flip(w3.eo[2], 0));
    assert(w4.ep[3] == w3.ep[3]);
    assert(w4.eo[3] == eo_flip(w3.eo[3], 0));
    assert(w4.ep[4] == w3.ep[4]);
    assert(w4.eo[4] == eo_flip(w3.eo[4], 0));
    assert(w4.ep[5] == w3.ep[8]);
    assert(w4.eo[5] == eo_flip(w3.eo[8], 1));
    assert(w4.ep[6] == w3.ep[6]);
    assert(w4.eo[6] == eo_flip(w3.eo[6], 0));
    assert(w4.ep[7] == w3.ep[7]);
    assert(w4.eo[7] == eo_flip(w3.eo[7], 0));
    assert(w4.ep[8] == w3.ep[1]);
    assert(w4.eo[8] == eo_flip(w3.eo[1], 1));
    assert(w4.ep[9] == w3.ep[5]);
    assert(w4.eo[9] == eo_flip(w3.eo[5], 1));
    assert(w4.ep[10] == w3.ep[10]);
    assert(w4.eo[10] == eo_flip(w3.eo[10], 0));
    assert(w4.ep[11] == w3.ep[11]);
    assert(w4.eo[11] == eo_flip(w3.eo[11], 0));
    assert(w4.cp[0] == v.cp[0]);
    assert(w4.co[0] == v.co[0]);
    assert(w4.cp[1] == v.cp[1]);
    assert(w4.co[1] == v.co[1]);
    assert(w4.cp[2] == v.cp[2]);
    assert(w4.co[2] == v.co[2]);
    assert(w4.cp[3] == v.cp[3]);
    assert(w4.co[3] == v.co[3]);
    assert(w4.cp[4] == v.cp[4]);
    assert(w4.co[4] == v.co[4]);
    assert(w4.cp[5] == v.cp[5]);
    assert(w4.co[5] == v.co[5]);
    assert(w4.cp[6] == v.cp[6]);
    assert(w4.co[6] == v.co[6]);
    assert(w4.cp[7] == v.cp[7]);
    assert(w4.co[7] == v.co[7]);
    assert(w4.ep[0] == v.ep[0]);
    assert(w4.eo[0] == v.eo[0]);
    assert(w4.ep[1] == v.ep[1]);
    assert(w4.eo[1] == v.eo[1]);
    assert(w4.ep[2] == v.ep[2]);
    assert(w4.eo[2] == v.eo[2]);
    assert(w4.ep[3] == v.ep[3]);
    assert(w4.eo[3] == v.eo[3]);
    assert(w4.ep[4] == v.ep[4]);
    assert(w4.eo[4] == v.eo[4]);
    assert(w4.ep[5] == v.ep[5]);
    assert(w4.eo[5] == v.eo[5]);
    assert(w4.ep[6] == v.ep[6]);
    assert(w4.eo[6] == v.eo[6]);
    assert(w4.ep[7] == v.ep[7]);
    assert(w4.eo[7] == v.eo[7]);
    assert(w4.ep[8] == v.ep[8]);
    assert(w4.eo[8] == v.eo[8]);
    assert(w4.ep[9] == v.ep[9]);
    assert(w4.eo[9] == v.eo[9]);
    assert(w4.ep[10] == v.ep[10]);
    assert(w4.eo[10] == v.eo[10]);
    assert(w4.ep[11] == v.ep[11]);
    assert(w4.eo[11] == v.eo[11]);
    assert(w4.cp =~= v.cp);
    assert(w4.co =~= v.co);
    assert(w4.ep =~= v.ep);
    assert(w4.eo =~= v.eo);
    assert(qt_n(v, Face::F, 4) == w4);
    assert(w4 =~= v);
}

#[verifier::rlimit(100)]
#[verifier::spinoff_prover]
proof fn lemma_qt_four_d(v: CubeV)
    requires
        valid(v),
    ensures
        qt_n(v, Face::D, 4) == v,
{
    reveal_with_fuel(qt_n, 5);
    let w1 = qt(v, Face::D);
    let w2 = qt(w1, Face::D);
    let w3 = qt(w2, Face::D);
    let w4 = qt(w3, Face::D);
    assert(w1.cp[0] == v.cp[0]);
    assert(w1.co[0] == (v.co[0] + 0) % 3);
    assert(w1.cp[1] == v.cp[1]);
    assert(w1.co[1] == (v.co[1] + 0) % 3);
    assert(w1.cp[2] == v.cp[2]);
    assert(w1.co[2] == (v.co[2] + 0) % 3);
    assert(w1.cp[3] == v.cp[3]);
    assert(w1.co[3] == (v.co[3] + 0) % 3);
    assert(w1.cp[4] == v.cp[5]);
    assert(w1.co[4] == (v.co[5] + 0) % 3);
    assert(w1.cp[5] == v.cp[6]);
    assert(w1.co[5] == (v.co[6] + 0) % 3);
    assert(w1.cp[6] == v.cp[7]);
    assert(w1.co[6] == (v.co[7] + 0) % 3);
    assert(w1.cp[7] == v.cp[4]);
    assert(w1.co[7] == (v.co[4] + 0) % 3);
    assert(w1.ep[0] == v.ep[0]);
    assert(w1.eo[0] == eo_flip(v.eo[0], 0));
    assert(w1.ep[1] == v.ep[1]);
    assert(w1.eo[1] == eo_flip(v.eo[1], 0));
    assert(w1.ep[2] == v.ep[2]);
    assert(w1.eo[2] == eo_flip(v.eo[2], 0));
    assert(w1.ep[3] == v.ep[3]);
    assert(w1.eo[3] == eo_flip(v.eo[3], 0));
    assert(w1.ep[4] == v.ep[5]);
    assert(w1.eo[4] == eo_flip(v.eo[5], 0));
    assert(w1.ep[5] == v.ep[6]);
    assert(w1.eo[5] == eo_flip(v.eo[6], 0));
    assert(w1.ep[6] == v.ep[7]);
    assert(w1.eo[6] == eo_flip(v.eo[7], 0));
    assert(w1.ep[7] == v.ep[4]);
    assert(w1.eo[7] == eo_flip(v.eo[4], 0));
    assert(w1.ep[8] == v.ep[8]);
    assert(w1.eo[8] == eo_flip(v.eo[8], 0));
    assert(w1.ep[9] == v.ep[9]);
    assert(w1.eo[9] == eo_flip(v.eo[9], 0));
    assert(w1.ep[10] == v.ep[10]);
    assert(w1.eo[10] == eo_flip(v.eo[10], 0));
    assert(w1.ep[11] == v.ep[11]);
    assert(w1.eo[11] == eo_flip(v.eo[11], 0));
    assert(w2.cp[0] == w1.cp[0]);
    assert(w2.co[0] == (w1.co[0] + 0) % 3);
    assert(w2.cp[1] == w1.cp[1]);
    assert(w2.co[1] == (w1.co[1] + 0) % 3);
    assert(w2.cp[2] == w1.cp[2]);
    assert(w2.co[2] == (w1.co[2] + 0) % 3);
    assert(w2.cp[3] == w1.cp[3]);
    assert(w2.co[3] == (w1.co[3] + 0) % 3);
    assert(w2.cp[4] == w1.cp[5]);
    assert(w2.co[4] == (w1.co[5] + 0) % 3);
    assert(w2.cp[5] == w1.cp[6]);
    assert(w2.co[5] == (w1.co[6] + 0) % 3);
    assert(w2.cp[6] == w1.cp[7]);
    assert(w2.co[6] == (w1.co[7] + 0) % 3);
    assert(w2.cp[7] == w1.cp[4]);
    assert(w2.co[7] == (w1.co[4] + 0) % 3);
    assert(w2.ep[0] == w1.ep[0]);
    assert(w2.eo[0] == eo_flip(w1.eo[0], 0));
    assert(w2.ep[1] == w1.ep[1]);
    assert(w2.eo[1] == eo_flip(w1.eo[1], 0));
    assert(w2.ep[2] == w1.ep[2]);
    assert(w2.eo[2] == eo_flip(w1.eo[2], 0));
    assert(w2.ep[3] == w1.ep[3]);
    assert(w2.eo[3] == eo_flip(w1.eo[3], 0));
    assert(w2.ep[4] == w1.ep[5]);
    assert(w2.eo[4] == eo_flip(w1.eo[5], 0));
    assert(w2.ep[5] == w1.ep[6]);
    assert(w2.eo[5] == eo_flip(w1.eo[6], 0));
    assert(w2.ep[6] == w1.ep[7]);
    assert(w2.eo[6] == eo_flip(w1.eo[7], 0));
    assert(w2.ep[7] == w1.ep[4]);
    assert(w2.eo[7] == eo_flip(w1.eo[4], 0));
    assert(w2.ep[8] == w1.ep[8]);
    assert(w2.eo[8] == eo_flip(w1.eo[8], 0));
    assert(w2.ep[9] == w1.ep[9]);
    assert(w2.eo[9] == eo_flip(w1.eo[9], 0));
    assert(w2.ep[10] == w1.ep[10]);
    assert(w2.eo[10] == eo_flip(w1.eo[10], 0));
    assert(w2.ep[11] == w1.ep[11]);
    assert(w2.eo[11] == eo_flip(w1.eo[11], 0));
    assert(w3.cp[0] == w2.cp[0]);
    assert(w3.co[0] == (w2.co[0] + 0) % 3);
    assert(w3.cp[1] == w2.cp[1]);
    assert(w3.co[1] == (w2.co[1] + 0) % 3);
    assert(w3.cp[2] == w2.cp[2]);
    assert(w3.co[2] == (w2.co[2] + 0) % 3);
    assert(w3.cp[3] == w2.cp[3]);
    assert(w3.co[3] == (w2.co[3] + 0) % 3);
    assert(w3.cp[4] == w2.cp[5]);
    assert(w3.co[4] == (w2.co[5] + 0) % 3);
    assert(w3.cp[5] == w2.cp[6]);
    assert(w3.co[5] == (w2.co[6] + 0) % 3);
    assert(w3.cp[6] == w2.cp[7]);
    assert(w3.co[6] == (w2.co[7] + 0) % 3);
    assert(w3.cp[7] == w2.cp[4]);
    assert(w3.co[7] == (w2.co[4] + 0) % 3);
    assert(w3.ep[0] == w2.ep[0]);
    assert(w3.eo[0] == eo_flip(w2.eo[0], 0));
    assert(w3.ep[1] == w2.ep[1]);
    assert(w3.eo[1] == eo_flip(w2.eo[1], 0));
    assert(w3.ep[2] == w2.ep[2]);
    assert(w3.eo[2] == eo_flip(w2.eo[2], 0));
    assert(w3.ep[3] == w2.ep[3]);
    assert(w3.eo[3] == eo_flip(w2.eo[3], 0));
    assert(w3.ep[4] == w2.ep[5]);
    assert(w3.eo[4] == eo_flip(w2.eo[5], 0));
    assert(w3.ep[5] == w2.ep[6]);
    assert(w3.eo[5] == eo_flip(w2.eo[6], 0));
    assert(w3.ep[6] == w2.ep[7]);
    assert(w3.eo[6] == eo_flip(w2.eo[7], 0));
    assert(w3.ep[7] == w2.ep[4]);
    assert(w3.eo[7] == eo_flip(w2.eo[4], 0));
    assert(w3.ep[8] == w2.ep[8]);
    assert(w3.eo[8] == eo_flip(w2.eo[8], 0));
    assert(w3.ep[9] == w2.ep[9]);
    assert(w3.eo[9] == eo_flip(w2.eo[9], 0));
    assert(w3.ep[10] == w2.ep[10]);
    assert(w3.eo[10] == eo_flip(w2.eo[10], 0));
    assert(w3.ep[11] == w2.ep[11]);
    assert(w3.eo[11] == eo_flip(w2.eo[11], 0));
    assert(w4.cp[0] == w3.cp[0]);
    assert(w4.co[0] == (w3.co[0] + 0) % 3);
    assert(w4.cp[1] == w3.cp[1]);
    assert(w4.co[1] == (w3.co[1] + 0) % 3);
    assert(w4.cp[2] == w3.cp[2]);
    assert(w4.co[2] == (w3.co[2] + 0) % 3);
    assert(w4.cp[3] == w3.cp[3]);
    assert(w4.co[3] == (w3.co[3] + 0) % 3);
    assert(w4.cp[4] == w3.cp[5]);
    assert(w4.co[4] == (w3.co[5] + 0) % 3);
    assert(w4.cp[5] == w3.cp[6]);
    assert(w4.co[5] == (w3.co[6] + 0) % 3);
    assert(w4.cp[6] == w3.cp[7]);
    assert(w4.co[6] == (w3.co[7] + 0) % 3);
    assert(w4.cp[7] == w3.cp[4]);
    assert(w4.co[7] == (w3.co[4] + 0) % 3);
    assert(w4.ep[0] == w3.ep[0]);
    assert(w4.eo[0] == eo_flip(w3.eo[0], 0));
    assert(w4.ep[1] == w3.ep[1]);
    assert(w4.eo[1] == eo_flip(w3.eo[1], 0));
    assert(w4.ep[2] == w3.ep[2]);
    assert(w4.eo[2] == eo_flip(w3.eo[2], 0));
    assert(w4.ep[3] == w3.ep[3]);
    assert(w4.eo[3] == eo_flip(w3.eo[3], 0));
    assert(w4.ep[4] == w3.ep[5]);
    assert(w4.eo[4] == eo_flip(w3.eo[5], 0));
    assert(w4.ep[5] == w3.ep[6]);
    assert(w4.eo[5] == eo_flip(w3.eo[6], 0));
    assert(w4.ep[6] == w3.ep[7]);
    assert(w4.eo[6] == eo_flip(w3.eo[7], 0));
    assert(w4.ep[7] == w3.ep[4]);
    assert(w4.eo[7] == eo_flip(w3.eo[4], 0));
    assert(w4.ep[8] == w3.ep[8]);
    assert(w4.eo[8] == eo_flip(w3.eo[8], 0));
    assert(w4.ep[9] == w3.ep[9]);
    assert(w4.eo[9] == eo_flip(w3.eo[9], 0));
    assert(w4.ep[10] == w3.ep[10]);
    assert(w4.eo[10] == eo_flip(w3.eo[10], 0));
    assert(w4.ep[11] == w3.ep[11]);
    assert(w4.eo[11] == eo_flip(w3.eo[11], 0));
    assert(w4.cp[0] == v.cp[0]);
    assert(w4.co[0] == v.co[0]);
    assert(w4.cp[1] == v.cp[1]);
    assert(w4.co[1] == v.co[1]);
    assert(w4.cp[2] == v.cp[2]);
    assert(w4.co[2] == v.co[2]);
    assert(w4.cp[3] == v.cp[3]);
    assert(w4.co[3] == v.co[3]);
    assert(w4.cp[4] == v.cp[4]);
    assert(w4.co[4] == v.co[4]);
    assert(w4.cp[5] == v.cp[5]);
    assert(w4.co[5] == v.co[5]);
    assert(w4.cp[6] == v.cp[6]);
    assert(w4.co[6] == v.co[6]);
    assert(w4.cp[7] == v.cp[7]);
    assert(w4.co[7] == v.co[7]);
    assert(w4.ep[0] == v.ep[0]);
    assert(w4.eo[0] == v.eo[0]);
    assert(w4.ep[1] == v.ep[1]);
    assert(w4.eo[1] == v.eo[1]);
    assert(w4.ep[2] == v.ep[2]);
    assert(w4.eo[2] == v.eo[2]);
    assert(w4.ep[3] == v.ep[3]);
    assert(w4.eo[3] == v.eo[3]);
    assert(w4.ep[4] == v.ep[4]);
    assert(w4.eo[4] == v.eo[4]);
    assert(w4.ep[5] == v.ep[5]);
    assert(w4.eo[5] == v.eo[5]);
    assert(w4.ep[6] == v.ep[6]);
    assert(w4.eo[6] == v.eo[6]);
    assert(w4.ep[7] == v.ep[7]);
    assert(w4.eo[7] == v.eo[7]);
    assert(w4.ep[8] == v.ep[8]);
    assert(w4.eo[8] == v.eo[8]);
    assert(w4.ep[9] == v.ep[9]);
    assert(w4.eo[9] == v.eo[9]);
    assert(w4.ep[10] == v.ep[10]);
    assert(w4.eo[10] == v.eo[10]);
    assert(w4.ep[11] == v.ep[11]);
    assert(w4.eo[11] == v.eo[11]);
    assert(w4.cp =~= v.cp);
    assert(w4.co =~= v.co);
    assert(w4.ep =~= v.ep);
    assert(w4.eo =~= v.eo);
    assert(qt_n(v, Face::D, 4) == w4);
    assert(w4 =~= v);
}

#[verifier::rlimit(100)]
#[verifier::spinoff_prover]
proof fn lemma_qt_four_b(v: CubeV)
    requires
        valid(v),
    ensures
        qt_n(v, Face::B, 4) == v,
{
    reveal_with_fuel(qt_n, 5);
    let w1 = qt(v, Face::B);
    let w2 = qt(w1, Face::B);
    let w3 = qt(w2, Face::B);
    let w4 = qt(w3, Face::B);
    assert(w1.cp[0] == v.cp[0]);
    assert(w1.co[0] == (v.co[0] + 0) % 3);
    assert(w1.cp[1] == v.cp[1]);
    assert(w1.co[1] == (v.co[1] + 0) % 3);
    assert(w1.cp[2] == v.cp[3]);
    assert(w1.co[2] == (v.co[3] + 2) % 3);
    assert(w1.cp[3] == v.cp[7]);
    assert(w1.co[3] == (v.co[7] + 1) % 3);
    assert(w1.cp[4] == v.cp[4]);
    assert(w1.co[4] == (v.co[4] + 0) % 3);
    assert(w1.cp[5] == v.cp[5]);
    assert(w1.co[5] == (v.co[5] + 0) % 3);
    assert(w1.cp[6] == v.cp[2]);
    assert(w1.co[6] == (v.co[2] + 1) % 3);
    assert(w1.cp[7] == v.cp[6]);
    assert(w1.co[7] == (v.co[6] + 2) % 3);
    assert(w1.ep[0] == v.ep[0]);
    assert(w1.eo[0] == eo_flip(v.eo[0], 0));
    assert(w1.ep[1] == v.ep[1]);
    assert(w1.eo[1] == eo_flip(v.eo[1], 0));
    assert(w1.ep[2] == v.ep[2]);
    assert(w1.eo[2] == eo_flip(v.eo[2], 0));
    assert(w1.ep[3] == v.ep[11]);
    assert(w1.eo[3] == eo_flip(v.eo[11], 1));
    assert(w1.ep[4] == v.ep[4]);
    assert(w1.eo[4] == eo_flip(v.eo[4], 0));
    assert(w1.ep[5] == v.ep[5]);
    assert(w1.eo[5] == eo_flip(v.eo[5], 0));
    assert(w1.ep[6] == v.ep[6]);
    assert(w1.eo[6] == eo_flip(v.eo[6], 0));
    assert(w1.ep[7] == v.ep[10]);
    assert(w1.eo[7] == eo_flip(v.eo[10], 1));
    assert(w1.ep[8] == v.ep[8]);
    assert(w1.eo[8] == eo_flip(v.eo[8], 0));
    assert(w1.ep[9] == v.ep[9]);
    assert(w1.eo[9] == eo_flip(v.eo[9], 0));
    assert(w1.ep[10] == v.ep[3]);
    assert(w1.eo[10] == eo_flip(v.eo[3], 1));
    assert(w1.ep[11] == v.ep[7]);
    assert(w1.eo[11] == eo_flip(v.eo[7], 1));
    assert(w2.cp[0] == w1.cp[0]);
    assert(w2.co[0] == (w1.co[0] + 0) % 3);
    assert(w2.cp[1] == w1.cp[1]);
    assert(w2.co[1] == (w1.co[1] + 0) % 3);
    assert(w2.cp[2] == w1.cp[3]);
    assert(w2.co[2] == (w1.co[3] + 2) % 3);
    assert(w2.cp[3] == w1.cp[7]);
    assert(w2.co[3] == (w1.co[7] + 1) % 3);
    assert(w2.cp[4] == w1.cp[4]);
    assert(w2.co[4] == (w1.co[4] + 0) % 3);
    assert(w2.cp[5] == w1.cp[5]);
    assert(w2.co[5] == (w1.co[5] + 0) % 3);
    assert(w2.cp[6] == w1.cp[2]);
    assert(w2.co[6] == (w1.co[2] + 1) % 3);
    assert(w2.cp[7] == w1.cp[6]);
    assert(w2.co[7] == (w1.co[6] + 2) % 3);
    assert(w2.ep[0] == w1.ep[0]);
    assert(w2.eo[0] == eo_flip(w1.eo[0], 0));
    assert(w2.ep[1] == w1.ep[1]);
    assert(w2.eo[1] == eo_flip(w1.eo[1], 0));
    assert(w2.ep[2] == w1.ep[2]);
    assert(w2.eo[2] == eo_flip(w1.eo[2], 0));
    assert(w2.ep[3] == w1.ep[11]);
    assert(w2.eo[3] == eo_flip(w1.eo[11], 1));
    assert(w2.ep[4] == w1.ep[4]);
    assert(w2.eo[4] == eo_flip(w1.eo[4], 0));
    assert(w2.ep[5] == w1.ep[5]);
    assert(w2.eo[5] == eo_flip(w1.eo[5], 0));
    assert(w2.ep[6] == w1.ep[6]);
    assert(w2.eo[6] == eo_flip(w1.eo[6], 0));
    assert(w2.ep[7] == w1.ep[10]);
    assert(w2.eo[7] == eo_flip(w1.eo[10], 1));
    assert(w2.ep[8] == w1.ep[8]);
    assert(w2.eo[8] == eo_flip(w1.eo[8], 0));
    assert(w2.ep[9] == w1.ep[9]);
    assert(w2.eo[9] == eo_flip(w1.eo[9], 0));
    assert(w2.ep[10] == w1.ep[3]);
    assert(w2.eo[10] == eo_flip(w1.eo[3], 1));
    assert(w2.ep[11] == w1.ep[7]);
    assert(w2.eo[11] == eo_flip(w1.eo[7], 1));
    assert(w3.cp[0] == w2.cp[0]);
    assert(w3.co[0] == (w2.co[0] + 0) % 3);
    assert(w3.cp[1] == w2.cp[1]);
    assert(w3.co[1] == (w2.co[1] + 0) % 3);
    assert(w3.cp[2] == w2.cp[3]);
    assert(w3.co[2] == (w2.co[3] + 2) % 3);
    assert(w3.cp[3] == w2.cp[7]);
    assert(w3.co[3] == (w2.co[7] + 1) % 3);
    assert(w3.cp[4] == w2.cp[4]);
    assert(w3.co[4] == (w2.co[4] + 0) % 3);
    assert(w3.cp[5] == w2.cp[5]);
    assert(w3.co[5] == (w2.co[5] + 0) % 3);
    assert(w3.cp[6] == w2.cp[2]);
    assert(w3.co[6] == (w2.co[2] + 1) % 3);
    assert(w3.cp[7] == w2.cp[6]);
    assert(w3.co[7] == (w2.co[6] + 2) % 3);
    assert(w3.ep[0] == w2.ep[0]);
    assert(w3.eo[0] == eo_flip(w2.eo[0], 0));
    assert(w3.ep[1] == w2.ep[1]);
    assert(w3.eo[1] == eo_flip(w2.eo[1], 0));
    assert(w3.ep[2] == w2.ep[2]);
    assert(w3.eo[2] == eo_flip(w2.eo[2], 0));
    assert(w3.ep[3] == w2.ep[11]);
    assert(w3.eo[3] == eo_flip(w2.eo[11], 1));
    assert(w3.ep[4] == w2.ep[4]);
    assert(w3.eo[4] == eo_flip(w2.eo[4], 0));
    assert(w3.ep[5] == w2.ep[5]);
    assert(w3.eo[5] == eo_flip(w2.eo[5], 0));
    assert(w3.ep[6] == w2.ep[6]);
    assert(w3.eo[6] == eo_flip(w2.eo[6], 0));
    assert(w3.ep[7] == w2.ep[10]);
    assert(w3.eo[7] == eo_flip(w2.eo[10], 1));
    assert(w3.ep[8] == w2.ep[8]);
    assert(w3.eo[8] == eo_flip(w2.eo[8], 0));
    assert(w3.ep[9] == w2.ep[9]);
    assert(w3.eo[9] == eo_flip(w2.eo[9], 0));
    assert(w3.ep[10] == w2.ep[3]);
    assert(w3.eo[10] == eo_flip(w2.eo[3], 1));
    assert(w3.ep[11] == w2.ep[7]);
    assert(w3.eo[11] == eo_flip(w2.eo[7], 1));
    assert(w4.cp[0] == w3.cp[0]);
    assert(w4.co[0] == (w3.co[0] + 0) % 3);
    assert(w4.cp[1] == w3.cp[1]);
    assert(w4.co[1] == (w3.co[1] + 0) % 3);
    assert(w4.cp[2] == w3.cp[3]);
    assert(w4.co[2] == (w3.co[3] + 2) % 3);
    assert(w4.cp[3] == w3.cp[7]);
    assert(w4.co[3] == (w3.co[7] + 1) % 3);
    assert(w4.cp[4] == w3.cp[4]);
    assert(w4.co[4] == (w3.co[4] + 0) % 3);
    assert(w4.cp[5] == w3.cp[5]);
    assert(w4.co[5] == (w3.co[5] + 0) % 3);
    assert(w4.cp[6] == w3.cp[2]);
    assert(w4.co[6] == (w3.co[2] + 1) % 3);
    assert(w4.cp[7] == w3.cp[6]);
    assert(w4.co[7] == (w3.co[6] + 2) % 3);
    assert(w4.ep[0] == w3.ep[0]);
    assert(w4.eo[0] == eo_flip(w3.eo[0], 0));
    assert(w4.ep[1] == w3.ep[1]);
    assert(w4.eo[1] == eo_flip(w3.eo[1], 0));
    assert(w4.ep[2] == w3.ep[2]);
    assert(w4.eo[2] == eo_flip(w3.eo[2], 0));
    assert(w4.ep[3] == w3.ep[11]);
    assert(w4.eo[3] == eo_flip(w3.eo[11], 1));
    assert(w4.ep[4] == w3.ep[4]);
    assert(w4.eo[4] == eo_flip(w3.eo[4], 0));
    assert(w4.ep[5] == w3.ep[5]);
    assert(w4.eo[5] == eo_flip(w3.eo[5], 0));
    assert(w4.ep[6] == w3.ep[6]);
    assert(w4.eo[6] == eo_flip(w3.eo[6], 0));
    assert(w4.ep[7] == w3.ep[10]);
    assert(w4.eo[7] == eo_flip(w3.eo[10], 1));
    assert(w4.ep[8] == w3.ep[8]);
    assert(w4.eo[8] == eo_flip(w3.eo[8], 0));
    assert(w4.ep[9] == w3.ep[9]);
    assert(w4.eo[9] == eo_flip(w3.eo[9], 0));
    assert(w4.ep[10] == w3.ep[3]);
    assert(w4.eo[10] == eo_flip(w3.eo[3], 1));
    assert(w4.ep[11] == w3.ep[7]);
    assert(w4.eo[11] == eo_flip(w3.eo[7], 1));
    assert(w4.cp[0] == v.cp[0]);
    assert(w4.co[0] == v.co[0]);
    assert(w4.cp[1] == v.cp[1]);
    assert(w4.co[1] == v.co[1]);
    assert(w4.cp[2] == v.cp[2]);
    assert(w4.co[2] == v.co[2]);
    assert(w4.cp[3] == v.cp[3]);
    assert(w4.co[3] == v.co[3]);
    assert(w4.cp[4] == v.cp[4]);
    assert(w4.co[4] == v.co[4]);
    assert(w4.cp[5] == v.cp[5]);
    assert(w4.co[5] == v.co[5]);
    assert(w4.cp[6] == v.cp[6]);
    assert(w4.co[6] == v.co[6]);
    assert(w4.cp[7] == v.cp[7]);
    assert(w4.co[7] == v.co[7]);
    assert(w4.ep[0] == v.ep[0]);
    assert(w4.eo[0] == v.eo[0]);
    assert(w4.ep[1] == v.ep[1]);
    assert(w4.eo[1] == v.eo[1]);
    assert(w4.ep[2] == v.ep[2]);
    assert(w4.eo[2] == v.eo[2]);
    assert(w4.ep[3] == v.ep[3]);
    assert(w4.eo[3] == v.eo[3]);
    assert(w4.ep[4] == v.ep[4]);
    assert(w4.eo[4] == v.eo[4]);
    assert(w4.ep[5] == v.ep[5]);
    assert(w4.eo[5] == v.eo[5]);
    assert(w4.ep[6] == v.ep[6]);
    assert(w4.eo[6] == v.eo[6]);
    assert(w4.ep[7] == v.ep[7]);
    assert(w4.eo[7] == v.eo[7]);
    assert(w4.ep[8] == v.ep[8]);
    assert(w4.eo[8] == v.eo[8]);
    assert(w4.ep[9] == v.ep[9]);
    assert(w4.eo[9] == v.eo[9]);
    assert(w4.ep[10] == v.ep[10]);
    assert(w4.eo[10] == v.eo[10]);
    assert(w4.ep[11] == v.ep[11]);
    assert(w4.eo[11] == v.eo[11]);
    assert(w4.cp =~= v.cp);
    assert(w4.co =~= v.co);
    assert(w4.ep =~= v.ep);
    assert(w4.eo =~= v.eo);
    assert(qt_n(v, Face::B, 4) == w4);
    assert(w4 =~= v);
}

#[verifier::rlimit(100)]
#[verifier::spinoff_prover]
proof fn lemma_qt_four_l(v: CubeV)
    requires
        valid(v),
    ensures
        qt_n(v, Face::L, 4) == v,
{
    reveal_with_fuel(qt_n, 5);
    let w1 = qt(v, Face::L);
    let w2 = qt(w1, Face::L);
    let w3 = qt(w2, Face::L);
    let w4 = qt(w3, Face::L);
    assert(w1.cp[0] == v.cp[0]);
    assert(w1.co[0] == (v.co[0] + 0) % 3);
    assert(w1.cp[1] == v.cp[2]);
    assert(w1.co[1] == (v.co[2] + 2) % 3);
    assert(w1.cp[2] == v.cp[6]);
    assert(w1.co[2] == (v.co[6] + 1) % 3);
    assert(w1.cp[3] == v.cp[3]);
    assert(w1.co[3] == (v.co[3] + 0) % 3);
    assert(w1.cp[4] == v.cp[4]);
    assert(w1.co[4] == (v.co[4] + 0) % 3);
    assert(w1.cp[5] == v.cp[1]);
    assert(w1.co[5] == (v.co[1] + 1) % 3);
    assert(w1.cp[6] == v.cp[5]);
    assert(w1.co[6] == (v.co[5] + 2) % 3);
    assert(w1.cp[7] == v.cp[7]);
    assert(w1.co[7] == (v.co[7] + 0) % 3);
    assert(w1.ep[0] == v.ep[0]);
    assert(w1.eo[0] == eo_flip(v.eo[0], 0));
    assert(w1.ep[1] == v.ep[1]);
    assert(w1.eo[1] == eo_flip(v.eo[1], 0));
    assert(w1.ep[2] == v.ep[10]);
    assert(w1.eo[2] == eo_flip(v.eo[10], 0));
    assert(w1.ep[3] == v.ep[3]);
    assert(w1.eo[3] == eo_flip(v.eo[3], 0));
    assert(w1.ep[4] == v.ep[4]);
    assert(w1.eo[4] == eo_flip(v.eo[4], 0));
    assert(w1.ep[5] == v.ep[5]);
    assert(w1.eo[5] == eo_flip(v.eo[5], 0));
    assert(w1.ep[6] == v.ep[9]);
    assert(w1.eo[6] == eo_flip(v.eo[9], 0));
    assert(w1.ep[7] == v.ep[7]);
    assert(w1.eo[7] == eo_flip(v.eo[7], 0));
    assert(w1.ep[8] == v.ep[8]);
    assert(w1.eo[8] == eo_flip(v.eo[8], 0));
    assert(w1.ep[9] == v.ep[2]);
    assert(w1.eo[9] == eo_flip(v.eo[2], 0));
    assert(w1.ep[10] == v.ep[6]);
    assert(w1.eo[10] == eo_flip(v.eo[6], 0));
    assert(w1.ep[11] == v.ep[11]);
    assert(w1.eo[11] == eo_flip(v.eo[11], 0));
    assert(w2.cp[0] == w1.cp[0]);
    assert(w2.co[0] == (w1.co[0] + 0) % 3);
    assert(w2.cp[1] == w1.cp[2]);
    assert(w2.co[1] == (w1.co[2] + 2) % 3);
    assert(w2.cp[2] == w1.cp[6]);
    assert(w2.co[2] == (w1.co[6] + 1) % 3);
    assert(w2.cp[3] == w1.cp[3]);
    assert(w2.co[3] == (w1.co[3] + 0) % 3);
    assert(w2.cp[4] == w1.cp[4]);
    assert(w2.co[4] == (w1.co[4] + 0) % 3);
    assert(w2.cp[5] == w1.cp[1]);
    assert(w2.co[5] == (w1.co[1] + 1) % 3);
    assert(w2.cp[6] == w1.cp[5]);
    assert(w2.co[6] == (w1.co[5] + 2) % 3);
    assert(w2.cp[7] == w1.cp[7]);
    assert(w2.co[7] == (w1.co[7] + 0) % 3);
    assert(w2.ep[0] == w1.ep[0]);
    assert(w2.eo[0] == eo_flip(w1.eo[0], 0));
    assert(w2.ep[1] == w1.ep[1]);
    assert(w2.eo[1] == eo_flip(w1.eo[1], 0));
    assert(w2.ep[2] == w1.ep[10]);
    assert(w2.eo[2] == eo_flip(w1.eo[10], 0));
    assert(w2.ep[3] == w1.ep[3]);
    assert(w2.eo[3] == eo_flip(w1.eo[3], 0));
    assert(w2.ep[4] == w1.ep[4]);
    assert(w2.eo[4] == eo_flip(w1.eo[4], 0));
    assert(w2.ep[5] == w1.ep[5]);
    assert(w2.eo[5] == eo_flip(w1.eo[5], 0));
    assert(w2.ep[6] == w1.ep[9]);
    assert(w2.eo[6] == eo_flip(w1.eo[9], 0));
    assert(w2.ep[7] == w1.ep[7]);
    assert(w2.eo[7] == eo_flip(w1.eo[7], 0));
    assert(w2.ep[8] == w1.ep[8]);
    assert(w2.eo[8] == eo_flip(w1.eo[8], 0));
    assert(w2.ep[9] == w1.ep[2]);
    assert(w2.eo[9] == eo_flip(w1.eo[2], 0));
    assert(w2.ep[10] == w1.ep[6]);
    assert(w2.eo[10] == eo_flip(w1.eo[6], 0));
    assert(w2.ep[11] == w1.ep[11]);
    assert(w2.eo[11] == eo_flip(w1.eo[11], 0));
    assert(w3.cp[0] == w2.cp[0]);
    assert(w3.co[0] == (w2.co[0] + 0) % 3);
    assert(w3.cp[1] == w2.cp[2]);
    assert(w3.co[1] == (w2.co[2] + 2) % 3);
    assert(w3.cp[2] == w2.cp[6]);
    assert(w3.co[2] == (w2.co[6] + 1) % 3);
    assert(w3.cp[3] == w2.cp[3]);
    assert(w3.co[3] == (w2.co[3] + 0) % 3);
    assert(w3.cp[4] == w2.cp[4]);
    assert(w3.co[4] == (w2.co[4] + 0) % 3);
    assert(w3.cp[5] == w2.cp[1]);
    assert(w3.co[5] == (w2.co[1] + 1) % 3);
    assert(w3.cp[6] == w2.cp[5]);
    assert(w3.co[6] == (w2.co[5] + 2) % 3);
    assert(w3.cp[7] == w2.cp[7]);
    assert(w3.co[7] == (w2.co[7] + 0) % 3);
    assert(w3.ep[0] == w2.ep[0]);
    assert(w3.eo[0] == eo_flip(w2.eo[0], 0));
    assert(w3.ep[1] == w2.ep[1]);
    assert(w3.eo[1] == eo_flip(w2.eo[1], 0));
    assert(w3.ep[2] == w2.ep[10]);
    assert(w3.eo[2] == eo_flip(w2.eo[10], 0));
    assert(w3.ep[3] == w2.ep[3]);
    assert(w3.eo[3] == eo_flip(w2.eo[3], 0));
    assert(w3.ep[4] == w2.ep[4]);
    assert(w3.eo[4] == eo_flip(w2.eo[4], 0));
    assert(w3.ep[5] == w2.ep[5]);
    assert(w3.eo[5] == eo_flip(w2.eo[5], 0));
    assert(w3.ep[6] == w2.ep[9]);
    assert(w3.eo[6] == eo_flip(w2.eo[9], 0));
    assert(w3.ep[7] == w2.ep[7]);
    assert(w3.eo[7] == eo_flip(w2.eo[7], 0));
    assert(w3.ep[8] == w2.ep[8]);
    assert(w3.eo[8] == eo_flip(w2.eo[8], 0));
    assert(w3.ep[9] == w2.ep[2]);
    assert(w3.eo[9] == eo_flip(w2.eo[2], 0));
    assert(w3.ep[10] == w2.ep[6]);
    assert(w3.eo[10] == eo_flip(w2.eo[6], 0));
    assert(w3.ep[11] == w2.ep[11]);
    assert(w3.eo[11] == eo_flip(w2.eo[11], 0));
    assert(w4.cp[0] == w3.cp[0]);
    assert(w4.co[0] == (w3.co[0] + 0) % 3);
    assert(w4.cp[1] == w3.cp[2]);
    assert(w4.co[1] == (w3.co[2] + 2) % 3);
    assert(w4.cp[2] == w3.cp[6]);
    assert(w4.co[2] == (w3.co[6] + 1) % 3);
    assert(w4.cp[3] == w3.cp[3]);
    assert(w4.co[3] == (w3.co[3] + 0) % 3);
    assert(w4.cp[4] == w3.cp[4]);
    assert(w4.co[4] == (w3.co[4] + 0) % 3);
    assert(w4.cp[5] == w3.cp[1]);
    assert(w4.co[5] == (w3.co[1] + 1) % 3);
    assert(w4.cp[6] == w3.cp[5]);
    assert(w4.co[6] == (w3.co[5] + 2) % 3);
    assert(w4.cp[7] == w3.cp[7]);
    assert(w4.co[7] == (w3.co[7] + 0) % 3);
    assert(w4.ep[0] == w3.ep[0]);
    assert(w4.eo[0] == eo_flip(w3.eo[0], 0));
    assert(w4.ep[1] == w3.ep[1]);
    assert(w4.eo[1] == eo_flip(w3.eo[1], 0));
    assert(w4.ep[2] == w3.ep[10]);
    assert(w4.eo[2] == eo_flip(w3.eo[10], 0));
    assert(w4.ep[3] == w3.ep[3]);
    assert(w4.eo[3] == eo_flip(w3.eo[3], 0));
    assert(w4.ep[4] == w3.ep[4]);
    assert(w4.eo[4] == eo_flip(w3.eo[4], 0));
    assert(w4.ep[5] == w3.ep[5]);
    assert(w4.eo[5] == eo_flip(w3.eo[5], 0));
    assert(w4.ep[6] == w3.ep[9]);
    assert(w4.eo[6] == eo_flip(w3.eo[9], 0));
    assert(w4.ep[7] == w3.ep[7]);
    assert(w4.eo[7] == eo_flip(w3.eo[7], 0));
    assert(w4.ep[8] == w3.ep[8]);
    assert(w4.eo[8] == eo_flip(w3.eo[8], 0));
    assert(w4.ep[9] == w3.ep[2]);
    assert(w4.eo[9] == eo_flip(w3.eo[2], 0));
    assert(w4.ep[10] == w3.ep[6]);
    assert(w4.eo[10] == eo_flip(w3.eo[6], 0));
    assert(w4.ep[11] == w3.ep[11]);
    assert(w4.eo[11] == eo_flip(w3.eo[11], 0));
    assert(w4.cp[0] == v.cp[0]);
    assert(w4.co[0] == v.co[0]);
    assert(w4.cp[1] == v.cp[1]);
    assert(w4.co[1] == v.co[1]);
    assert(w4.cp[2] == v.cp[2]);
    assert(w4.co[2] == v.co[2]);
    assert(w4.cp[3] == v.cp[3]);
    assert(w4.co[3] == v.co[3]);
    assert(w4.cp[4] == v.cp[4]);
    assert(w4.co[4] == v.co[4]);
    assert(w4.cp[5] == v.cp[5]);
    assert(w4.co[5] == v.co[5]);
    assert(w4.cp[6] == v.cp[6]);
    assert(w4.co[6] == v.co[6]);
    assert(w4.cp[7] == v.cp[7]);
    assert(w4.co[7] == v.co[7]);
    assert(w4.ep[0] == v.ep[0]);
    assert(w4.eo[0] == v.eo[0]);
    assert(w4.ep[1] == v.ep[1]);
    assert(w4.eo[1] == v.eo[1]);
    assert(w4.ep[2] == v.ep[2]);
    assert(w4.eo[2] == v.eo[2]);
    assert(w4.ep[3] == v.ep[3]);
    assert(w4.eo[3] == v.eo[3]);
    assert(w4.ep[4] == v.ep[4]);
    assert(w4.eo[4] == v.eo[4]);
    assert(w4.ep[5] == v.ep[5]);
    assert(w4.eo[5] == v.eo[5]);
    assert(w4.ep[6] == v.ep[6]);
    assert(w4.eo[6] == v.eo[6]);
    assert(w4.ep[7] == v.ep[7]);
    assert(w4.eo[7] == v.eo[7]);
    assert(w4.ep[8] == v.ep[8]);
    assert(w4.eo[8] == v.eo[8]);
    assert(w4.ep[9] == v.ep[9]);
    assert(w4.eo[9] == v.eo[9]);
    assert(w4.ep[10] == v.ep[10]);
    assert(w4.eo[10] == v.eo[10]);
    assert(w4.ep[11] == v.ep[11]);
    assert(w4.eo[11] == v.eo[11]);
    assert(w4.cp =~= v.cp);
    assert(w4.co =~= v.co);
    assert(w4.ep =~= v.ep);
    assert(w4.eo =~= v.eo);
    assert(qt_n(v, Face::L, 4) == w4);
    assert(w4 =~= v);
}

/// Iterated quarter turns compose additively.
pub proof fn lemma_qt_n_add(v: CubeV, f: Face, a: int, b: int)
    requires
        a >= 0,
        b >= 0,
    ensures
        qt_n(qt_n(v, f, a), f, b) == qt_n(v, f, a + b),
    decreases b,
{
    if b > 0 {
        lemma_qt_n_add(v, f, a, b - 1);
    }
}

/// Four quarter turns of one face leave every solvable state unchanged.
pub proof fn lemma_qt_four(v: CubeV, f: Face)
    requires
        valid(v),
    ensures
        qt_n(v, f, 4) == v,
{
    match f {
        Face::U => lemma_qt_four_u(v),
        Face::R => lemma_qt_four_r(v),
        Face::F => lemma_qt_four_f(v),
        Face::D => lemma_qt_four_d(v),
        Face::B => lemma_qt_four_b(v),
        Face::L => lemma_qt_four_l(v),
    }
}

/// Applying a move of magnitude m four times over returns the original
/// solvable state.
pub proof fn lemma_move_four_times(v: CubeV, f: Face, m: int)
    requires
        valid(v),
        1 <= m <= 3,
    ensures
        qt_n(qt_n(qt_n(qt_n(v, f, m), f, m), f, m), f, m) == v,
{
    lemma_qt_n_add(v, f, m, m);
    lemma_qt_n_add(v, f, 2 * m, m);
    lemma_qt_n_add(v, f, 3 * m, m);
    lemma_qt_four(v, f);
    if m == 2 {
        lemma_qt_n_add(v, f, 4, 4);
    }
    if m == 3 {
        lemma_qt_n_add(v, f, 4, 4);
        lemma_qt_n_add(v, f, 8, 4);
    }
}

/// A move of magnitude m is undone by one of magnitude 4 - m on the same
/// face.
pub proof fn lemma_move_then_inverse(v: CubeV, f: Face, m: int)
    requires
        valid(v),
        1 <= m <= 3,
    ensures
        qt_n(qt_n(v, f, m), f, 4 - m) == v,
{
    lemma_qt_n_add(v, f, m, 4 - m);
    lemma_qt_four(v, f);
}

/// Two single turns make a half turn; three make a three-quarter turn.
pub proof fn lemma_single_turns_compose(v: CubeV, f: Face)
    ensures
        qt_n(qt_n(v, f, 1), f, 1) == qt_n(v, f, 2),
        qt_n(qt_n(qt_n(v, f, 1), f, 1), f, 1) == qt_n(v, f, 3),
{
    lemma_qt_n_add(v, f, 1, 1);
    lemma_qt_n_add(v, f, 2, 1);
}

} // verus!
