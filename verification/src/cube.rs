//! The state engine: cube states as a corner permutation, a corner
//! orientation vector, an edge permutation and an edge orientation vector,
//! together with the six quarter-turn generators and the solvability
//! invariants.
use crate::permutation::{
    gt_ind, inversions, inversions_upto, is_permutation, lemma_complete_iff_distinct,
    row_inversions, seq_sum,
};
use vstd::prelude::*;

verus! {

/// The faces on a 3x3x3 cube.
#[derive(Clone, Copy, Debug, PartialEq, Eq, Structural)]
pub enum Face {
    U,
    R,
    F,
    D,
    B,
    L,
}

#[derive(Clone, Copy, PartialEq, Eq, Structural)]
enum Slice {
    E,
    M,
    S,
}

/// The rotation axis of a face: faces sharing an axis are opposite.
pub open spec fn face_axis(f: Face) -> int {
    match f {
        Face::U => 0,
        Face::D => 0,
        Face::R => 1,
        Face::L => 1,
        Face::F => 2,
        Face::B => 2,
    }
}

/// The fixed index of a face, used to address table columns.
pub open spec fn face_index(f: Face) -> int {
    match f {
        Face::U => 0,
        Face::R => 1,
        Face::F => 2,
        Face::D => 3,
        Face::B => 4,
        Face::L => 5,
    }
}

spec fn slice_of(f: Face) -> Slice {
    match f {
        Face::U => Slice::E,
        Face::D => Slice::E,
        Face::R => Slice::M,
        Face::L => Slice::M,
        Face::F => Slice::S,
        Face::B => Slice::S,
    }
}

impl Face {
    fn slice(&self) -> (s: Slice)
        ensures
            s == slice_of(*self),
    {
        match self {
            Face::U => Slice::E,
            Face::D => Slice::E,
            Face::R => Slice::M,
            Face::L => Slice::M,
            Face::F => Slice::S,
            Face::B => Slice::S,
        }
    }

    /// Test if `face` lies on the same rotation axis as `self`.
    pub fn is_opposite(&self, face: Face) -> (r: bool)
        ensures
            r == (face_axis(*self) == face_axis(face)),
    {
        self.slice() == face.slice()
    }

    /// The fixed index of the face.
    pub fn index(&self) -> (i: usize)
        ensures
            i as int == face_index(*self),
    {
        match self {
            Face::U => 0,
            Face::R => 1,
            Face::F => 2,
            Face::D => 3,
            Face::B => 4,
            Face::L => 5,
        }
    }
}

/// A move on a 3x3x3 cube: a face together with how many quarter turns
/// (1, 2 or 3) to give it.
#[derive(Clone, Copy, Debug)]
pub struct Move(pub Face, pub u8);

/// Positions with a fixed rank: the index of the position in the identity
/// ordering. Permutations are stated and compared through ranks.
pub trait Ranked: Sized {
    spec fn rank_spec(self) -> int;

    fn rank(self) -> (r: usize)
        ensures
            r as int == self.rank_spec(),
    ;
}

/// The ranks of a whole sequence of positions.
pub open spec fn ranks<P: Ranked>(s: Seq<P>) -> Seq<int> {
    Seq::new(s.len(), |i: int| s[i].rank_spec())
}

/// The corners on a 3x3x3 cube.
#[derive(Clone, Copy, Debug, PartialEq, Eq, PartialOrd, Structural)]
pub enum Corner {
    URF,
    UFL,
    ULB,
    UBR,
    DFR,
    DLF,
    DBL,
    DRB,
}

impl Ranked for Corner {
    open spec fn rank_spec(self) -> int {
        match self {
            Corner::URF => 0,
            Corner::UFL => 1,
            Corner::ULB => 2,
            Corner::UBR => 3,
            Corner::DFR => 4,
            Corner::DLF => 5,
            Corner::DBL => 6,
            Corner::DRB => 7,
        }
    }

    fn rank(self) -> (r: usize) {
        match self {
            Corner::URF => 0,
            Corner::UFL => 1,
            Corner::ULB => 2,
            Corner::UBR => 3,
            Corner::DFR => 4,
            Corner::DLF => 5,
            Corner::DBL => 6,
            Corner::DRB => 7,
        }
    }
}

impl Corner {
    /// The corner of a given rank.
    pub fn from_index(val: usize) -> (c: Corner)
        requires
            val < 8,
        ensures
            c.rank_spec() == val as int,
    {
        match val {
            0 => Corner::URF,
            1 => Corner::UFL,
            2 => Corner::ULB,
            3 => Corner::UBR,
            4 => Corner::DFR,
            5 => Corner::DLF,
            6 => Corner::DBL,
            _ => Corner::DRB,
        }
    }
}

/// The edges on a 3x3x3 cube.
#[derive(Clone, Copy, Debug, PartialEq, Eq, PartialOrd, Structural)]
pub enum Edge {
    UR,
    UF,
    UL,
    UB,
    DR,
    DF,
    DL,
    DB,
    FR,
    FL,
    BL,
    BR,
}

impl Ranked for Edge {
    open spec fn rank_spec(self) -> int {
        match self {
            Edge::UR => 0,
            Edge::UF => 1,
            Edge::UL => 2,
            Edge::UB => 3,
            Edge::DR => 4,
            Edge::DF => 5,
            Edge::DL => 6,
            Edge::DB => 7,
            Edge::FR => 8,
            Edge::FL => 9,
            Edge::BL => 10,
            Edge::BR => 11,
        }
    }

    fn rank(self) -> (r: usize) {
        match self {
            Edge::UR => 0,
            Edge::UF => 1,
            Edge::UL => 2,
            Edge::UB => 3,
            Edge::DR => 4,
            Edge::DF => 5,
            Edge::DL => 6,
            Edge::DB => 7,
            Edge::FR => 8,
            Edge::FL => 9,
            Edge::BL => 10,
            Edge::BR => 11,
        }
    }
}

impl Edge {
    /// The edge of a given rank.
    pub fn from_index(val: usize) -> (e: Edge)
        requires
            val < 12,
        ensures
            e.rank_spec() == val as int,
    {
        match val {
            0 => Edge::UR,
            1 => Edge::UF,
            2 => Edge::UL,
            3 => Edge::UB,
            4 => Edge::DR,
            5 => Edge::DF,
            6 => Edge::DL,
            7 => Edge::DB,
            8 => Edge::FR,
            9 => Edge::FL,
            10 => Edge::BL,
            _ => Edge::BR,
        }
    }
}

/// An error for the different invalid cube states.
#[derive(Debug, PartialEq, Eq, Structural)]
pub enum CubeStateErr {
    ErrEO,
    ErrCO,
    ErrEP,
    ErrCP,
    ErrParity,
}

/// Number of corners on a 3x3x3 cube.
pub const NUM_CORNERS: usize = 8;

/// Number of edges on a 3x3x3 cube.
pub const NUM_EDGES: usize = 12;

/// The mathematical value of a cube state: the two permutations and the
/// two orientation vectors, as sequences of plain integers.
#[verifier::ext_equal]
pub ghost struct CubeV {
    pub cp: Seq<int>,
    pub co: Seq<int>,
    pub ep: Seq<int>,
    pub eo: Seq<int>,
}

/// The four sequences have the lengths of the physical cube.
pub open spec fn wf(v: CubeV) -> bool {
    &&& v.cp.len() == 8
    &&& v.co.len() == 8
    &&& v.ep.len() == 12
    &&& v.eo.len() == 12
}

/// The abstract state determined by raw permutation and orientation data.
pub open spec fn view_of(cp: Seq<Corner>, co: Seq<u8>, ep: Seq<Edge>, eo: Seq<u8>) -> CubeV {
    CubeV {
        cp: ranks(cp),
        co: co.map_values(|x: u8| x as int),
        ep: ranks(ep),
        eo: eo.map_values(|x: u8| x as int),
    }
}

/// The corner permutation is a bijection.
pub open spec fn cp_ok(v: CubeV) -> bool {
    is_permutation(v.cp, 8)
}

/// The edge permutation is a bijection.
pub open spec fn ep_ok(v: CubeV) -> bool {
    is_permutation(v.ep, 12)
}

/// Every corner orientation is a twist in {0, 1, 2} and the total twist
/// is a multiple of 3.
pub open spec fn co_ok(v: CubeV) -> bool {
    &&& v.co.len() == 8
    &&& forall|i: int| 0 <= i < 8 ==> 0 <= #[trigger] v.co[i] <= 2
    &&& seq_sum(v.co) % 3 == 0
}

/// Every edge orientation is a flip in {0, 1} and the total flip count
/// is even.
pub open spec fn eo_ok(v: CubeV) -> bool {
    &&& v.eo.len() == 12
    &&& forall|i: int| 0 <= i < 12 ==> 0 <= #[trigger] v.eo[i] <= 1
    &&& seq_sum(v.eo) % 2 == 0
}

/// Corner permutation parity equals edge permutation parity.
pub open spec fn parity_ok(v: CubeV) -> bool {
    inversions(v.cp) % 2 == inversions(v.ep) % 2
}

/// The state is reachable from solved by legal face turns: both
/// placements are bijections, both orientation vectors are in range and
/// balanced, and the two permutation parities agree.
pub open spec fn valid(v: CubeV) -> bool {
    &&& wf(v)
    &&& cp_ok(v)
    &&& co_ok(v)
    &&& ep_ok(v)
    &&& eo_ok(v)
    &&& parity_ok(v)
}

/// The solved state: both permutations are the identity and every
/// orientation is zero.
pub open spec fn solved_state() -> CubeV {
    CubeV {
        cp: seq![0, 1, 2, 3, 4, 5, 6, 7],
        co: seq![0, 0, 0, 0, 0, 0, 0, 0],
        ep: seq![0, 1, 2, 3, 4, 5, 6, 7, 8, 9, 10, 11],
        eo: seq![0, 0, 0, 0, 0, 0, 0, 0, 0, 0, 0, 0],
    }
}

/// Where each corner slot draws its content from under one quarter turn
/// of the face.
pub open spec fn mv_cp(f: Face) -> Seq<int> {
    match f {
        Face::U => seq![3, 0, 1, 2, 4, 5, 6, 7],
        Face::R => seq![4, 1, 2, 0, 7, 5, 6, 3],
        Face::F => seq![1, 5, 2, 3, 0, 4, 6, 7],
        Face::D => seq![0, 1, 2, 3, 5, 6, 7, 4],
        Face::B => seq![0, 1, 3, 7, 4, 5, 2, 6],
        Face::L => seq![0, 2, 6, 3, 4, 1, 5, 7],
    }
}

/// The twist added to the corner moved out of each slot.
pub open spec fn mv_co(f: Face) -> Seq<int> {
    match f {
        Face::U => seq![0, 0, 0, 0, 0, 0, 0, 0],
        Face::R => seq![2, 0, 0, 1, 1, 0, 0, 2],
        Face::F => seq![1, 2, 0, 0, 2, 1, 0, 0],
        Face::D => seq![0, 0, 0, 0, 0, 0, 0, 0],
        Face::B => seq![0, 0, 1, 2, 0, 0, 2, 1],
        Face::L => seq![0, 1, 2, 0, 0, 2, 1, 0],
    }
}

/// Where each edge slot draws its content from under one quarter turn of
/// the face.
pub open spec fn mv_ep(f: Face) -> Seq<int> {
    match f {
        Face::U => seq![3, 0, 1, 2, 4, 5, 6, 7, 8, 9, 10, 11],
        Face::R => seq![8, 1, 2, 3, 11, 5, 6, 7, 4, 9, 10, 0],
        Face::F => seq![0, 9, 2, 3, 4, 8, 6, 7, 1, 5, 10, 11],
        Face::D => seq![0, 1, 2, 3, 5, 6, 7, 4, 8, 9, 10, 11],
        Face::B => seq![0, 1, 2, 11, 4, 5, 6, 10, 8, 9, 3, 7],
        Face::L => seq![0, 1, 10, 3, 4, 5, 9, 7, 8, 2, 6, 11],
    }
}

/// The flip added to the edge arriving in each slot.
pub open spec fn mv_eo(f: Face) -> Seq<int> {
    match f {
        Face::U => seq![0, 0, 0, 0, 0, 0, 0, 0, 0, 0, 0, 0],
        Face::R => seq![0, 0, 0, 0, 0, 0, 0, 0, 0, 0, 0, 0],
        Face::F => seq![0, 1, 0, 0, 0, 1, 0, 0, 1, 1, 0, 0],
        Face::D => seq![0, 0, 0, 0, 0, 0, 0, 0, 0, 0, 0, 0],
        Face::B => seq![0, 0, 0, 1, 0, 0, 0, 1, 0, 0, 1, 1],
        Face::L => seq![0, 0, 0, 0, 0, 0, 0, 0, 0, 0, 0, 0],
    }
}

/// Adding a one-flip toggles the low bit of an orientation value.
pub open spec fn eo_flip(e: int, d: int) -> int {
    if d == 0 {
        e
    } else if e % 2 == 0 {
        e + 1
    } else {
        e - 1
    }
}

/// One quarter clockwise turn of face `f` applied to state `v`.
pub open spec fn qt(v: CubeV, f: Face) -> CubeV {
    CubeV {
        cp: Seq::new(8, |i: int| v.cp[mv_cp(f)[i]]),
        co: Seq::new(8, |i: int| (v.co[mv_cp(f)[i]] + mv_co(f)[mv_cp(f)[i]]) % 3),
        ep: Seq::new(12, |i: int| v.ep[mv_ep(f)[i]]),
        eo: Seq::new(12, |i: int| eo_flip(v.eo[mv_ep(f)[i]], mv_eo(f)[i])),
    }
}

/// `n` quarter turns of face `f` in sequence.
pub open spec fn qt_n(v: CubeV, f: Face, n: int) -> CubeV
    decreases n,
{
    if n <= 0 {
        v
    } else {
        qt(qt_n(v, f, n - 1), f)
    }
}

/// The slot sources and orientation deltas of one quarter turn, in
/// executable form.
struct MovePerm {
    cp: [usize; 8],
    co: [u8; 8],
    ep: [usize; 12],
    eo: [u8; 12],
}

spec fn move_perm_matches(mp: MovePerm, f: Face) -> bool {
    &&& forall|i: int|
        0 <= i < 8 ==> (#[trigger] mp.cp@[i]) as int == mv_cp(f)[i] && mp.cp@[i] < 8
    &&& forall|i: int| 0 <= i < 8 ==> (#[trigger] mp.co@[i]) as int == mv_co(f)[i]
    &&& forall|i: int|
        0 <= i < 12 ==> (#[trigger] mp.ep@[i]) as int == mv_ep(f)[i] && mp.ep@[i] < 12
    &&& forall|i: int| 0 <= i < 12 ==> (#[trigger] mp.eo@[i]) as int == mv_eo(f)[i] && mp.eo@[i] <= 1
}

fn move_perm(f: Face) -> (mp: MovePerm)
    ensures
        move_perm_matches(mp, f),
{
    match f {
        Face::U => MovePerm {
            cp: [3, 0, 1, 2, 4, 5, 6, 7],
            co: [0; 8],
            ep: [3, 0, 1, 2, 4, 5, 6, 7, 8, 9, 10, 11],
            eo: [0; 12],
        },
        Face::R => MovePerm {
            cp: [4, 1, 2, 0, 7, 5, 6, 3],
            co: [2, 0, 0, 1, 1, 0, 0, 2],
            ep: [8, 1, 2, 3, 11, 5, 6, 7, 4, 9, 10, 0],
            eo: [0; 12],
        },
        Face::F => MovePerm {
            cp: [1, 5, 2, 3, 0, 4, 6, 7],
            co: [1, 2, 0, 0, 2, 1, 0, 0],
            ep: [0, 9, 2, 3, 4, 8, 6, 7, 1, 5, 10, 11],
            eo: [0, 1, 0, 0, 0, 1, 0, 0, 1, 1, 0, 0],
        },
        Face::D => MovePerm {
            cp: [0, 1, 2, 3, 5, 6, 7, 4],
            co: [0; 8],
            ep: [0, 1, 2, 3, 5, 6, 7, 4, 8, 9, 10, 11],
            eo: [0; 12],
        },
        Face::B => MovePerm {
            cp: [0, 1, 3, 7, 4, 5, 2, 6],
            co: [0, 0, 1, 2, 0, 0, 2, 1],
            ep: [0, 1, 2, 11, 4, 5, 6, 10, 8, 9, 3, 7],
            eo: [0, 0, 0, 1, 0, 0, 0, 1, 0, 0, 1, 1],
        },
        Face::L => MovePerm {
            cp: [0, 2, 6, 3, 4, 1, 5, 7],
            co: [0, 1, 2, 0, 0, 2, 1, 0],
            ep: [0, 1, 10, 3, 4, 5, 9, 7, 8, 2, 6, 11],
            eo: [0; 12],
        },
    }
}

pub(crate) proof fn lemma_xor_flip(e: u8, d: u8)
    requires
        d <= 1,
    ensures
        (e ^ d) as int == eo_flip(e as int, d as int),
{
    assert(e ^ 0 == e) by (bit_vector);
    assert(e % 2 == 0 ==> e ^ 1 == e + 1) by (bit_vector);
    assert(e % 2 != 0 ==> e ^ 1 == e - 1) by (bit_vector);
}

/// Models a 3x3x3 cube, separating permutation and orientation.
#[derive(Clone, Copy, Debug, PartialEq, Eq)]
pub struct Cube {
    pub cp: [Corner; NUM_CORNERS],
    pub co: [u8; NUM_CORNERS],
    pub ep: [Edge; NUM_EDGES],
    pub eo: [u8; NUM_EDGES],
}

impl View for Cube {
    type V = CubeV;

    open spec fn view(&self) -> CubeV {
        view_of(self.cp@, self.co@, self.ep@, self.eo@)
    }
}

impl Cube {
    /// Creates a new `Cube` with the specified permutations and
    /// orientations, which must form a solvable state.
    pub fn new(
        cp: [Corner; NUM_CORNERS],
        co: [u8; NUM_CORNERS],
        ep: [Edge; NUM_EDGES],
        eo: [u8; NUM_EDGES],
    ) -> (c: Cube)
        requires
            valid(view_of(cp@, co@, ep@, eo@)),
        ensures
            c.cp == cp && c.co == co && c.ep == ep && c.eo == eo,
            c@ == view_of(cp@, co@, ep@, eo@),
            valid(c@),
    {
        let cube = Cube { cp, co, ep, eo };
        cube.verify().unwrap();
        cube
    }

    /// Creates a new `Cube` with the specified permutations and
    /// orientations. This function does not check that the `Cube` is in a
    /// solvable state.
    pub fn new_unchecked(
        cp: [Corner; NUM_CORNERS],
        co: [u8; NUM_CORNERS],
        ep: [Edge; NUM_EDGES],
        eo: [u8; NUM_EDGES],
    ) -> (c: Cube)
        ensures
            c.cp == cp && c.co == co && c.ep == ep && c.eo == eo,
            c@ == view_of(cp@, co@, ep@, eo@),
    {
        Cube { cp, co, ep, eo }
    }

    /// Creates a new `Cube` in the solved state.
    pub fn solved() -> (c: Cube)
        ensures
            c@ == solved_state(),
            valid(c@),
    {
        let cp = [
            Corner::URF,
            Corner::UFL,
            Corner::ULB,
            Corner::UBR,
            Corner::DFR,
            Corner::DLF,
            Corner::DBL,
            Corner::DRB,
        ];
        let co = [0; NUM_CORNERS];
        let ep = [
            Edge::UR,
            Edge::UF,
            Edge::UL,
            Edge::UB,
            Edge::DR,
            Edge::DF,
            Edge::DL,
            Edge::DB,
            Edge::FR,
            Edge::FL,
            Edge::BL,
            Edge::BR,
        ];
        let eo = [0; NUM_EDGES];
        proof {
            assert(view_of(cp@, co@, ep@, eo@) =~= solved_state());
            lemma_solved_valid();
        }
        Cube::new(cp, co, ep, eo)
    }

    /// Return a new `Cube` after applying `Move` to the current `Cube`:
    /// the face's quarter turn, repeated the move's magnitude many times.
    pub fn apply_move(&self, move_: Move) -> (c: Cube)
        requires
            1 <= move_.1 <= 3,
        ensures
            c@ == qt_n(self@, move_.0, move_.1 as int),
    {
        let mut c: Cube = *self;
        let mut k: u8 = 0;
        while k < move_.1
            invariant
                k <= move_.1,
                c@ == qt_n(self@, move_.0, k as int),
            decreases move_.1 - k,
        {
            c = c.apply_move_perm(move_.0);
            k = k + 1;
        }
        c
    }

    /// Return a new `Cube` after one quarter turn of face `f`.
    fn apply_move_perm(&self, f: Face) -> (c: Cube)
        ensures
            c@ == qt(self@, f),
    {
        let mp = move_perm(f);
        let mut cp: [Corner; NUM_CORNERS] = [Corner::URF; NUM_CORNERS];
        let mut co: [u8; NUM_CORNERS] = [0; NUM_CORNERS];
        let mut ep: [Edge; NUM_EDGES] = [Edge::UR; NUM_EDGES];
        let mut eo: [u8; NUM_EDGES] = [0; NUM_EDGES];

        let mut i: usize = 0;
        while i < 8
            invariant
                i <= 8,
                move_perm_matches(mp, f),
                forall|k: int|
                    0 <= k < i ==> (#[trigger] cp@[k]).rank_spec() == qt(self@, f).cp[k],
                forall|k: int| 0 <= k < i ==> (#[trigger] co@[k]) as int == qt(self@, f).co[k],
            decreases 8 - i,
        {
            let j = mp.cp[i];
            cp[i] = self.cp[j];
            let twist = self.co[j] as u16 + mp.co[j] as u16;
            co[i] = (twist % 3) as u8;
            i = i + 1;
        }

        let mut i: usize = 0;
        while i < 12
            invariant
                i <= 12,
                move_perm_matches(mp, f),
                forall|k: int|
                    0 <= k < i ==> (#[trigger] ep@[k]).rank_spec() == qt(self@, f).ep[k],
                forall|k: int| 0 <= k < i ==> (#[trigger] eo@[k]) as int == qt(self@, f).eo[k],
            decreases 12 - i,
        {
            let j = mp.ep[i];
            ep[i] = self.ep[j];
            proof {
                lemma_xor_flip(self.eo@[j as int], mp.eo@[i as int]);
            }
            eo[i] = self.eo[j] ^ mp.eo[i];
            i = i + 1;
        }

        let c = Cube { cp, co, ep, eo };
        proof {
            assert(c@ =~= qt(self@, f));
        }
        c
    }
}

/// Whether bit `v` of `m` is set.
spec fn u16_bit(m: u16, v: int) -> bool {
    ((m >> (v as u16)) & 1) == 1
}

/// Whether bit `v` of `m` is set.
spec fn u8_bit(m: u8, v: int) -> bool {
    ((m >> (v as u8)) & 1) == 1
}

impl Cube {
    /// Verify that a `Cube` is in a solvable state. Exactly the first
    /// violated invariant is reported, in a fixed order: edge placement,
    /// edge orientation, corner placement, corner orientation, parity.
    pub fn verify(&self) -> (r: Result<(), CubeStateErr>)
        ensures
            r == Ok::<(), CubeStateErr>(()) <==> valid(self@),
            r == Err::<(), CubeStateErr>(CubeStateErr::ErrEP) <==> !ep_ok(self@),
            r == Err::<(), CubeStateErr>(CubeStateErr::ErrEO) <==> ep_ok(self@) && !eo_ok(self@),
            r == Err::<(), CubeStateErr>(CubeStateErr::ErrCP) <==> ep_ok(self@) && eo_ok(self@)
                && !cp_ok(self@),
            r == Err::<(), CubeStateErr>(CubeStateErr::ErrCO) <==> ep_ok(self@) && eo_ok(self@)
                && cp_ok(self@) && !co_ok(self@),
            r == Err::<(), CubeStateErr>(CubeStateErr::ErrParity) <==> ep_ok(self@) && eo_ok(
                self@,
            ) && cp_ok(self@) && co_ok(self@) && !parity_ok(self@),
    {
        proof {
            assert(forall|i: int| 0 <= i < 12 ==> 0 <= #[trigger] self@.ep[i] < 12);
            assert(forall|i: int| 0 <= i < 8 ==> 0 <= #[trigger] self@.cp[i] < 8);
        }
        // Check that each edge is used only once.
        let mut edges: u16 = 0;
        proof {
            assert forall|v: int| 0 <= v < 12 implies !#[trigger] u16_bit(0u16, v) by {
                lemma_u16_zero_bit(v as u16);
            }
        }
        let mut i: usize = 0;
        while i < 12
            invariant
                i <= 12,
                edges < 0x1000,
                forall|v: int|
                    0 <= v < 12 ==> (#[trigger] u16_bit(edges, v) <==> exists|k: int|
                        0 <= k < i && (#[trigger] self@.ep[k]) == v),
            decreases 12 - i,
        {
            let e = self.ep[i].rank();
            proof {
                assert forall|v: int| 0 <= v < 12 implies #[trigger] u16_bit(
                    edges | (1u16 << (e as u16)),
                    v,
                ) == (if v == e as int {
                    true
                } else {
                    u16_bit(edges, v)
                }) by {
                    lemma_u16_set_bit(edges, e as u16, v as u16);
                }
                lemma_u16_set_bit(edges, e as u16, 0);
                assert(self@.ep[i as int] == e as int);
            }
            edges = edges | (1u16 << (e as u16));
            i = i + 1;
        }
        proof {
            lemma_u16_mask_full(edges);
            lemma_complete_iff_distinct(self@.ep, 12);
            if edges == 0xfff {
                assert forall|v: int| 0 <= v < 12 implies #[trigger] self@.ep.contains(v) by {
                    assert(u16_bit(edges, v));
                    let k = choose|k: int| 0 <= k < 12 && (#[trigger] self@.ep[k]) == v;
                    assert(self@.ep[k] == v);
                }
                assert(ep_ok(self@));
            } else {
                if ep_ok(self@) {
                    assert forall|v: int| 0 <= v < 12 implies #[trigger] u16_bit(edges, v) by {
                        assert(self@.ep.contains(v));
                        let k = choose|k: int| 0 <= k < 12 && self@.ep[k] == v;
                        assert(exists|k: int| 0 <= k < 12 && (#[trigger] self@.ep[k]) == v);
                    }
                    assert(u16_bit(edges, 0) && u16_bit(edges, 1) && u16_bit(edges, 2)
                        && u16_bit(edges, 3) && u16_bit(edges, 4) && u16_bit(edges, 5) && u16_bit(
                    edges,
                    6,
                    ) && u16_bit(edges, 7) && u16_bit(edges, 8) && u16_bit(edges, 9) && u16_bit(
                    edges,
                    10,
                    ) && u16_bit(edges, 11));
                    assert(edges == 0xfff);
                }
            }
        }
        if edges != 0xfff {
            return Err(CubeStateErr::ErrEP);
        }
        // Check that each edge orientation is 0 or 1.
        let mut i: usize = 0;
        while i < 12
            invariant
                i <= 12,
                ep_ok(self@),
                forall|k: int| 0 <= k < i ==> 0 <= #[trigger] self@.eo[k] <= 1,
            decreases 12 - i,
        {
            if self.eo[i] > 1 {
                proof {
                    assert(self@.eo[i as int] == self.eo@[i as int] as int);
                }
                return Err(CubeStateErr::ErrEO);
            }
            i = i + 1;
        }
        // Check that the total edge orientation is a multiple of 2.
        let mut eo_sum: u8 = 0;
        let mut i: usize = 0;
        while i < 12
            invariant
                i <= 12,
                ep_ok(self@),
                forall|k: int| 0 <= k < 12 ==> 0 <= #[trigger] self@.eo[k] <= 1,
                eo_sum as int == seq_sum(self@.eo.subrange(0, i as int)),
                eo_sum <= i,
            decreases 12 - i,
        {
            proof {
                assert(self@.eo.subrange(0, i + 1).drop_last() =~= self@.eo.subrange(0, i as int));
                assert(self@.eo.subrange(0, i + 1).last() == self@.eo[i as int]);
            }
            eo_sum = eo_sum + self.eo[i];
            i = i + 1;
        }
        proof {
            assert(self@.eo.subrange(0, 12) =~= self@.eo);
        }
        if eo_sum % 2 != 0 {
            return Err(CubeStateErr::ErrEO);
        }
        // Check that each corner is used only once.
        let mut corners: u8 = 0;
        proof {
            assert forall|v: int| 0 <= v < 8 implies !#[trigger] u8_bit(0u8, v) by {
                lemma_u8_zero_bit(v as u8);
            }
        }
        let mut i: usize = 0;
        while i < 8
            invariant
                i <= 8,
                ep_ok(self@),
                eo_ok(self@),
                forall|v: int|
                    0 <= v < 8 ==> (#[trigger] u8_bit(corners, v) <==> exists|k: int|
                        0 <= k < i && (#[trigger] self@.cp[k]) == v),
            decreases 8 - i,
        {
            let e = self.cp[i].rank();
            proof {
                assert forall|v: int| 0 <= v < 8 implies #[trigger] u8_bit(
                    corners | (1u8 << (e as u8)),
                    v,
                ) == (if v == e as int {
                    true
                } else {
                    u8_bit(corners, v)
                }) by {
                    lemma_u8_set_bit(corners, e as u8, v as u8);
                }
                assert(self@.cp[i as int] == e as int);
            }
            corners = corners | (1u8 << (e as u8));
            i = i + 1;
        }
        proof {
            lemma_u8_mask_full(corners);
            lemma_complete_iff_distinct(self@.cp, 8);
            if corners == 0xff {
                assert forall|v: int| 0 <= v < 8 implies #[trigger] self@.cp.contains(v) by {
                    assert(u8_bit(corners, v));
                    let k = choose|k: int| 0 <= k < 8 && (#[trigger] self@.cp[k]) == v;
                    assert(self@.cp[k] == v);
                }
                assert(cp_ok(self@));
            } else {
                if cp_ok(self@) {
                    assert forall|v: int| 0 <= v < 8 implies #[trigger] u8_bit(corners, v) by {
                        assert(self@.cp.contains(v));
                        let k = choose|k: int| 0 <= k < 8 && self@.cp[k] == v;
                        assert(exists|k: int| 0 <= k < 8 && (#[trigger] self@.cp[k]) == v);
                    }
                    assert(u8_bit(corners, 0) && u8_bit(corners, 1) && u8_bit(corners, 2)
                        && u8_bit(corners, 3) && u8_bit(corners, 4) && u8_bit(corners, 5)
                        && u8_bit(corners, 6) && u8_bit(corners, 7));
                    assert(corners == 0xff);
                }
            }
        }
        if corners != 0xff {
            return Err(CubeStateErr::ErrCP);
        }
        // Check that each corner orientation is 0, 1 or 2.
        let mut i: usize = 0;
        while i < 8
            invariant
                i <= 8,
                ep_ok(self@),
                eo_ok(self@),
                cp_ok(self@),
                forall|k: int| 0 <= k < i ==> 0 <= #[trigger] self@.co[k] <= 2,
            decreases 8 - i,
        {
            if self.co[i] > 2 {
                proof {
                    assert(self@.co[i as int] == self.co@[i as int] as int);
                }
                return Err(CubeStateErr::ErrCO);
            }
            i = i + 1;
        }
        // Check that the total corner orientation is a multiple of 3.
        let mut co_sum: u8 = 0;
        let mut i: usize = 0;
        while i < 8
            invariant
                i <= 8,
                ep_ok(self@),
                eo_ok(self@),
                cp_ok(self@),
                forall|k: int| 0 <= k < 8 ==> 0 <= #[trigger] self@.co[k] <= 2,
                co_sum as int == seq_sum(self@.co.subrange(0, i as int)),
                co_sum <= 2 * i,
            decreases 8 - i,
        {
            proof {
                assert(self@.co.subrange(0, i + 1).drop_last() =~= self@.co.subrange(0, i as int));
                assert(self@.co.subrange(0, i + 1).last() == self@.co[i as int]);
            }
            co_sum = co_sum + self.co[i];
            i = i + 1;
        }
        proof {
            assert(self@.co.subrange(0, 8) =~= self@.co);
        }
        if co_sum % 3 != 0 {
            return Err(CubeStateErr::ErrCO);
        }
        // Check that corner parity and edge parity are equal.
        if !self.has_valid_parity() {
            return Err(CubeStateErr::ErrParity);
        }
        Ok(())
    }

    fn corner_parity(&self) -> (b: bool)
        ensures
            b == (inversions(self@.cp) % 2 != 0),
    {
        proof {
            assert(ranks(self.cp@) =~= self@.cp);
        }
        num_inversions(self.cp.as_slice()) % 2 != 0
    }

    fn edge_parity(&self) -> (b: bool)
        ensures
            b == (inversions(self@.ep) % 2 != 0),
    {
        proof {
            assert(ranks(self.ep@) =~= self@.ep);
        }
        num_inversions(self.ep.as_slice()) % 2 != 0
    }

    /// Check if a `Cube` has valid parity: corner permutation parity
    /// equals edge permutation parity.
    pub fn has_valid_parity(&self) -> (b: bool)
        ensures
            b == parity_ok(self@),
    {
        self.edge_parity() == self.corner_parity()
    }
}

/// Count the number of inversions in a permutation: the pairs of
/// positions whose occupants are out of rank order.
pub fn num_inversions<P: Ranked + Copy>(perm: &[P]) -> (n: usize)
    requires
        perm@.len() >= 1,
        perm@.len() * perm@.len() <= usize::MAX,
    ensures
        n as int == inversions(ranks(perm@)),
{
    let ghost r = ranks(perm@);
    let len = perm.len();
    let mut num: usize = 0;
    let mut i: usize = 0;
    while i < len - 1
        invariant
            len == perm@.len(),
            1 <= len,
            len * len <= usize::MAX,
            i <= len - 1,
            r == ranks(perm@),
            num as int == inversions_upto(r, i as int),
            num <= i * len,
        decreases len - i,
    {
        let mut j: usize = i + 1;
        while j < len
            invariant
                len == perm@.len(),
                len * len <= usize::MAX,
                i < len - 1,
                i + 1 <= j <= len,
                r == ranks(perm@),
                num as int == inversions_upto(r, i as int) + (row_inversions(r, i as int, i + 1)
                    - row_inversions(r, i as int, j as int)),
                num <= i * len + j,
            decreases len - j,
        {
            proof {
                assert(row_inversions(r, i as int, j as int) == gt_ind(r[i as int], r[j as int])
                    + row_inversions(r, i as int, j + 1));
                assert(i * len + j + 1 <= len * len) by (nonlinear_arith)
                    requires
                        i + 1 < len,
                        j < len,
                ;
            }
            if perm[i].rank() > perm[j].rank() {
                num = num + 1;
            }
            j = j + 1;
        }
        proof {
            assert(row_inversions(r, i as int, len as int) == 0);
            assert(inversions_upto(r, i + 1) == inversions_upto(r, i as int) + row_inversions(
                r,
                i as int,
                i + 1,
            ));
            assert((i + 1) * len == i * len + len) by (nonlinear_arith);
        }
        i = i + 1;
    }
    proof {
        assert(row_inversions(r, len - 1, len as int) == 0);
        assert(inversions(r) == inversions_upto(r, len as int));
        assert(inversions_upto(r, len as int) == inversions_upto(r, len - 1) + row_inversions(
            r,
            len - 1,
            len as int,
        ));
    }
    num
}

proof fn lemma_u16_set_bit(m: u16, b: u16, v: u16)
    requires
        b < 12,
        v < 12,
    ensures
        ((m | (1u16 << b)) >> v) & 1 == (if v == b {
            1u16
        } else {
            (m >> v) & 1
        }),
        m < 0x1000 ==> (m | (1u16 << b)) < 0x1000,
{
    assert(((m | (1u16 << b)) >> v) & 1 == (if v == b {
        1u16
    } else {
        (m >> v) & 1
    })) by (bit_vector)
        requires
            b < 12 && v < 12,
    ;
    assert(m < 0x1000 ==> (m | (1u16 << b)) < 0x1000) by (bit_vector)
        requires
            b < 12,
    ;
}

proof fn lemma_u16_zero_bit(v: u16)
    ensures
        ((0u16 >> v) & 1) != 1,
{
    assert(((0u16 >> v) & 1) != 1) by (bit_vector);
}

proof fn lemma_u8_zero_bit(v: u8)
    ensures
        ((0u8 >> v) & 1) != 1,
{
    assert(((0u8 >> v) & 1) != 1) by (bit_vector);
}

proof fn lemma_u16_mask_full(m: u16)
    requires
        m < 0x1000,
    ensures
        (m == 0xfff) <==> (u16_bit(m, 0) && u16_bit(m, 1) && u16_bit(m, 2) && u16_bit(m, 3)
            && u16_bit(m, 4) && u16_bit(m, 5) && u16_bit(m, 6) && u16_bit(m, 7) && u16_bit(m, 8)
            && u16_bit(m, 9) && u16_bit(m, 10) && u16_bit(m, 11)),
{
    assert((m == 0xfff) <==> ((m >> 0) & 1 == 1 && (m >> 1) & 1 == 1 && (m >> 2) & 1 == 1 && (m
        >> 3) & 1 == 1 && (m >> 4) & 1 == 1 && (m >> 5) & 1 == 1 && (m >> 6) & 1 == 1 && (m >> 7)
        & 1 == 1 && (m >> 8) & 1 == 1 && (m >> 9) & 1 == 1 && (m >> 10) & 1 == 1 && (m >> 11) & 1
        == 1)) by (bit_vector)
        requires
            m < 0x1000,
    ;
}

proof fn lemma_u8_set_bit(m: u8, b: u8, v: u8)
    requires
        b < 8,
        v < 8,
    ensures
        ((m | (1u8 << b)) >> v) & 1 == (if v == b {
            1u8
        } else {
            (m >> v) & 1
        }),
{
    assert(((m | (1u8 << b)) >> v) & 1 == (if v == b {
        1u8
    } else {
        (m >> v) & 1
    })) by (bit_vector)
        requires
            b < 8 && v < 8,
    ;
}

proof fn lemma_u8_mask_full(m: u8)
    ensures
        (m == 0xff) <==> (u8_bit(m, 0) && u8_bit(m, 1) && u8_bit(m, 2) && u8_bit(m, 3) && u8_bit(
            m,
            4,
        ) && u8_bit(m, 5) && u8_bit(m, 6) && u8_bit(m, 7)),
{
    assert((m == 0xff) <==> ((m >> 0) & 1 == 1 && (m >> 1) & 1 == 1 && (m >> 2) & 1 == 1 && (m
        >> 3) & 1 == 1 && (m >> 4) & 1 == 1 && (m >> 5) & 1 == 1 && (m >> 6) & 1 == 1 && (m >> 7)
        & 1 == 1)) by (bit_vector);
}

/// The solved state satisfies every solvability invariant.
pub proof fn lemma_solved_valid()
    ensures
        valid(solved_state()),
{
    let v = solved_state();
    crate::permutation::lemma_seq_sum_8(v.co);
    crate::permutation::lemma_seq_sum_12(v.eo);
    reveal_with_fuel(crate::permutation::row_inversions, 14);
    reveal_with_fuel(crate::permutation::inversions_upto, 14);
    assert(inversions(v.cp) == 0);
    assert(inversions(v.ep) == 0);
}

} // verus!
