//! The 24-element rotation group of the cube, represented as permutations
//! of the four body-diagonals, together with its action on faces, moves
//! and axial moves, its enumeration, and its decomposition into at most
//! two axial whole-cube rotations.

use vstd::prelude::*;

use crate::basic::{Axis, AxialMove, AxialRotation, Face, Move};
use crate::z4::Z4;

verus! {

/// A rotation of the whole cube, stored as the permutation it induces on
/// the four body-diagonals: diagonal `i` is sent to diagonal `d<i>`.
#[derive(Debug, Clone, Copy, PartialEq, Eq, Structural)]
pub struct Rotation {
    pub d0: u8,
    pub d1: u8,
    pub d2: u8,
    pub d3: u8,
}

impl View for Rotation {
    type V = Seq<u8>;

    open spec fn view(&self) -> Seq<u8> {
        seq![self.d0, self.d1, self.d2, self.d3]
    }
}

/// A well-formed diagonal permutation: four values below 4, all distinct.
pub open spec fn wf_seq(p: Seq<u8>) -> bool {
    &&& p.len() == 4
    &&& p[0] < 4
    &&& p[1] < 4
    &&& p[2] < 4
    &&& p[3] < 4
    &&& p[0] != p[1]
    &&& p[0] != p[2]
    &&& p[0] != p[3]
    &&& p[1] != p[2]
    &&& p[1] != p[3]
    &&& p[2] != p[3]
}

/// Sequential composition of diagonal permutations: first `a`, then `b`
/// reads through `a`, so the result sends `i` to `a[b[i]]`.
#[verifier::opaque]
pub open spec fn comp(a: Seq<u8>, b: Seq<u8>) -> Seq<u8> {
    Seq::new(4, |i: int| a[b[i] as int])
}

pub open spec fn id_seq() -> Seq<u8> {
    seq![0u8, 1u8, 2u8, 3u8]
}

/// The position where `v` sits in `p` (the inverse permutation, pointwise).
pub open spec fn inv_at(p: Seq<u8>, v: u8) -> u8 {
    if p[0] == v {
        0
    } else if p[1] == v {
        1
    } else if p[2] == v {
        2
    } else {
        3
    }
}

#[verifier::opaque]
pub open spec fn perm_inv_spec(p: Seq<u8>) -> Seq<u8> {
    Seq::new(4, |i: int| inv_at(p, i as u8))
}

/// The fixed enumeration of the 24 rotations: six face rows, each rotated
/// right by 0, 1, 2 and 3 places.
#[verifier::opaque]
pub open spec fn all_spec(i: int) -> Seq<u8> {
    if i == 0 {
        seq![0u8, 3u8, 1u8, 2u8]
    } else if i == 1 {
        seq![0u8, 1u8, 2u8, 3u8]
    } else if i == 2 {
        seq![0u8, 2u8, 3u8, 1u8]
    } else if i == 3 {
        seq![0u8, 2u8, 1u8, 3u8]
    } else if i == 4 {
        seq![0u8, 3u8, 2u8, 1u8]
    } else if i == 5 {
        seq![0u8, 1u8, 3u8, 2u8]
    } else if i == 6 {
        seq![2u8, 0u8, 3u8, 1u8]
    } else if i == 7 {
        seq![3u8, 0u8, 1u8, 2u8]
    } else if i == 8 {
        seq![1u8, 0u8, 2u8, 3u8]
    } else if i == 9 {
        seq![3u8, 0u8, 2u8, 1u8]
    } else if i == 10 {
        seq![1u8, 0u8, 3u8, 2u8]
    } else if i == 11 {
        seq![2u8, 0u8, 1u8, 3u8]
    } else if i == 12 {
        seq![1u8, 2u8, 0u8, 3u8]
    } else if i == 13 {
        seq![2u8, 3u8, 0u8, 1u8]
    } else if i == 14 {
        seq![3u8, 1u8, 0u8, 2u8]
    } else if i == 15 {
        seq![1u8, 3u8, 0u8, 2u8]
    } else if i == 16 {
        seq![2u8, 1u8, 0u8, 3u8]
    } else if i == 17 {
        seq![3u8, 2u8, 0u8, 1u8]
    } else if i == 18 {
        seq![3u8, 1u8, 2u8, 0u8]
    } else if i == 19 {
        seq![1u8, 2u8, 3u8, 0u8]
    } else if i == 20 {
        seq![2u8, 3u8, 1u8, 0u8]
    } else if i == 21 {
        seq![2u8, 1u8, 3u8, 0u8]
    } else if i == 22 {
        seq![3u8, 2u8, 1u8, 0u8]
    } else {
        seq![1u8, 3u8, 2u8, 0u8]
    }
}

/// The cyclic index shift by `j` places: position `i` reads from
/// position `i - j` mod 4.
pub open spec fn cyc(j: int) -> Seq<u8> {
    if j == 0 {
        seq![0u8, 1u8, 2u8, 3u8]
    } else if j == 1 {
        seq![3u8, 0u8, 1u8, 2u8]
    } else if j == 2 {
        seq![2u8, 3u8, 0u8, 1u8]
    } else {
        seq![1u8, 2u8, 3u8, 0u8]
    }
}

/// The index of a permutation in the fixed enumeration, computed from the
/// position of diagonal 0 and the two entries that follow it cyclically.
#[verifier::opaque]
pub open spec fn spec_index(p: Seq<u8>) -> int {
    let j: int = if p[0] == 0 {
        0
    } else if p[1] == 0 {
        1
    } else if p[2] == 0 {
        2
    } else {
        3
    };
    let q1 = p[(1 + j) % 4];
    let q2 = p[(2 + j) % 4];
    let g: int = if q1 == 3 && q2 == 1 {
        0
    } else if q1 == 1 && q2 == 2 {
        1
    } else if q1 == 2 && q2 == 3 {
        2
    } else if q1 == 2 && q2 == 1 {
        3
    } else if q1 == 3 && q2 == 2 {
        4
    } else if q1 == 1 && q2 == 3 {
        5
    } else {
        0
    };
    6 * j + g
}

/// The row of the enumeration that belongs to a face.
pub open spec fn data_row(f: Face) -> Seq<u8> {
    all_spec(f.ord_spec())
}

/// Where a rotation sends a face: the row of the composite permutation.
#[verifier::opaque]
pub open spec fn spec_get(p: Seq<u8>, f: Face) -> Face {
    Face::from_ord_spec(spec_index(comp(p, data_row(f))) % 6)
}

/// The face a face occupies after the cube is rotated: the action through
/// the inverse permutation.
#[verifier::opaque]
pub open spec fn spec_apply(p: Seq<u8>, f: Face) -> Face {
    spec_get(perm_inv_spec(p), f)
}

/// The permutation of the whole-cube rotation about `axis` by `by`.
pub open spec fn axial_spec(axis: Axis, by: Z4) -> Seq<u8> {
    if by == Z4::Zero {
        id_seq()
    } else {
        match (axis, by) {
            (Axis::X, Z4::One) => all_spec(20),
            (Axis::X, Z4::Two) => all_spec(10),
            (Axis::X, Z4::Three) => all_spec(17),
            (Axis::Y, Z4::One) => all_spec(7),
            (Axis::Y, Z4::Two) => all_spec(13),
            (Axis::Y, Z4::Three) => all_spec(19),
            (Axis::Z, Z4::One) => all_spec(15),
            (Axis::Z, Z4::Two) => all_spec(22),
            (Axis::Z, Z4::Three) => all_spec(6),
            _ => id_seq(),
        }
    }
}

/// What `axial_part` returns for each enumeration index.
pub open spec fn axial_part_of_index(i: int) -> Option<(Axis, Z4)> {
    if i == 1 {
        Some((Axis::X, Z4::Zero))
    } else if i == 20 {
        Some((Axis::X, Z4::One))
    } else if i == 10 {
        Some((Axis::X, Z4::Two))
    } else if i == 17 {
        Some((Axis::X, Z4::Three))
    } else if i == 7 {
        Some((Axis::Y, Z4::One))
    } else if i == 13 {
        Some((Axis::Y, Z4::Two))
    } else if i == 19 {
        Some((Axis::Y, Z4::Three))
    } else if i == 15 {
        Some((Axis::Z, Z4::One))
    } else if i == 22 {
        Some((Axis::Z, Z4::Two))
    } else if i == 6 {
        Some((Axis::Z, Z4::Three))
    } else {
        None
    }
}

/// The action of a rotation on an axial move: the axis is relabelled by
/// where the positive face goes, and the two amounts swap when the
/// positive face lands on a negative face.
pub open spec fn am_mul_spec(am: AxialMove, p: Seq<u8>) -> AxialMove {
    let nf = spec_apply(p, Face::new_spec(am.axis_spec(), false));
    if nf.neg_spec() {
        AxialMove::new_spec(nf.axis_spec(), am.neg_spec(), am.pos_spec())
    } else {
        AxialMove::new_spec(nf.axis_spec(), am.pos_spec(), am.neg_spec())
    }
}

/// Each enumerated permutation is well-formed.
pub proof fn lemma_all_wf(i: int)
    requires
        0 <= i < 24,
    ensures
        wf_seq(all_spec(i)),
{
    reveal(all_spec);
}

/// The enumeration and the index are inverse to one another, one way.
pub proof fn lemma_roundtrip(i: int)
    requires
        0 <= i < 24,
    ensures
        spec_index(all_spec(i)) == i,
{
    reveal(all_spec);
    reveal(spec_index);
    assert(spec_index(all_spec(0)) == 0);
    assert(spec_index(all_spec(1)) == 1);
    assert(spec_index(all_spec(2)) == 2);
    assert(spec_index(all_spec(3)) == 3);
    assert(spec_index(all_spec(4)) == 4);
    assert(spec_index(all_spec(5)) == 5);
    assert(spec_index(all_spec(6)) == 6);
    assert(spec_index(all_spec(7)) == 7);
    assert(spec_index(all_spec(8)) == 8);
    assert(spec_index(all_spec(9)) == 9);
    assert(spec_index(all_spec(10)) == 10);
    assert(spec_index(all_spec(11)) == 11);
    assert(spec_index(all_spec(12)) == 12);
    assert(spec_index(all_spec(13)) == 13);
    assert(spec_index(all_spec(14)) == 14);
    assert(spec_index(all_spec(15)) == 15);
    assert(spec_index(all_spec(16)) == 16);
    assert(spec_index(all_spec(17)) == 17);
    assert(spec_index(all_spec(18)) == 18);
    assert(spec_index(all_spec(19)) == 19);
    assert(spec_index(all_spec(20)) == 20);
    assert(spec_index(all_spec(21)) == 21);
    assert(spec_index(all_spec(22)) == 22);
    assert(spec_index(all_spec(23)) == 23);
}

/// Every well-formed permutation appears in the enumeration, at the place
/// the index names: the enumeration is onto, so the group has exactly the
/// listed 24 elements.
pub proof fn lemma_complete(p: Seq<u8>)
    requires
        wf_seq(p),
    ensures
        0 <= spec_index(p) < 24,
        all_spec(spec_index(p)) == p,
{
    reveal(all_spec);
    reveal(spec_index);
    if p[0] == 0 && p[1] == 3 && p[2] == 1 {
        assert(p =~= all_spec(0));
    } else if p[0] == 0 && p[1] == 1 && p[2] == 2 {
        assert(p =~= all_spec(1));
    } else if p[0] == 0 && p[1] == 2 && p[2] == 3 {
        assert(p =~= all_spec(2));
    } else if p[0] == 0 && p[1] == 2 && p[2] == 1 {
        assert(p =~= all_spec(3));
    } else if p[0] == 0 && p[1] == 3 && p[2] == 2 {
        assert(p =~= all_spec(4));
    } else if p[0] == 0 && p[1] == 1 && p[2] == 3 {
        assert(p =~= all_spec(5));
    } else if p[0] == 2 && p[1] == 0 && p[2] == 3 {
        assert(p =~= all_spec(6));
    } else if p[0] == 3 && p[1] == 0 && p[2] == 1 {
        assert(p =~= all_spec(7));
    } else if p[0] == 1 && p[1] == 0 && p[2] == 2 {
        assert(p =~= all_spec(8));
    } else if p[0] == 3 && p[1] == 0 && p[2] == 2 {
        assert(p =~= all_spec(9));
    } else if p[0] == 1 && p[1] == 0 && p[2] == 3 {
        assert(p =~= all_spec(10));
    } else if p[0] == 2 && p[1] == 0 && p[2] == 1 {
        assert(p =~= all_spec(11));
    } else if p[0] == 1 && p[1] == 2 && p[2] == 0 {
        assert(p =~= all_spec(12));
    } else if p[0] == 2 && p[1] == 3 && p[2] == 0 {
        assert(p =~= all_spec(13));
    } else if p[0] == 3 && p[1] == 1 && p[2] == 0 {
        assert(p =~= all_spec(14));
    } else if p[0] == 1 && p[1] == 3 && p[2] == 0 {
        assert(p =~= all_spec(15));
    } else if p[0] == 2 && p[1] == 1 && p[2] == 0 {
        assert(p =~= all_spec(16));
    } else if p[0] == 3 && p[1] == 2 && p[2] == 0 {
        assert(p =~= all_spec(17));
    } else if p[0] == 3 && p[1] == 1 && p[2] == 2 {
        assert(p =~= all_spec(18));
    } else if p[0] == 1 && p[1] == 2 && p[2] == 3 {
        assert(p =~= all_spec(19));
    } else if p[0] == 2 && p[1] == 3 && p[2] == 1 {
        assert(p =~= all_spec(20));
    } else if p[0] == 2 && p[1] == 1 && p[2] == 3 {
        assert(p =~= all_spec(21));
    } else if p[0] == 3 && p[1] == 2 && p[2] == 1 {
        assert(p =~= all_spec(22));
    } else if p[0] == 1 && p[1] == 3 && p[2] == 2 {
        assert(p =~= all_spec(23));
    } else {
        assert(false);
    }
}

/// The enumeration lists 24 distinct elements.
pub proof fn lemma_all_distinct(i: int, j: int)
    requires
        0 <= i < 24,
        0 <= j < 24,
        i != j,
    ensures
        all_spec(i) != all_spec(j),
{
    lemma_roundtrip(i);
    lemma_roundtrip(j);
}

/// Each enumerated permutation is its face row shifted cyclically.
pub proof fn lemma_coset(j: int, g: int)
    requires
        0 <= j < 4,
        0 <= g < 6,
    ensures
        all_spec(6 * j + g) == comp(all_spec(g), cyc(j)),
{
    reveal(comp);
    reveal(all_spec);
    assert(all_spec(0) =~= comp(all_spec(0), cyc(0)));
    assert(all_spec(1) =~= comp(all_spec(1), cyc(0)));
    assert(all_spec(2) =~= comp(all_spec(2), cyc(0)));
    assert(all_spec(3) =~= comp(all_spec(3), cyc(0)));
    assert(all_spec(4) =~= comp(all_spec(4), cyc(0)));
    assert(all_spec(5) =~= comp(all_spec(5), cyc(0)));
    assert(all_spec(6) =~= comp(all_spec(0), cyc(1)));
    assert(all_spec(7) =~= comp(all_spec(1), cyc(1)));
    assert(all_spec(8) =~= comp(all_spec(2), cyc(1)));
    assert(all_spec(9) =~= comp(all_spec(3), cyc(1)));
    assert(all_spec(10) =~= comp(all_spec(4), cyc(1)));
    assert(all_spec(11) =~= comp(all_spec(5), cyc(1)));
    assert(all_spec(12) =~= comp(all_spec(0), cyc(2)));
    assert(all_spec(13) =~= comp(all_spec(1), cyc(2)));
    assert(all_spec(14) =~= comp(all_spec(2), cyc(2)));
    assert(all_spec(15) =~= comp(all_spec(3), cyc(2)));
    assert(all_spec(16) =~= comp(all_spec(4), cyc(2)));
    assert(all_spec(17) =~= comp(all_spec(5), cyc(2)));
    assert(all_spec(18) =~= comp(all_spec(0), cyc(3)));
    assert(all_spec(19) =~= comp(all_spec(1), cyc(3)));
    assert(all_spec(20) =~= comp(all_spec(2), cyc(3)));
    assert(all_spec(21) =~= comp(all_spec(3), cyc(3)));
    assert(all_spec(22) =~= comp(all_spec(4), cyc(3)));
    assert(all_spec(23) =~= comp(all_spec(5), cyc(3)));
}

/// Cyclic shifts compose additively.
pub proof fn lemma_cyc_add(a: int, b: int)
    requires
        0 <= a < 4,
        0 <= b < 4,
    ensures
        comp(cyc(a), cyc(b)) == cyc((a + b) % 4),
{
    reveal(comp);
    assert(comp(cyc(0), cyc(0)) =~= cyc(0));
    assert(comp(cyc(0), cyc(1)) =~= cyc(1));
    assert(comp(cyc(0), cyc(2)) =~= cyc(2));
    assert(comp(cyc(0), cyc(3)) =~= cyc(3));
    assert(comp(cyc(1), cyc(0)) =~= cyc(1));
    assert(comp(cyc(1), cyc(1)) =~= cyc(2));
    assert(comp(cyc(1), cyc(2)) =~= cyc(3));
    assert(comp(cyc(1), cyc(3)) =~= cyc(0));
    assert(comp(cyc(2), cyc(0)) =~= cyc(2));
    assert(comp(cyc(2), cyc(1)) =~= cyc(3));
    assert(comp(cyc(2), cyc(2)) =~= cyc(0));
    assert(comp(cyc(2), cyc(3)) =~= cyc(1));
    assert(comp(cyc(3), cyc(0)) =~= cyc(3));
    assert(comp(cyc(3), cyc(1)) =~= cyc(0));
    assert(comp(cyc(3), cyc(2)) =~= cyc(1));
    assert(comp(cyc(3), cyc(3)) =~= cyc(2));
}

/// Composition of well-formed permutations is well-formed.
pub proof fn lemma_comp_wf(a: Seq<u8>, b: Seq<u8>)
    requires
        wf_seq(a),
        wf_seq(b),
    ensures
        wf_seq(comp(a, b)),
{
    reveal(comp);
}

/// The group laws: composition associates, the identity is neutral, and
/// the pointwise inverse is a two-sided inverse.
pub proof fn lemma_group(a: Seq<u8>, b: Seq<u8>, c: Seq<u8>)
    requires
        wf_seq(a),
        wf_seq(b),
        wf_seq(c),
    ensures
        comp(comp(a, b), c) == comp(a, comp(b, c)),
        comp(a, id_seq()) == a,
        comp(id_seq(), a) == a,
        comp(a, perm_inv_spec(a)) == id_seq(),
        comp(perm_inv_spec(a), a) == id_seq(),
        wf_seq(perm_inv_spec(a)),
{
    reveal(comp);
    reveal(perm_inv_spec);
    assert(comp(comp(a, b), c) =~= comp(a, comp(b, c)));
    assert(comp(a, id_seq()) =~= a);
    assert(comp(id_seq(), a) =~= a);
    assert(comp(a, perm_inv_spec(a)) =~= id_seq());
    assert(comp(perm_inv_spec(a), a) =~= id_seq());
}

/// A left inverse and a right inverse of the same permutation agree.
pub proof fn lemma_inverse_unique(q: Seq<u8>, m: Seq<u8>, w: Seq<u8>)
    requires
        wf_seq(q),
        wf_seq(m),
        wf_seq(w),
        comp(q, m) == id_seq(),
        comp(m, w) == id_seq(),
    ensures
        q == w,
{
    reveal(comp);
    lemma_group(q, m, w);
    assert(comp(comp(q, m), w) =~= w);
    assert(comp(q, comp(m, w)) =~= q);
}

/// Inversion reverses composition.
pub proof fn lemma_inv_comp(a: Seq<u8>, b: Seq<u8>)
    requires
        wf_seq(a),
        wf_seq(b),
    ensures
        perm_inv_spec(comp(a, b)) == comp(perm_inv_spec(b), perm_inv_spec(a)),
{
    reveal(comp);
    reveal(perm_inv_spec);
    let m = comp(a, b);
    let q = comp(perm_inv_spec(b), perm_inv_spec(a));
    lemma_comp_wf(a, b);
    lemma_group(a, b, m);
    lemma_group(b, a, m);
    lemma_comp_wf(perm_inv_spec(b), perm_inv_spec(a));
    // q . m == id: unfold through associativity
    lemma_group(perm_inv_spec(a), a, b);
    assert(comp(q, m) =~= id_seq()) by {
        assert(forall|i: int| 0 <= i < 4 ==> comp(q, m)[i] == q[m[i] as int]);
        assert(comp(q, m) =~= comp(comp(q, a), b)) by {
            assert(comp(q, m) =~= comp(comp(q, a), b));
        }
        assert(comp(q, a) =~= perm_inv_spec(b)) by {
            lemma_group(perm_inv_spec(b), perm_inv_spec(a), a);
            assert(comp(q, a) =~= comp(perm_inv_spec(b), comp(perm_inv_spec(a), a)));
            lemma_group(a, a, a);
            assert(comp(perm_inv_spec(a), a) == id_seq());
            lemma_group(perm_inv_spec(b), a, a);
            assert(comp(perm_inv_spec(b), id_seq()) =~= perm_inv_spec(b));
        }
        lemma_group(b, b, b);
        assert(comp(perm_inv_spec(b), b) == id_seq());
    }
    lemma_group(m, m, m);
    lemma_inverse_unique(q, m, perm_inv_spec(m));
    assert(comp(m, perm_inv_spec(m)) == id_seq());
}

/// The left action law for `get`: where a composite sends a face is where
/// the first factor sends the image under the second.
#[verifier::rlimit(100)]
pub proof fn lemma_get_action(r: Seq<u8>, s: Seq<u8>, f: Face)
    requires
        wf_seq(r),
        wf_seq(s),
    ensures
        spec_get(comp(r, s), f) == spec_get(r, spec_get(s, f)),
{
    reveal(spec_get);
    reveal(comp);
    let fo = f.ord_spec();
    assert(0 <= fo < 6);
    lemma_all_wf(fo);
    let m = comp(s, data_row(f));
    lemma_comp_wf(s, data_row(f));
    lemma_complete(m);
    let idx = spec_index(m);
    let j = idx / 6;
    let g = idx % 6;
    assert(0 <= j < 4 && 0 <= g < 6);
    lemma_coset(j, g);
    lemma_all_wf(g);
    let m2 = comp(r, all_spec(g));
    lemma_comp_wf(r, all_spec(g));
    lemma_complete(m2);
    let idx2 = spec_index(m2);
    let j2 = idx2 / 6;
    let g2 = idx2 % 6;
    assert(0 <= j2 < 4 && 0 <= g2 < 6);
    lemma_coset(j2, g2);
    lemma_all_wf(g2);
    lemma_cyc_add(j2, j);
    let cy: Seq<u8> = cyc(j);
    let cy2: Seq<u8> = cyc(j2);
    assert(wf_seq(cy) && wf_seq(cy2)) by {
        assert(wf_seq(cyc(0)));
        assert(wf_seq(cyc(1)));
        assert(wf_seq(cyc(2)));
        assert(wf_seq(cyc(3)));
    }
    // comp(comp(r, s), data_row(f)) == comp(r, m) == comp(m2, cyc(j))
    lemma_group(r, s, data_row(f));
    assert(comp(comp(r, s), data_row(f)) == comp(r, m));
    assert(comp(r, m) =~= comp(m2, cy)) by {
        assert(m == comp(all_spec(g), cy));
        lemma_group(r, all_spec(g), cy);
    }
    assert(comp(m2, cy) =~= comp(all_spec(g2), comp(cy2, cy))) by {
        assert(m2 == comp(all_spec(g2), cy2));
        lemma_group(all_spec(g2), cy2, cy);
    }
    assert(comp(cy2, cy) == cyc((j2 + j) % 4));
    lemma_coset((j2 + j) % 4, g2);
    lemma_roundtrip(6 * ((j2 + j) % 4) + g2);
    assert(spec_index(comp(comp(r, s), data_row(f))) == 6 * ((j2 + j) % 4) + g2);
    // the face with ordinal g is spec_get(s, f); g2 names both sides
    assert(spec_get(s, f) == Face::from_ord_spec(g));
    assert(data_row(spec_get(s, f)) == all_spec(g)) by {
        assert(Face::from_ord_spec(g).ord_spec() == g);
    }
}

/// The mirror that swaps the two sides of every axis, as a permutation.
pub open spec fn w_seq() -> Seq<u8> {
    seq![0u8, 3u8, 2u8, 1u8]
}

/// A face's opposite has the face's row composed with the mirror.
pub proof fn lemma_opp_row(f: Face)
    ensures
        data_row(f.opposite_spec()) == comp(data_row(f), w_seq()),
{
    reveal(comp);
    reveal(all_spec);
    assert(all_spec(3) =~= comp(all_spec(0), w_seq()));
    assert(all_spec(4) =~= comp(all_spec(1), w_seq()));
    assert(all_spec(5) =~= comp(all_spec(2), w_seq()));
    assert(all_spec(0) =~= comp(all_spec(3), w_seq()));
    assert(all_spec(1) =~= comp(all_spec(4), w_seq()));
    assert(all_spec(2) =~= comp(all_spec(5), w_seq()));
}

/// The mirror commutes with cyclic shifts, reversing the shift.
pub proof fn lemma_cyc_w(j: int)
    requires
        0 <= j < 4,
    ensures
        comp(cyc(j), w_seq()) == comp(w_seq(), cyc((4 - j) % 4)),
{
    reveal(comp);
    assert(comp(cyc(0), w_seq()) =~= comp(w_seq(), cyc(0)));
    assert(comp(cyc(1), w_seq()) =~= comp(w_seq(), cyc(3)));
    assert(comp(cyc(2), w_seq()) =~= comp(w_seq(), cyc(2)));
    assert(comp(cyc(3), w_seq()) =~= comp(w_seq(), cyc(1)));
}

/// Where a rotation sends opposite faces: always to opposite faces.
pub proof fn lemma_get_opposite(r: Seq<u8>, f: Face)
    requires
        wf_seq(r),
    ensures
        spec_get(r, f.opposite_spec()) == spec_get(r, f).opposite_spec(),
{
    reveal(spec_get);
    reveal(comp);
    let fo = f.ord_spec();
    lemma_all_wf(fo);
    let m = comp(r, data_row(f));
    lemma_comp_wf(r, data_row(f));
    lemma_complete(m);
    let idx = spec_index(m);
    let j = idx / 6;
    let g = idx % 6;
    assert(0 <= j < 4 && 0 <= g < 6);
    lemma_coset(j, g);
    lemma_all_wf(g);
    lemma_opp_row(f);
    lemma_cyc_w(j);
    let cy: Seq<u8> = cyc(j);
    let cy2: Seq<u8> = cyc((4 - j) % 4);
    assert(wf_seq(cy) && wf_seq(cy2)) by {
        assert(wf_seq(cyc(0)));
        assert(wf_seq(cyc(1)));
        assert(wf_seq(cyc(2)));
        assert(wf_seq(cyc(3)));
    }
    assert(wf_seq(w_seq()));
    // comp(r, data_row(opp f)) == comp(m, w) == comp(all_spec(g), comp(cyc j, w))
    lemma_group(r, data_row(f), w_seq());
    assert(comp(r, data_row(f.opposite_spec())) == comp(m, w_seq()));
    assert(comp(m, w_seq()) =~= comp(all_spec(g), comp(cy, w_seq()))) by {
        assert(m == comp(all_spec(g), cy));
        lemma_group(all_spec(g), cy, w_seq());
    }
    // reorder the mirror before the shift, and fold it into the row
    let og = Face::from_ord_spec(g).opposite_spec().ord_spec();
    assert(0 <= og < 6);
    assert(comp(all_spec(g), comp(w_seq(), cy2)) =~= comp(comp(all_spec(g), w_seq()), cy2)) by {
        lemma_group(all_spec(g), w_seq(), cy2);
    }
    assert(comp(all_spec(g), w_seq()) == all_spec(og)) by {
        lemma_opp_row(Face::from_ord_spec(g));
        assert(Face::from_ord_spec(g).ord_spec() == g);
    }
    lemma_coset((4 - j) % 4, og);
    lemma_roundtrip(6 * ((4 - j) % 4) + og);
    assert(spec_index(comp(r, data_row(f.opposite_spec()))) == 6 * ((4 - j) % 4) + og);
    assert(spec_get(r, f) == Face::from_ord_spec(g));
}

/// The action on faces respects opposition.
pub proof fn lemma_apply_opposite(p: Seq<u8>, f: Face)
    requires
        wf_seq(p),
    ensures
        spec_apply(p, f.opposite_spec()) == spec_apply(p, f).opposite_spec(),
{
    reveal(spec_apply);
    lemma_group(p, p, p);
    lemma_get_opposite(perm_inv_spec(p), f);
}

/// The identity rotation fixes every face.
pub proof fn lemma_apply_id(f: Face)
    ensures
        spec_apply(id_seq(), f) == f,
        spec_get(id_seq(), f) == f,
{
    reveal(spec_apply);
    reveal(spec_get);
    reveal(comp);
    reveal(perm_inv_spec);
    assert(perm_inv_spec(id_seq()) =~= id_seq());
    let fo = f.ord_spec();
    lemma_all_wf(fo);
    assert(comp(id_seq(), data_row(f)) =~= data_row(f));
    lemma_roundtrip(fo);
}

/// The action law in composition order: acting by `r` and then by `s` is
/// acting by the product `r . s`.
pub proof fn lemma_apply_action(r: Seq<u8>, s: Seq<u8>, f: Face)
    requires
        wf_seq(r),
        wf_seq(s),
    ensures
        spec_apply(comp(r, s), f) == spec_apply(s, spec_apply(r, f)),
{
    reveal(spec_apply);
    lemma_inv_comp(r, s);
    lemma_group(r, r, r);
    lemma_group(s, s, s);
    lemma_get_action(perm_inv_spec(s), perm_inv_spec(r), f);
}

/// Lifting a turn to an axial move commutes with the rotation action.
pub proof fn lemma_lift_commutes(m: Move, p: Seq<u8>)
    requires
        wf_seq(p),
    ensures
        am_mul_spec(
            if m.face_spec().neg_spec() {
                AxialMove::new_spec(m.face_spec().axis_spec(), Z4::Zero, m.by_spec())
            } else {
                AxialMove::new_spec(m.face_spec().axis_spec(), m.by_spec(), Z4::Zero)
            },
            p,
        ) == (if spec_apply(p, m.face_spec()).neg_spec() {
            AxialMove::new_spec(spec_apply(p, m.face_spec()).axis_spec(), Z4::Zero, m.by_spec())
        } else {
            AxialMove::new_spec(spec_apply(p, m.face_spec()).axis_spec(), m.by_spec(), Z4::Zero)
        }),
{
    let f = m.face_spec();
    if f.neg_spec() {
        assert(Face::new_spec(f.axis_spec(), false) == f.opposite_spec());
        lemma_apply_opposite(p, f);
    } else {
        assert(Face::new_spec(f.axis_spec(), false) == f);
    }
}

impl Rotation {
    pub open spec fn wf(self) -> bool {
        wf_seq(self@)
    }

    /// The entry of the permutation at position `i`.
    fn at(self, i: u8) -> (v: u8)
        requires
            i < 4,
        ensures
            v == self@[i as int],
    {
        match i {
            0 => self.d0,
            1 => self.d1,
            2 => self.d2,
            _ => self.d3,
        }
    }

    /// The position where value `v` sits.
    fn pos_of(self, v: u8) -> (i: u8)
        requires
            self.wf(),
            v < 4,
        ensures
            i == inv_at(self@, v),
            i < 4,
            self@[i as int] == v,
    {
        if self.d0 == v {
            0
        } else if self.d1 == v {
            1
        } else if self.d2 == v {
            2
        } else {
            3
        }
    }

    /// The identity rotation.
    pub fn id() -> (r: Rotation)
        ensures
            r@ == id_seq(),
            r.wf(),
    {
        let r = Rotation { d0: 0, d1: 1, d2: 2, d3: 3 };
        proof {
            assert(r@ =~= id_seq());
        }
        r
    }

    /// The 24 rotations, in the fixed enumeration order.
    pub fn all() -> (v: Vec<Rotation>)
        ensures
            v@.len() == 24,
            forall|i: int| 0 <= i < 24 ==> (#[trigger] v@[i])@ == all_spec(i) && v@[i].wf(),
    {
        proof {
            reveal(all_spec);
        }
        let mut v: Vec<Rotation> = Vec::new();
        v.push(Rotation { d0: 0, d1: 3, d2: 1, d3: 2 });
        v.push(Rotation { d0: 0, d1: 1, d2: 2, d3: 3 });
        v.push(Rotation { d0: 0, d1: 2, d2: 3, d3: 1 });
        v.push(Rotation { d0: 0, d1: 2, d2: 1, d3: 3 });
        v.push(Rotation { d0: 0, d1: 3, d2: 2, d3: 1 });
        v.push(Rotation { d0: 0, d1: 1, d2: 3, d3: 2 });
        v.push(Rotation { d0: 2, d1: 0, d2: 3, d3: 1 });
        v.push(Rotation { d0: 3, d1: 0, d2: 1, d3: 2 });
        v.push(Rotation { d0: 1, d1: 0, d2: 2, d3: 3 });
        v.push(Rotation { d0: 3, d1: 0, d2: 2, d3: 1 });
        v.push(Rotation { d0: 1, d1: 0, d2: 3, d3: 2 });
        v.push(Rotation { d0: 2, d1: 0, d2: 1, d3: 3 });
        v.push(Rotation { d0: 1, d1: 2, d2: 0, d3: 3 });
        v.push(Rotation { d0: 2, d1: 3, d2: 0, d3: 1 });
        v.push(Rotation { d0: 3, d1: 1, d2: 0, d3: 2 });
        v.push(Rotation { d0: 1, d1: 3, d2: 0, d3: 2 });
        v.push(Rotation { d0: 2, d1: 1, d2: 0, d3: 3 });
        v.push(Rotation { d0: 3, d1: 2, d2: 0, d3: 1 });
        v.push(Rotation { d0: 3, d1: 1, d2: 2, d3: 0 });
        v.push(Rotation { d0: 1, d1: 2, d2: 3, d3: 0 });
        v.push(Rotation { d0: 2, d1: 3, d2: 1, d3: 0 });
        v.push(Rotation { d0: 2, d1: 1, d2: 3, d3: 0 });
        v.push(Rotation { d0: 3, d1: 2, d2: 1, d3: 0 });
        v.push(Rotation { d0: 1, d1: 3, d2: 2, d3: 0 });
        proof {
            assert(v@[0]@ =~= all_spec(0));
            assert(v@[1]@ =~= all_spec(1));
            assert(v@[2]@ =~= all_spec(2));
            assert(v@[3]@ =~= all_spec(3));
            assert(v@[4]@ =~= all_spec(4));
            assert(v@[5]@ =~= all_spec(5));
            assert(v@[6]@ =~= all_spec(6));
            assert(v@[7]@ =~= all_spec(7));
            assert(v@[8]@ =~= all_spec(8));
            assert(v@[9]@ =~= all_spec(9));
            assert(v@[10]@ =~= all_spec(10));
            assert(v@[11]@ =~= all_spec(11));
            assert(v@[12]@ =~= all_spec(12));
            assert(v@[13]@ =~= all_spec(13));
            assert(v@[14]@ =~= all_spec(14));
            assert(v@[15]@ =~= all_spec(15));
            assert(v@[16]@ =~= all_spec(16));
            assert(v@[17]@ =~= all_spec(17));
            assert(v@[18]@ =~= all_spec(18));
            assert(v@[19]@ =~= all_spec(19));
            assert(v@[20]@ =~= all_spec(20));
            assert(v@[21]@ =~= all_spec(21));
            assert(v@[22]@ =~= all_spec(22));
            assert(v@[23]@ =~= all_spec(23));
        }
        v
    }

    /// The enumeration row of a face, as a rotation value.
    fn data_rot(f: Face) -> (r: Rotation)
        ensures
            r@ == data_row(f),
            r.wf(),
    {
        let r = match f {
            Face::R => (Rotation { d0: 0, d1: 3, d2: 1, d3: 2 }),
            Face::U => (Rotation { d0: 0, d1: 1, d2: 2, d3: 3 }),
            Face::F => (Rotation { d0: 0, d1: 2, d2: 3, d3: 1 }),
            Face::L => (Rotation { d0: 0, d1: 2, d2: 1, d3: 3 }),
            Face::D => (Rotation { d0: 0, d1: 3, d2: 2, d3: 1 }),
            Face::B => (Rotation { d0: 0, d1: 1, d2: 3, d3: 2 }),
        };
        proof {
            reveal(all_spec);
            assert(r@ =~= data_row(f));
        }
        r
    }

    /// Sequential composition: first `self`, then `rhs`.
    pub fn mul_(self, rhs: Rotation) -> (r: Rotation)
        requires
            self.wf(),
            rhs.wf(),
        ensures
            r@ == comp(self@, rhs@),
            r.wf(),
    {
        let r = Rotation {
            d0: self.at(rhs.d0),
            d1: self.at(rhs.d1),
            d2: self.at(rhs.d2),
            d3: self.at(rhs.d3),
        };
        proof {
            reveal(comp);
            assert(r@ =~= comp(self@, rhs@));
            lemma_comp_wf(self@, rhs@);
        }
        r
    }

    /// Composition; the same operation under the public name.
    pub fn mul(self, rhs: Rotation) -> (r: Rotation)
        requires
            self.wf(),
            rhs.wf(),
        ensures
            r@ == comp(self@, rhs@),
            r.wf(),
    {
        self.mul_(rhs)
    }

    /// The inverse rotation.
    pub fn inv(self) -> (r: Rotation)
        requires
            self.wf(),
        ensures
            r@ == perm_inv_spec(self@),
            r.wf(),
            comp(self@, r@) == id_seq(),
            comp(r@, self@) == id_seq(),
    {
        let r = Rotation {
            d0: self.pos_of(0),
            d1: self.pos_of(1),
            d2: self.pos_of(2),
            d3: self.pos_of(3),
        };
        proof {
            reveal(perm_inv_spec);
            assert(r@ =~= perm_inv_spec(self@));
            lemma_group(self@, self@, self@);
        }
        r
    }

    /// The rotation's position in the fixed enumeration.
    pub fn index(self) -> (i: u8)
        requires
            self.wf(),
        ensures
            i as int == spec_index(self@),
            i < 24,
            all_spec(i as int) == self@,
    {
        let j: u8 = if self.d0 == 0 {
            0
        } else if self.d1 == 0 {
            1
        } else if self.d2 == 0 {
            2
        } else {
            3
        };
        let q = match j {
            0 => (self.d1, self.d2),
            1 => (self.d2, self.d3),
            2 => (self.d3, self.d0),
            _ => (self.d0, self.d1),
        };
        let g: u8 = if q.0 == 3 && q.1 == 1 {
            0
        } else if q.0 == 1 && q.1 == 2 {
            1
        } else if q.0 == 2 && q.1 == 3 {
            2
        } else if q.0 == 2 && q.1 == 1 {
            3
        } else if q.0 == 3 && q.1 == 2 {
            4
        } else if q.0 == 1 && q.1 == 3 {
            5
        } else {
            0
        };
        proof {
            reveal(spec_index);
            lemma_complete(self@);
        }
        6 * j + g
    }

    /// Where the rotation sends a face.
    pub fn get(self, face: Face) -> (g: Face)
        requires
            self.wf(),
        ensures
            g == spec_get(self@, face),
    {
        proof {
            reveal(spec_get);
        }
        let dr = Rotation::data_rot(face);
        let m = self.mul_(dr);
        let i = m.index();
        let o = i % 6;
        match o {
            0 => Face::R,
            1 => Face::U,
            2 => Face::F,
            3 => Face::L,
            4 => Face::D,
            _ => Face::B,
        }
    }

    /// The face that `face` occupies after the cube is rotated by `self`.
    pub fn apply(self, face: Face) -> (g: Face)
        requires
            self.wf(),
        ensures
            g == spec_apply(self@, face),
    {
        proof {
            reveal(spec_apply);
        }
        self.inv().get(face)
    }

    /// The whole-cube rotation about an axis by a quarter-turn amount.
    pub fn axial(axis: Axis, by: Z4) -> (r: Rotation)
        ensures
            r@ == axial_spec(axis, by),
            r.wf(),
    {
        let r = if matches!(by, Z4::Zero) {
            Rotation { d0: 0, d1: 1, d2: 2, d3: 3 }
        } else {
            match (axis, by) {
            (Axis::X, Z4::One) => (Rotation { d0: 2, d1: 3, d2: 1, d3: 0 }),
            (Axis::X, Z4::Two) => (Rotation { d0: 1, d1: 0, d2: 3, d3: 2 }),
            (Axis::X, Z4::Three) => (Rotation { d0: 3, d1: 2, d2: 0, d3: 1 }),
            (Axis::Y, Z4::One) => (Rotation { d0: 3, d1: 0, d2: 1, d3: 2 }),
            (Axis::Y, Z4::Two) => (Rotation { d0: 2, d1: 3, d2: 0, d3: 1 }),
            (Axis::Y, Z4::Three) => (Rotation { d0: 1, d1: 2, d2: 3, d3: 0 }),
            (Axis::Z, Z4::One) => (Rotation { d0: 1, d1: 3, d2: 0, d3: 2 }),
            (Axis::Z, Z4::Two) => (Rotation { d0: 3, d1: 2, d2: 1, d3: 0 }),
            (Axis::Z, Z4::Three) => (Rotation { d0: 2, d1: 0, d2: 3, d3: 1 }),
                _ => (Rotation { d0: 0, d1: 1, d2: 2, d3: 3 }),
            }
        };
        proof {
            reveal(all_spec);
            assert(r@ =~= axial_spec(axis, by));
        }
        r
    }

    /// The axis and amount of an axial rotation; `None` when the rotation
    /// is about no single axis. The identity reports the X axis, amount
    /// zero.
    pub fn axial_part(self) -> (r: Option<(Axis, Z4)>)
        requires
            self.wf(),
        ensures
            r == axial_part_of_index(spec_index(self@)),
            r matches Some(ab) ==> self@ == axial_spec(ab.0, ab.1),
    {
        let i = self.index();
        proof {
            reveal(all_spec);
            lemma_complete(self@);
        }
        match i {
            1 => Some((Axis::X, Z4::Zero)),
            20 => Some((Axis::X, Z4::One)),
            10 => Some((Axis::X, Z4::Two)),
            17 => Some((Axis::X, Z4::Three)),
            7 => Some((Axis::Y, Z4::One)),
            13 => Some((Axis::Y, Z4::Two)),
            19 => Some((Axis::Y, Z4::Three)),
            15 => Some((Axis::Z, Z4::One)),
            22 => Some((Axis::Z, Z4::Two)),
            6 => Some((Axis::Z, Z4::Three)),
            _ => None,
        }
    }

    /// The decomposition of the rotation into at most two axial
    /// whole-cube rotations whose sequential composition equals it.
    pub fn to_axials(self) -> (v: Vec<AxialRotation>)
        requires
            self.wf(),
        ensures
            v@.len() <= 2,
            v@.len() == 0 ==> self@ == id_seq(),
            v@.len() == 1 ==> axial_spec(v@[0].axis_spec(), v@[0].by_spec()) == self@
                && v@[0].by_spec() != Z4::Zero,
            v@.len() == 2 ==> comp(
                axial_spec(v@[0].axis_spec(), v@[0].by_spec()),
                axial_spec(v@[1].axis_spec(), v@[1].by_spec()),
            ) == self@ && v@[0].by_spec() != Z4::Zero && v@[1].by_spec() != Z4::Zero,
            self@ == id_seq() ==> v@.len() == 0,
    {
        let i = self.index();
        proof {
            reveal(all_spec);
            reveal(comp);
            lemma_roundtrip(1);
            assert(all_spec(1) == id_seq());
        }
        match i {
            0 => {
                let mut v: Vec<AxialRotation> = Vec::new();
                v.push(AxialRotation::new(Axis::Z, Z4::Three));
                v.push(AxialRotation::new(Axis::Y, Z4::Three));
                proof { assert(comp(axial_spec(Axis::Z, Z4::Three), axial_spec(Axis::Y, Z4::Three)) =~= all_spec(0)); }
                v
            },
            1 => {
                let mut v: Vec<AxialRotation> = Vec::new();
                v
            },
            2 => {
                let mut v: Vec<AxialRotation> = Vec::new();
                v.push(AxialRotation::new(Axis::Y, Z4::One));
                v.push(AxialRotation::new(Axis::Z, Z4::One));
                proof { assert(comp(axial_spec(Axis::Y, Z4::One), axial_spec(Axis::Z, Z4::One)) =~= all_spec(2)); }
                v
            },
            3 => {
                let mut v: Vec<AxialRotation> = Vec::new();
                v.push(AxialRotation::new(Axis::Z, Z4::One));
                v.push(AxialRotation::new(Axis::Y, Z4::Two));
                proof { assert(comp(axial_spec(Axis::Z, Z4::One), axial_spec(Axis::Y, Z4::Two)) =~= all_spec(3)); }
                v
            },
            4 => {
                let mut v: Vec<AxialRotation> = Vec::new();
                v.push(AxialRotation::new(Axis::Y, Z4::Three));
                v.push(AxialRotation::new(Axis::Z, Z4::Two));
                proof { assert(comp(axial_spec(Axis::Y, Z4::Three), axial_spec(Axis::Z, Z4::Two)) =~= all_spec(4)); }
                v
            },
            5 => {
                let mut v: Vec<AxialRotation> = Vec::new();
                v.push(AxialRotation::new(Axis::Y, Z4::Two));
                v.push(AxialRotation::new(Axis::X, Z4::One));
                proof { assert(comp(axial_spec(Axis::Y, Z4::Two), axial_spec(Axis::X, Z4::One)) =~= all_spec(5)); }
                v
            },
            6 => {
                let mut v: Vec<AxialRotation> = Vec::new();
                v.push(AxialRotation::new(Axis::Z, Z4::Three));
                proof { assert(axial_spec(Axis::Z, Z4::Three) =~= all_spec(6)); }
                v
            },
            7 => {
                let mut v: Vec<AxialRotation> = Vec::new();
                v.push(AxialRotation::new(Axis::Y, Z4::One));
                proof { assert(axial_spec(Axis::Y, Z4::One) =~= all_spec(7)); }
                v
            },
            8 => {
                let mut v: Vec<AxialRotation> = Vec::new();
                v.push(AxialRotation::new(Axis::Y, Z4::Two));
                v.push(AxialRotation::new(Axis::X, Z4::Three));
                proof { assert(comp(axial_spec(Axis::Y, Z4::Two), axial_spec(Axis::X, Z4::Three)) =~= all_spec(8)); }
                v
            },
            9 => {
                let mut v: Vec<AxialRotation> = Vec::new();
                v.push(AxialRotation::new(Axis::Z, Z4::One));
                v.push(AxialRotation::new(Axis::Y, Z4::Three));
                proof { assert(comp(axial_spec(Axis::Z, Z4::One), axial_spec(Axis::Y, Z4::Three)) =~= all_spec(9)); }
                v
            },
            10 => {
                let mut v: Vec<AxialRotation> = Vec::new();
                v.push(AxialRotation::new(Axis::X, Z4::Two));
                proof { assert(axial_spec(Axis::X, Z4::Two) =~= all_spec(10)); }
                v
            },
            11 => {
                let mut v: Vec<AxialRotation> = Vec::new();
                v.push(AxialRotation::new(Axis::Y, Z4::Three));
                v.push(AxialRotation::new(Axis::Z, Z4::One));
                proof { assert(comp(axial_spec(Axis::Y, Z4::Three), axial_spec(Axis::Z, Z4::One)) =~= all_spec(11)); }
                v
            },
            12 => {
                let mut v: Vec<AxialRotation> = Vec::new();
                v.push(AxialRotation::new(Axis::Z, Z4::Three));
                v.push(AxialRotation::new(Axis::Y, Z4::One));
                proof { assert(comp(axial_spec(Axis::Z, Z4::Three), axial_spec(Axis::Y, Z4::One)) =~= all_spec(12)); }
                v
            },
            13 => {
                let mut v: Vec<AxialRotation> = Vec::new();
                v.push(AxialRotation::new(Axis::Y, Z4::Two));
                proof { assert(axial_spec(Axis::Y, Z4::Two) =~= all_spec(13)); }
                v
            },
            14 => {
                let mut v: Vec<AxialRotation> = Vec::new();
                v.push(AxialRotation::new(Axis::Y, Z4::Three));
                v.push(AxialRotation::new(Axis::Z, Z4::Three));
                proof { assert(comp(axial_spec(Axis::Y, Z4::Three), axial_spec(Axis::Z, Z4::Three)) =~= all_spec(14)); }
                v
            },
            15 => {
                let mut v: Vec<AxialRotation> = Vec::new();
                v.push(AxialRotation::new(Axis::Z, Z4::One));
                proof { assert(axial_spec(Axis::Z, Z4::One) =~= all_spec(15)); }
                v
            },
            16 => {
                let mut v: Vec<AxialRotation> = Vec::new();
                v.push(AxialRotation::new(Axis::Y, Z4::One));
                v.push(AxialRotation::new(Axis::Z, Z4::Two));
                proof { assert(comp(axial_spec(Axis::Y, Z4::One), axial_spec(Axis::Z, Z4::Two)) =~= all_spec(16)); }
                v
            },
            17 => {
                let mut v: Vec<AxialRotation> = Vec::new();
                v.push(AxialRotation::new(Axis::X, Z4::Three));
                proof { assert(axial_spec(Axis::X, Z4::Three) =~= all_spec(17)); }
                v
            },
            18 => {
                let mut v: Vec<AxialRotation> = Vec::new();
                v.push(AxialRotation::new(Axis::Z, Z4::Three));
                v.push(AxialRotation::new(Axis::Y, Z4::Two));
                proof { assert(comp(axial_spec(Axis::Z, Z4::Three), axial_spec(Axis::Y, Z4::Two)) =~= all_spec(18)); }
                v
            },
            19 => {
                let mut v: Vec<AxialRotation> = Vec::new();
                v.push(AxialRotation::new(Axis::Y, Z4::Three));
                proof { assert(axial_spec(Axis::Y, Z4::Three) =~= all_spec(19)); }
                v
            },
            20 => {
                let mut v: Vec<AxialRotation> = Vec::new();
                v.push(AxialRotation::new(Axis::X, Z4::One));
                proof { assert(axial_spec(Axis::X, Z4::One) =~= all_spec(20)); }
                v
            },
            21 => {
                let mut v: Vec<AxialRotation> = Vec::new();
                v.push(AxialRotation::new(Axis::Z, Z4::One));
                v.push(AxialRotation::new(Axis::Y, Z4::One));
                proof { assert(comp(axial_spec(Axis::Z, Z4::One), axial_spec(Axis::Y, Z4::One)) =~= all_spec(21)); }
                v
            },
            22 => {
                let mut v: Vec<AxialRotation> = Vec::new();
                v.push(AxialRotation::new(Axis::Z, Z4::Two));
                proof { assert(axial_spec(Axis::Z, Z4::Two) =~= all_spec(22)); }
                v
            },
            23 => {
                let mut v: Vec<AxialRotation> = Vec::new();
                v.push(AxialRotation::new(Axis::Y, Z4::One));
                v.push(AxialRotation::new(Axis::Z, Z4::Three));
                proof { assert(comp(axial_spec(Axis::Y, Z4::One), axial_spec(Axis::Z, Z4::Three)) =~= all_spec(23)); }
                v
            },
            _ => {
                proof {
                    assert(false);
                }
                let v: Vec<AxialRotation> = Vec::new();
                v
            },
        }
    }
}

impl Face {
    /// The face's image under a whole-cube rotation.
    pub fn mul(self, rhs: Rotation) -> (g: Face)
        requires
            rhs.wf(),
        ensures
            g == spec_apply(rhs@, self),
    {
        rhs.apply(self)
    }
}

impl Move {
    /// The turn relabelled by a whole-cube rotation: same amount, on the
    /// image face.
    pub fn mul(self, rhs: Rotation) -> (m: Move)
        requires
            rhs.wf(),
        ensures
            m.face_spec() == spec_apply(rhs@, self.face_spec()),
            m.by_spec() == self.by_spec(),
    {
        Move::new(self.face().mul(rhs), self.amount())
    }
}

impl Axis {
    /// The axis's image under a whole-cube rotation.
    pub fn mul(self, rhs: Rotation) -> (a: Axis)
        requires
            rhs.wf(),
        ensures
            a == spec_apply(rhs@, Face::new_spec(self, false)).axis_spec(),
    {
        Face::new(self, false).mul(rhs).axis()
    }
}

impl AxialMove {
    /// The pair relabelled by a whole-cube rotation: the axis follows the
    /// positive face, and the amounts swap when the rotation flips the
    /// axis.
    pub fn mul(self, rhs: Rotation) -> (am: AxialMove)
        requires
            rhs.wf(),
        ensures
            am == am_mul_spec(self, rhs@),
            am.wf(),
    {
        let nf = Face::new(self.axis(), false).mul(rhs);
        if nf.neg() {
            AxialMove::new(nf.axis(), self.neg(), self.pos())
        } else {
            AxialMove::new(nf.axis(), self.pos(), self.neg())
        }
    }
}

/// Two rotations that witness non-commutativity of the group.
pub proof fn lemma_noncommutative()
    ensures
        exists|i: int, j: int|
            0 <= i < 24 && 0 <= j < 24 && comp(all_spec(i), all_spec(j)) != comp(
                all_spec(j),
                all_spec(i),
            ),
{
    reveal(comp);
    reveal(all_spec);
    assert(comp(all_spec(0), all_spec(6)) =~= seq![1u8, 0u8, 2u8, 3u8]);
    assert(comp(all_spec(6), all_spec(0)) =~= seq![2u8, 1u8, 0u8, 3u8]);
    assert(comp(all_spec(0), all_spec(6)) != comp(all_spec(6), all_spec(0)));
}

} // verus!
