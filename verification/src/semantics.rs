//! An independent meaning for programs: the cube's corner stickers. The
//! 24 stickers are numbered; a face's quarter turn and each whole-cube
//! rotation permute them. A program's net effect is the composition of
//! its entries' permutations, read left to right, and the solver promises
//! that its output's net effect equals the input's.

use vstd::prelude::*;

use crate::basic::{add_spec, inv_spec, z4_neg_spec, Axis, AxialMove, Face, Move};
use crate::rotation::{
    all_spec, am_mul_spec, axial_part_of_index, axial_spec, comp, id_seq, perm_inv_spec, spec_apply, spec_index, wf_seq,
};
use crate::solver::{choice_parts, quotient_spec, MoveOrRot};
use crate::z4::Z4;

verus! {

/// A sticker permutation: 24 positions, each sent below 24.
pub open spec fn perm24(p: Seq<int>) -> bool {
    p.len() == 24 && forall|i: int| 0 <= i < 24 ==> 0 <= #[trigger] p[i] < 24
}

/// The identity sticker permutation.
pub open spec fn pid() -> Seq<int> {
    Seq::new(24, |i: int| i)
}

/// Doing `a` and then `b`: position `i` goes to `b[a[i]]`.
#[verifier::opaque]
pub open spec fn pthen(a: Seq<int>, b: Seq<int>) -> Seq<int> {
    Seq::new(24, |i: int| b[a[i]])
}

/// The sticker permutation of one clockwise quarter turn of a face.
#[verifier::opaque]
pub open spec fn quarter(f: Face) -> Seq<int> {
    match f {
        Face::R => seq![0int, 1int, 2int, 3int, 4int, 5int, 6int, 7int, 8int, 9int, 10int, 11int, 15int, 17int, 16int, 21int, 23int, 22int, 12int, 14int, 13int, 18int, 20int, 19int],
        Face::U => seq![0int, 1int, 2int, 3int, 4int, 5int, 20int, 19int, 18int, 8int, 7int, 6int, 12int, 13int, 14int, 15int, 16int, 17int, 23int, 22int, 21int, 11int, 10int, 9int],
        Face::F => seq![0int, 1int, 2int, 10int, 9int, 11int, 6int, 7int, 8int, 22int, 21int, 23int, 12int, 13int, 14int, 4int, 3int, 5int, 18int, 19int, 20int, 16int, 15int, 17int],
        Face::L => seq![6int, 8int, 7int, 0int, 2int, 1int, 9int, 11int, 10int, 3int, 5int, 4int, 12int, 13int, 14int, 15int, 16int, 17int, 18int, 19int, 20int, 21int, 22int, 23int],
        Face::D => seq![5int, 4int, 3int, 17int, 16int, 15int, 6int, 7int, 8int, 9int, 10int, 11int, 2int, 1int, 0int, 14int, 13int, 12int, 18int, 19int, 20int, 21int, 22int, 23int],
        Face::B => seq![13int, 12int, 14int, 3int, 4int, 5int, 1int, 0int, 2int, 9int, 10int, 11int, 19int, 18int, 20int, 15int, 16int, 17int, 7int, 6int, 8int, 21int, 22int, 23int],
    }
}

/// The sticker permutation of a face turn: the quarter applied `b` times.
pub open spec fn turn_of(f: Face, b: Z4) -> Seq<int> {
    match b {
        Z4::Zero => pid(),
        Z4::One => quarter(f),
        Z4::Two => pthen(quarter(f), quarter(f)),
        Z4::Three => pthen(pthen(quarter(f), quarter(f)), quarter(f)),
    }
}

/// The sticker permutation of each whole-cube rotation, by its
/// enumeration index.
#[verifier::opaque]
pub open spec fn rho_t(i: int) -> Seq<int> {
    if i == 0 {
        seq![1int, 2int, 0int, 13int, 14int, 12int, 4int, 5int, 3int, 16int, 17int, 15int, 7int, 8int, 6int, 19int, 20int, 18int, 10int, 11int, 9int, 22int, 23int, 21int]
    } else if i == 1 {
        seq![0int, 1int, 2int, 3int, 4int, 5int, 6int, 7int, 8int, 9int, 10int, 11int, 12int, 13int, 14int, 15int, 16int, 17int, 18int, 19int, 20int, 21int, 22int, 23int]
    } else if i == 2 {
        seq![2int, 0int, 1int, 8int, 6int, 7int, 14int, 12int, 13int, 20int, 18int, 19int, 5int, 3int, 4int, 11int, 9int, 10int, 17int, 15int, 16int, 23int, 21int, 22int]
    } else if i == 3 {
        seq![22int, 21int, 23int, 19int, 18int, 20int, 10int, 9int, 11int, 7int, 6int, 8int, 16int, 15int, 17int, 13int, 12int, 14int, 4int, 3int, 5int, 1int, 0int, 2int]
    } else if i == 4 {
        seq![23int, 22int, 21int, 11int, 10int, 9int, 17int, 16int, 15int, 5int, 4int, 3int, 20int, 19int, 18int, 8int, 7int, 6int, 14int, 13int, 12int, 2int, 1int, 0int]
    } else if i == 5 {
        seq![21int, 23int, 22int, 15int, 17int, 16int, 18int, 20int, 19int, 12int, 14int, 13int, 9int, 11int, 10int, 3int, 5int, 4int, 6int, 8int, 7int, 0int, 2int, 1int]
    } else if i == 6 {
        seq![13int, 12int, 14int, 16int, 15int, 17int, 1int, 0int, 2int, 4int, 3int, 5int, 19int, 18int, 20int, 22int, 21int, 23int, 7int, 6int, 8int, 10int, 9int, 11int]
    } else if i == 7 {
        seq![14int, 13int, 12int, 2int, 1int, 0int, 20int, 19int, 18int, 8int, 7int, 6int, 17int, 16int, 15int, 5int, 4int, 3int, 23int, 22int, 21int, 11int, 10int, 9int]
    } else if i == 8 {
        seq![12int, 14int, 13int, 18int, 20int, 19int, 15int, 17int, 16int, 21int, 23int, 22int, 0int, 2int, 1int, 6int, 8int, 7int, 3int, 5int, 4int, 9int, 11int, 10int]
    } else if i == 9 {
        seq![10int, 11int, 9int, 22int, 23int, 21int, 7int, 8int, 6int, 19int, 20int, 18int, 4int, 5int, 3int, 16int, 17int, 15int, 1int, 2int, 0int, 13int, 14int, 12int]
    } else if i == 10 {
        seq![9int, 10int, 11int, 6int, 7int, 8int, 3int, 4int, 5int, 0int, 1int, 2int, 21int, 22int, 23int, 18int, 19int, 20int, 15int, 16int, 17int, 12int, 13int, 14int]
    } else if i == 11 {
        seq![11int, 9int, 10int, 5int, 3int, 4int, 23int, 21int, 22int, 17int, 15int, 16int, 8int, 6int, 7int, 2int, 0int, 1int, 20int, 18int, 19int, 14int, 12int, 13int]
    } else if i == 12 {
        seq![16int, 17int, 15int, 4int, 5int, 3int, 13int, 14int, 12int, 1int, 2int, 0int, 22int, 23int, 21int, 10int, 11int, 9int, 19int, 20int, 18int, 7int, 8int, 6int]
    } else if i == 13 {
        seq![15int, 16int, 17int, 12int, 13int, 14int, 21int, 22int, 23int, 18int, 19int, 20int, 3int, 4int, 5int, 0int, 1int, 2int, 9int, 10int, 11int, 6int, 7int, 8int]
    } else if i == 14 {
        seq![17int, 15int, 16int, 23int, 21int, 22int, 5int, 3int, 4int, 11int, 9int, 10int, 14int, 12int, 13int, 20int, 18int, 19int, 2int, 0int, 1int, 8int, 6int, 7int]
    } else if i == 15 {
        seq![7int, 6int, 8int, 10int, 9int, 11int, 19int, 18int, 20int, 22int, 21int, 23int, 1int, 0int, 2int, 4int, 3int, 5int, 13int, 12int, 14int, 16int, 15int, 17int]
    } else if i == 16 {
        seq![8int, 7int, 6int, 20int, 19int, 18int, 2int, 1int, 0int, 14int, 13int, 12int, 11int, 10int, 9int, 23int, 22int, 21int, 5int, 4int, 3int, 17int, 16int, 15int]
    } else if i == 17 {
        seq![6int, 8int, 7int, 0int, 2int, 1int, 9int, 11int, 10int, 3int, 5int, 4int, 18int, 20int, 19int, 12int, 14int, 13int, 21int, 23int, 22int, 15int, 17int, 16int]
    } else if i == 18 {
        seq![4int, 3int, 5int, 1int, 0int, 2int, 16int, 15int, 17int, 13int, 12int, 14int, 10int, 9int, 11int, 7int, 6int, 8int, 22int, 21int, 23int, 19int, 18int, 20int]
    } else if i == 19 {
        seq![5int, 4int, 3int, 17int, 16int, 15int, 11int, 10int, 9int, 23int, 22int, 21int, 2int, 1int, 0int, 14int, 13int, 12int, 8int, 7int, 6int, 20int, 19int, 18int]
    } else if i == 20 {
        seq![3int, 5int, 4int, 9int, 11int, 10int, 0int, 2int, 1int, 6int, 8int, 7int, 15int, 17int, 16int, 21int, 23int, 22int, 12int, 14int, 13int, 18int, 20int, 19int]
    } else if i == 21 {
        seq![19int, 20int, 18int, 7int, 8int, 6int, 22int, 23int, 21int, 10int, 11int, 9int, 13int, 14int, 12int, 1int, 2int, 0int, 16int, 17int, 15int, 4int, 5int, 3int]
    } else if i == 22 {
        seq![18int, 19int, 20int, 21int, 22int, 23int, 12int, 13int, 14int, 15int, 16int, 17int, 6int, 7int, 8int, 9int, 10int, 11int, 0int, 1int, 2int, 3int, 4int, 5int]
    } else {
        seq![20int, 18int, 19int, 14int, 12int, 13int, 8int, 6int, 7int, 2int, 0int, 1int, 23int, 21int, 22int, 17int, 15int, 16int, 11int, 9int, 10int, 5int, 3int, 4int]
    }
}

/// The sticker permutation of a whole-cube rotation.
pub open spec fn rho(p: Seq<u8>) -> Seq<int> {
    rho_t(spec_index(p))
}

/// The sticker permutation of an axial move: its two face turns.
pub open spec fn aw(am: AxialMove) -> Seq<int> {
    pthen(
        turn_of(Face::new_spec(am.axis_spec(), false), am.pos_spec()),
        turn_of(Face::new_spec(am.axis_spec(), true), am.neg_spec()),
    )
}

/// The net effect of an input interval: its turns in order.
pub open spec fn word_of(alg: Seq<Move>, l: int, r: int) -> Seq<int>
    decreases r - l,
{
    if l >= r {
        pid()
    } else {
        pthen(turn_of(alg[l].face_spec(), alg[l].by_spec()), word_of(alg, l + 1, r))
    }
}

/// The net effect of one program entry.
pub open spec fn entry_sem(e: MoveOrRot) -> Seq<int> {
    match e {
        MoveOrRot::Move(m) => turn_of(m.face_spec(), m.by_spec()),
        MoveOrRot::Rot(r) => rho(r@),
    }
}

/// The net effect of a program: its entries in order.
pub open spec fn prog_sem(s: Seq<MoveOrRot>) -> Seq<int>
    decreases s.len(),
{
    if s.len() == 0 {
        pid()
    } else {
        pthen(prog_sem(s.drop_last()), entry_sem(s.last()))
    }
}

/// What a solver state owes: its rotation, then its pending axial move,
/// then its input interval.
pub open spec fn state_sem(alg: Seq<Move>, l: int, r: int, rot: Seq<u8>, ax: AxialMove) -> Seq<
    int,
> {
    pthen(rho(rot), pthen(aw(ax), word_of(alg, l, r)))
}

/// Composition of sticker permutations associates.
pub proof fn lemma_pthen_assoc(a: Seq<int>, b: Seq<int>, c: Seq<int>)
    requires
        perm24(a),
    ensures
        pthen(pthen(a, b), c) == pthen(a, pthen(b, c)),
{
    reveal(pthen);
    assert(pthen(pthen(a, b), c) =~= pthen(a, pthen(b, c)));
}

/// The identity permutation is neutral.
pub proof fn lemma_pid(x: Seq<int>)
    requires
        perm24(x),
    ensures
        pthen(pid(), x) == x,
        pthen(x, pid()) == x,
        perm24(pid()),
{
    reveal(pthen);
    assert(pthen(pid(), x) =~= x);
    assert(pthen(x, pid()) =~= x);
}

/// Composition preserves sticker permutations.
pub proof fn lemma_pthen_wf(a: Seq<int>, b: Seq<int>)
    requires
        perm24(a),
        perm24(b),
    ensures
        perm24(pthen(a, b)),
{
    reveal(pthen);
}

/// Each quarter turn is a sticker permutation.
pub proof fn lemma_quarter_wf(f: Face)
    ensures
        perm24(quarter(f)),
{
    reveal(quarter);
    assert(perm24(quarter(Face::R)));
    assert(perm24(quarter(Face::U)));
    assert(perm24(quarter(Face::F)));
    assert(perm24(quarter(Face::L)));
    assert(perm24(quarter(Face::D)));
    assert(perm24(quarter(Face::B)));
}

/// Each rotation's table is a sticker permutation.
pub proof fn lemma_rho_wf(i: int)
    ensures
        perm24(rho_t(i)),
{
    reveal(rho_t);
    assert(perm24(rho_t(24)));
    assert(perm24(rho_t(0)));
    assert(perm24(rho_t(1)));
    assert(perm24(rho_t(2)));
    assert(perm24(rho_t(3)));
    assert(perm24(rho_t(4)));
    assert(perm24(rho_t(5)));
    assert(perm24(rho_t(6)));
    assert(perm24(rho_t(7)));
    assert(perm24(rho_t(8)));
    assert(perm24(rho_t(9)));
    assert(perm24(rho_t(10)));
    assert(perm24(rho_t(11)));
    assert(perm24(rho_t(12)));
    assert(perm24(rho_t(13)));
    assert(perm24(rho_t(14)));
    assert(perm24(rho_t(15)));
    assert(perm24(rho_t(16)));
    assert(perm24(rho_t(17)));
    assert(perm24(rho_t(18)));
    assert(perm24(rho_t(19)));
    assert(perm24(rho_t(20)));
    assert(perm24(rho_t(21)));
    assert(perm24(rho_t(22)));
    assert(perm24(rho_t(23)));
}

/// A face turn is a sticker permutation.
pub proof fn lemma_turn_wf(f: Face, b: Z4)
    ensures
        perm24(turn_of(f, b)),
{
    lemma_quarter_wf(f);
    lemma_pid(quarter(f));
    lemma_pthen_wf(quarter(f), quarter(f));
    lemma_pthen_wf(pthen(quarter(f), quarter(f)), quarter(f));
}

/// An axial move is a sticker permutation.
pub proof fn lemma_aw_wf(am: AxialMove)
    ensures
        perm24(aw(am)),
{
    lemma_turn_wf(Face::new_spec(am.axis_spec(), false), am.pos_spec());
    lemma_turn_wf(Face::new_spec(am.axis_spec(), true), am.neg_spec());
    lemma_pthen_wf(
        turn_of(Face::new_spec(am.axis_spec(), false), am.pos_spec()),
        turn_of(Face::new_spec(am.axis_spec(), true), am.neg_spec()),
    );
}

/// An input interval's net effect is a sticker permutation.
pub proof fn lemma_word_wf(alg: Seq<Move>, l: int, r: int)
    ensures
        perm24(word_of(alg, l, r)),
    decreases r - l,
{
    if l >= r {
        lemma_pid(pid());
        assert(perm24(pid())) by {
            reveal(pthen);
        }
    } else {
        lemma_word_wf(alg, l + 1, r);
        lemma_turn_wf(alg[l].face_spec(), alg[l].by_spec());
        lemma_pthen_wf(
            turn_of(alg[l].face_spec(), alg[l].by_spec()),
            word_of(alg, l + 1, r),
        );
    }
}

proof fn lemma_turn_add_r(a: Z4, b: Z4)
    ensures
        pthen(turn_of(Face::R, a), turn_of(Face::R, b)) == turn_of(
            Face::R,
            crate::basic::z4_add_spec(a, b),
        ),
{
    reveal(pthen);
    reveal(quarter);
    assert(pthen(turn_of(Face::R, Z4::Zero), turn_of(Face::R, Z4::Zero)) =~= turn_of(Face::R, Z4::Zero));
    assert(pthen(turn_of(Face::R, Z4::Zero), turn_of(Face::R, Z4::One)) =~= turn_of(Face::R, Z4::One));
    assert(pthen(turn_of(Face::R, Z4::Zero), turn_of(Face::R, Z4::Two)) =~= turn_of(Face::R, Z4::Two));
    assert(pthen(turn_of(Face::R, Z4::Zero), turn_of(Face::R, Z4::Three)) =~= turn_of(Face::R, Z4::Three));
    assert(pthen(turn_of(Face::R, Z4::One), turn_of(Face::R, Z4::Zero)) =~= turn_of(Face::R, Z4::One));
    assert(pthen(turn_of(Face::R, Z4::One), turn_of(Face::R, Z4::One)) =~= turn_of(Face::R, Z4::Two));
    assert(pthen(turn_of(Face::R, Z4::One), turn_of(Face::R, Z4::Two)) =~= turn_of(Face::R, Z4::Three));
    assert(pthen(turn_of(Face::R, Z4::One), turn_of(Face::R, Z4::Three)) =~= turn_of(Face::R, Z4::Zero));
    assert(pthen(turn_of(Face::R, Z4::Two), turn_of(Face::R, Z4::Zero)) =~= turn_of(Face::R, Z4::Two));
    assert(pthen(turn_of(Face::R, Z4::Two), turn_of(Face::R, Z4::One)) =~= turn_of(Face::R, Z4::Three));
    assert(pthen(turn_of(Face::R, Z4::Two), turn_of(Face::R, Z4::Two)) =~= turn_of(Face::R, Z4::Zero));
    assert(pthen(turn_of(Face::R, Z4::Two), turn_of(Face::R, Z4::Three)) =~= turn_of(Face::R, Z4::One));
    assert(pthen(turn_of(Face::R, Z4::Three), turn_of(Face::R, Z4::Zero)) =~= turn_of(Face::R, Z4::Three));
    assert(pthen(turn_of(Face::R, Z4::Three), turn_of(Face::R, Z4::One)) =~= turn_of(Face::R, Z4::Zero));
    assert(pthen(turn_of(Face::R, Z4::Three), turn_of(Face::R, Z4::Two)) =~= turn_of(Face::R, Z4::One));
    assert(pthen(turn_of(Face::R, Z4::Three), turn_of(Face::R, Z4::Three)) =~= turn_of(Face::R, Z4::Two));
}

proof fn lemma_turn_add_u(a: Z4, b: Z4)
    ensures
        pthen(turn_of(Face::U, a), turn_of(Face::U, b)) == turn_of(
            Face::U,
            crate::basic::z4_add_spec(a, b),
        ),
{
    reveal(pthen);
    reveal(quarter);
    assert(pthen(turn_of(Face::U, Z4::Zero), turn_of(Face::U, Z4::Zero)) =~= turn_of(Face::U, Z4::Zero));
    assert(pthen(turn_of(Face::U, Z4::Zero), turn_of(Face::U, Z4::One)) =~= turn_of(Face::U, Z4::One));
    assert(pthen(turn_of(Face::U, Z4::Zero), turn_of(Face::U, Z4::Two)) =~= turn_of(Face::U, Z4::Two));
    assert(pthen(turn_of(Face::U, Z4::Zero), turn_of(Face::U, Z4::Three)) =~= turn_of(Face::U, Z4::Three));
    assert(pthen(turn_of(Face::U, Z4::One), turn_of(Face::U, Z4::Zero)) =~= turn_of(Face::U, Z4::One));
    assert(pthen(turn_of(Face::U, Z4::One), turn_of(Face::U, Z4::One)) =~= turn_of(Face::U, Z4::Two));
    assert(pthen(turn_of(Face::U, Z4::One), turn_of(Face::U, Z4::Two)) =~= turn_of(Face::U, Z4::Three));
    assert(pthen(turn_of(Face::U, Z4::One), turn_of(Face::U, Z4::Three)) =~= turn_of(Face::U, Z4::Zero));
    assert(pthen(turn_of(Face::U, Z4::Two), turn_of(Face::U, Z4::Zero)) =~= turn_of(Face::U, Z4::Two));
    assert(pthen(turn_of(Face::U, Z4::Two), turn_of(Face::U, Z4::One)) =~= turn_of(Face::U, Z4::Three));
    assert(pthen(turn_of(Face::U, Z4::Two), turn_of(Face::U, Z4::Two)) =~= turn_of(Face::U, Z4::Zero));
    assert(pthen(turn_of(Face::U, Z4::Two), turn_of(Face::U, Z4::Three)) =~= turn_of(Face::U, Z4::One));
    assert(pthen(turn_of(Face::U, Z4::Three), turn_of(Face::U, Z4::Zero)) =~= turn_of(Face::U, Z4::Three));
    assert(pthen(turn_of(Face::U, Z4::Three), turn_of(Face::U, Z4::One)) =~= turn_of(Face::U, Z4::Zero));
    assert(pthen(turn_of(Face::U, Z4::Three), turn_of(Face::U, Z4::Two)) =~= turn_of(Face::U, Z4::One));
    assert(pthen(turn_of(Face::U, Z4::Three), turn_of(Face::U, Z4::Three)) =~= turn_of(Face::U, Z4::Two));
}

proof fn lemma_turn_add_f(a: Z4, b: Z4)
    ensures
        pthen(turn_of(Face::F, a), turn_of(Face::F, b)) == turn_of(
            Face::F,
            crate::basic::z4_add_spec(a, b),
        ),
{
    reveal(pthen);
    reveal(quarter);
    assert(pthen(turn_of(Face::F, Z4::Zero), turn_of(Face::F, Z4::Zero)) =~= turn_of(Face::F, Z4::Zero));
    assert(pthen(turn_of(Face::F, Z4::Zero), turn_of(Face::F, Z4::One)) =~= turn_of(Face::F, Z4::One));
    assert(pthen(turn_of(Face::F, Z4::Zero), turn_of(Face::F, Z4::Two)) =~= turn_of(Face::F, Z4::Two));
    assert(pthen(turn_of(Face::F, Z4::Zero), turn_of(Face::F, Z4::Three)) =~= turn_of(Face::F, Z4::Three));
    assert(pthen(turn_of(Face::F, Z4::One), turn_of(Face::F, Z4::Zero)) =~= turn_of(Face::F, Z4::One));
    assert(pthen(turn_of(Face::F, Z4::One), turn_of(Face::F, Z4::One)) =~= turn_of(Face::F, Z4::Two));
    assert(pthen(turn_of(Face::F, Z4::One), turn_of(Face::F, Z4::Two)) =~= turn_of(Face::F, Z4::Three));
    assert(pthen(turn_of(Face::F, Z4::One), turn_of(Face::F, Z4::Three)) =~= turn_of(Face::F, Z4::Zero));
    assert(pthen(turn_of(Face::F, Z4::Two), turn_of(Face::F, Z4::Zero)) =~= turn_of(Face::F, Z4::Two));
    assert(pthen(turn_of(Face::F, Z4::Two), turn_of(Face::F, Z4::One)) =~= turn_of(Face::F, Z4::Three));
    assert(pthen(turn_of(Face::F, Z4::Two), turn_of(Face::F, Z4::Two)) =~= turn_of(Face::F, Z4::Zero));
    assert(pthen(turn_of(Face::F, Z4::Two), turn_of(Face::F, Z4::Three)) =~= turn_of(Face::F, Z4::One));
    assert(pthen(turn_of(Face::F, Z4::Three), turn_of(Face::F, Z4::Zero)) =~= turn_of(Face::F, Z4::Three));
    assert(pthen(turn_of(Face::F, Z4::Three), turn_of(Face::F, Z4::One)) =~= turn_of(Face::F, Z4::Zero));
    assert(pthen(turn_of(Face::F, Z4::Three), turn_of(Face::F, Z4::Two)) =~= turn_of(Face::F, Z4::One));
    assert(pthen(turn_of(Face::F, Z4::Three), turn_of(Face::F, Z4::Three)) =~= turn_of(Face::F, Z4::Two));
}

proof fn lemma_turn_add_l(a: Z4, b: Z4)
    ensures
        pthen(turn_of(Face::L, a), turn_of(Face::L, b)) == turn_of(
            Face::L,
            crate::basic::z4_add_spec(a, b),
        ),
{
    reveal(pthen);
    reveal(quarter);
    assert(pthen(turn_of(Face::L, Z4::Zero), turn_of(Face::L, Z4::Zero)) =~= turn_of(Face::L, Z4::Zero));
    assert(pthen(turn_of(Face::L, Z4::Zero), turn_of(Face::L, Z4::One)) =~= turn_of(Face::L, Z4::One));
    assert(pthen(turn_of(Face::L, Z4::Zero), turn_of(Face::L, Z4::Two)) =~= turn_of(Face::L, Z4::Two));
    assert(pthen(turn_of(Face::L, Z4::Zero), turn_of(Face::L, Z4::Three)) =~= turn_of(Face::L, Z4::Three));
    assert(pthen(turn_of(Face::L, Z4::One), turn_of(Face::L, Z4::Zero)) =~= turn_of(Face::L, Z4::One));
    assert(pthen(turn_of(Face::L, Z4::One), turn_of(Face::L, Z4::One)) =~= turn_of(Face::L, Z4::Two));
    assert(pthen(turn_of(Face::L, Z4::One), turn_of(Face::L, Z4::Two)) =~= turn_of(Face::L, Z4::Three));
    assert(pthen(turn_of(Face::L, Z4::One), turn_of(Face::L, Z4::Three)) =~= turn_of(Face::L, Z4::Zero));
    assert(pthen(turn_of(Face::L, Z4::Two), turn_of(Face::L, Z4::Zero)) =~= turn_of(Face::L, Z4::Two));
    assert(pthen(turn_of(Face::L, Z4::Two), turn_of(Face::L, Z4::One)) =~= turn_of(Face::L, Z4::Three));
    assert(pthen(turn_of(Face::L, Z4::Two), turn_of(Face::L, Z4::Two)) =~= turn_of(Face::L, Z4::Zero));
    assert(pthen(turn_of(Face::L, Z4::Two), turn_of(Face::L, Z4::Three)) =~= turn_of(Face::L, Z4::One));
    assert(pthen(turn_of(Face::L, Z4::Three), turn_of(Face::L, Z4::Zero)) =~= turn_of(Face::L, Z4::Three));
    assert(pthen(turn_of(Face::L, Z4::Three), turn_of(Face::L, Z4::One)) =~= turn_of(Face::L, Z4::Zero));
    assert(pthen(turn_of(Face::L, Z4::Three), turn_of(Face::L, Z4::Two)) =~= turn_of(Face::L, Z4::One));
    assert(pthen(turn_of(Face::L, Z4::Three), turn_of(Face::L, Z4::Three)) =~= turn_of(Face::L, Z4::Two));
}

proof fn lemma_turn_add_d(a: Z4, b: Z4)
    ensures
        pthen(turn_of(Face::D, a), turn_of(Face::D, b)) == turn_of(
            Face::D,
            crate::basic::z4_add_spec(a, b),
        ),
{
    reveal(pthen);
    reveal(quarter);
    assert(pthen(turn_of(Face::D, Z4::Zero), turn_of(Face::D, Z4::Zero)) =~= turn_of(Face::D, Z4::Zero));
    assert(pthen(turn_of(Face::D, Z4::Zero), turn_of(Face::D, Z4::One)) =~= turn_of(Face::D, Z4::One));
    assert(pthen(turn_of(Face::D, Z4::Zero), turn_of(Face::D, Z4::Two)) =~= turn_of(Face::D, Z4::Two));
    assert(pthen(turn_of(Face::D, Z4::Zero), turn_of(Face::D, Z4::Three)) =~= turn_of(Face::D, Z4::Three));
    assert(pthen(turn_of(Face::D, Z4::One), turn_of(Face::D, Z4::Zero)) =~= turn_of(Face::D, Z4::One));
    assert(pthen(turn_of(Face::D, Z4::One), turn_of(Face::D, Z4::One)) =~= turn_of(Face::D, Z4::Two));
    assert(pthen(turn_of(Face::D, Z4::One), turn_of(Face::D, Z4::Two)) =~= turn_of(Face::D, Z4::Three));
    assert(pthen(turn_of(Face::D, Z4::One), turn_of(Face::D, Z4::Three)) =~= turn_of(Face::D, Z4::Zero));
    assert(pthen(turn_of(Face::D, Z4::Two), turn_of(Face::D, Z4::Zero)) =~= turn_of(Face::D, Z4::Two));
    assert(pthen(turn_of(Face::D, Z4::Two), turn_of(Face::D, Z4::One)) =~= turn_of(Face::D, Z4::Three));
    assert(pthen(turn_of(Face::D, Z4::Two), turn_of(Face::D, Z4::Two)) =~= turn_of(Face::D, Z4::Zero));
    assert(pthen(turn_of(Face::D, Z4::Two), turn_of(Face::D, Z4::Three)) =~= turn_of(Face::D, Z4::One));
    assert(pthen(turn_of(Face::D, Z4::Three), turn_of(Face::D, Z4::Zero)) =~= turn_of(Face::D, Z4::Three));
    assert(pthen(turn_of(Face::D, Z4::Three), turn_of(Face::D, Z4::One)) =~= turn_of(Face::D, Z4::Zero));
    assert(pthen(turn_of(Face::D, Z4::Three), turn_of(Face::D, Z4::Two)) =~= turn_of(Face::D, Z4::One));
    assert(pthen(turn_of(Face::D, Z4::Three), turn_of(Face::D, Z4::Three)) =~= turn_of(Face::D, Z4::Two));
}

proof fn lemma_turn_add_b(a: Z4, b: Z4)
    ensures
        pthen(turn_of(Face::B, a), turn_of(Face::B, b)) == turn_of(
            Face::B,
            crate::basic::z4_add_spec(a, b),
        ),
{
    reveal(pthen);
    reveal(quarter);
    assert(pthen(turn_of(Face::B, Z4::Zero), turn_of(Face::B, Z4::Zero)) =~= turn_of(Face::B, Z4::Zero));
    assert(pthen(turn_of(Face::B, Z4::Zero), turn_of(Face::B, Z4::One)) =~= turn_of(Face::B, Z4::One));
    assert(pthen(turn_of(Face::B, Z4::Zero), turn_of(Face::B, Z4::Two)) =~= turn_of(Face::B, Z4::Two));
    assert(pthen(turn_of(Face::B, Z4::Zero), turn_of(Face::B, Z4::Three)) =~= turn_of(Face::B, Z4::Three));
    assert(pthen(turn_of(Face::B, Z4::One), turn_of(Face::B, Z4::Zero)) =~= turn_of(Face::B, Z4::One));
    assert(pthen(turn_of(Face::B, Z4::One), turn_of(Face::B, Z4::One)) =~= turn_of(Face::B, Z4::Two));
    assert(pthen(turn_of(Face::B, Z4::One), turn_of(Face::B, Z4::Two)) =~= turn_of(Face::B, Z4::Three));
    assert(pthen(turn_of(Face::B, Z4::One), turn_of(Face::B, Z4::Three)) =~= turn_of(Face::B, Z4::Zero));
    assert(pthen(turn_of(Face::B, Z4::Two), turn_of(Face::B, Z4::Zero)) =~= turn_of(Face::B, Z4::Two));
    assert(pthen(turn_of(Face::B, Z4::Two), turn_of(Face::B, Z4::One)) =~= turn_of(Face::B, Z4::Three));
    assert(pthen(turn_of(Face::B, Z4::Two), turn_of(Face::B, Z4::Two)) =~= turn_of(Face::B, Z4::Zero));
    assert(pthen(turn_of(Face::B, Z4::Two), turn_of(Face::B, Z4::Three)) =~= turn_of(Face::B, Z4::One));
    assert(pthen(turn_of(Face::B, Z4::Three), turn_of(Face::B, Z4::Zero)) =~= turn_of(Face::B, Z4::Three));
    assert(pthen(turn_of(Face::B, Z4::Three), turn_of(Face::B, Z4::One)) =~= turn_of(Face::B, Z4::Zero));
    assert(pthen(turn_of(Face::B, Z4::Three), turn_of(Face::B, Z4::Two)) =~= turn_of(Face::B, Z4::One));
    assert(pthen(turn_of(Face::B, Z4::Three), turn_of(Face::B, Z4::Three)) =~= turn_of(Face::B, Z4::Two));
}

/// Turns of one face compose by adding their amounts.
pub proof fn lemma_turn_add(f: Face, a: Z4, b: Z4)
    ensures
        pthen(turn_of(f, a), turn_of(f, b)) == turn_of(f, crate::basic::z4_add_spec(a, b)),
{
    match f {
        Face::R => lemma_turn_add_r(a, b),
        Face::U => lemma_turn_add_u(a, b),
        Face::F => lemma_turn_add_f(a, b),
        Face::L => lemma_turn_add_l(a, b),
        Face::D => lemma_turn_add_d(a, b),
        Face::B => lemma_turn_add_b(a, b),
    }
}

proof fn lemma_coax_commute_x(a: Z4, b: Z4)
    ensures
        pthen(turn_of(Face::new_spec(Axis::X, false), a), turn_of(
            Face::new_spec(Axis::X, true),
            b,
        )) == pthen(turn_of(Face::new_spec(Axis::X, true), b), turn_of(
            Face::new_spec(Axis::X, false),
            a,
        )),
{
    reveal(pthen);
    reveal(quarter);
    assert(pthen(turn_of(Face::R, Z4::Zero), turn_of(Face::L, Z4::Zero)) =~= pthen(turn_of(Face::L, Z4::Zero), turn_of(Face::R, Z4::Zero)));
    assert(pthen(turn_of(Face::R, Z4::Zero), turn_of(Face::L, Z4::One)) =~= pthen(turn_of(Face::L, Z4::One), turn_of(Face::R, Z4::Zero)));
    assert(pthen(turn_of(Face::R, Z4::Zero), turn_of(Face::L, Z4::Two)) =~= pthen(turn_of(Face::L, Z4::Two), turn_of(Face::R, Z4::Zero)));
    assert(pthen(turn_of(Face::R, Z4::Zero), turn_of(Face::L, Z4::Three)) =~= pthen(turn_of(Face::L, Z4::Three), turn_of(Face::R, Z4::Zero)));
    assert(pthen(turn_of(Face::R, Z4::One), turn_of(Face::L, Z4::Zero)) =~= pthen(turn_of(Face::L, Z4::Zero), turn_of(Face::R, Z4::One)));
    assert(pthen(turn_of(Face::R, Z4::One), turn_of(Face::L, Z4::One)) =~= pthen(turn_of(Face::L, Z4::One), turn_of(Face::R, Z4::One)));
    assert(pthen(turn_of(Face::R, Z4::One), turn_of(Face::L, Z4::Two)) =~= pthen(turn_of(Face::L, Z4::Two), turn_of(Face::R, Z4::One)));
    assert(pthen(turn_of(Face::R, Z4::One), turn_of(Face::L, Z4::Three)) =~= pthen(turn_of(Face::L, Z4::Three), turn_of(Face::R, Z4::One)));
    assert(pthen(turn_of(Face::R, Z4::Two), turn_of(Face::L, Z4::Zero)) =~= pthen(turn_of(Face::L, Z4::Zero), turn_of(Face::R, Z4::Two)));
    assert(pthen(turn_of(Face::R, Z4::Two), turn_of(Face::L, Z4::One)) =~= pthen(turn_of(Face::L, Z4::One), turn_of(Face::R, Z4::Two)));
    assert(pthen(turn_of(Face::R, Z4::Two), turn_of(Face::L, Z4::Two)) =~= pthen(turn_of(Face::L, Z4::Two), turn_of(Face::R, Z4::Two)));
    assert(pthen(turn_of(Face::R, Z4::Two), turn_of(Face::L, Z4::Three)) =~= pthen(turn_of(Face::L, Z4::Three), turn_of(Face::R, Z4::Two)));
    assert(pthen(turn_of(Face::R, Z4::Three), turn_of(Face::L, Z4::Zero)) =~= pthen(turn_of(Face::L, Z4::Zero), turn_of(Face::R, Z4::Three)));
    assert(pthen(turn_of(Face::R, Z4::Three), turn_of(Face::L, Z4::One)) =~= pthen(turn_of(Face::L, Z4::One), turn_of(Face::R, Z4::Three)));
    assert(pthen(turn_of(Face::R, Z4::Three), turn_of(Face::L, Z4::Two)) =~= pthen(turn_of(Face::L, Z4::Two), turn_of(Face::R, Z4::Three)));
    assert(pthen(turn_of(Face::R, Z4::Three), turn_of(Face::L, Z4::Three)) =~= pthen(turn_of(Face::L, Z4::Three), turn_of(Face::R, Z4::Three)));
}

proof fn lemma_coax_commute_y(a: Z4, b: Z4)
    ensures
        pthen(turn_of(Face::new_spec(Axis::Y, false), a), turn_of(
            Face::new_spec(Axis::Y, true),
            b,
        )) == pthen(turn_of(Face::new_spec(Axis::Y, true), b), turn_of(
            Face::new_spec(Axis::Y, false),
            a,
        )),
{
    reveal(pthen);
    reveal(quarter);
    assert(pthen(turn_of(Face::U, Z4::Zero), turn_of(Face::D, Z4::Zero)) =~= pthen(turn_of(Face::D, Z4::Zero), turn_of(Face::U, Z4::Zero)));
    assert(pthen(turn_of(Face::U, Z4::Zero), turn_of(Face::D, Z4::One)) =~= pthen(turn_of(Face::D, Z4::One), turn_of(Face::U, Z4::Zero)));
    assert(pthen(turn_of(Face::U, Z4::Zero), turn_of(Face::D, Z4::Two)) =~= pthen(turn_of(Face::D, Z4::Two), turn_of(Face::U, Z4::Zero)));
    assert(pthen(turn_of(Face::U, Z4::Zero), turn_of(Face::D, Z4::Three)) =~= pthen(turn_of(Face::D, Z4::Three), turn_of(Face::U, Z4::Zero)));
    assert(pthen(turn_of(Face::U, Z4::One), turn_of(Face::D, Z4::Zero)) =~= pthen(turn_of(Face::D, Z4::Zero), turn_of(Face::U, Z4::One)));
    assert(pthen(turn_of(Face::U, Z4::One), turn_of(Face::D, Z4::One)) =~= pthen(turn_of(Face::D, Z4::One), turn_of(Face::U, Z4::One)));
    assert(pthen(turn_of(Face::U, Z4::One), turn_of(Face::D, Z4::Two)) =~= pthen(turn_of(Face::D, Z4::Two), turn_of(Face::U, Z4::One)));
    assert(pthen(turn_of(Face::U, Z4::One), turn_of(Face::D, Z4::Three)) =~= pthen(turn_of(Face::D, Z4::Three), turn_of(Face::U, Z4::One)));
    assert(pthen(turn_of(Face::U, Z4::Two), turn_of(Face::D, Z4::Zero)) =~= pthen(turn_of(Face::D, Z4::Zero), turn_of(Face::U, Z4::Two)));
    assert(pthen(turn_of(Face::U, Z4::Two), turn_of(Face::D, Z4::One)) =~= pthen(turn_of(Face::D, Z4::One), turn_of(Face::U, Z4::Two)));
    assert(pthen(turn_of(Face::U, Z4::Two), turn_of(Face::D, Z4::Two)) =~= pthen(turn_of(Face::D, Z4::Two), turn_of(Face::U, Z4::Two)));
    assert(pthen(turn_of(Face::U, Z4::Two), turn_of(Face::D, Z4::Three)) =~= pthen(turn_of(Face::D, Z4::Three), turn_of(Face::U, Z4::Two)));
    assert(pthen(turn_of(Face::U, Z4::Three), turn_of(Face::D, Z4::Zero)) =~= pthen(turn_of(Face::D, Z4::Zero), turn_of(Face::U, Z4::Three)));
    assert(pthen(turn_of(Face::U, Z4::Three), turn_of(Face::D, Z4::One)) =~= pthen(turn_of(Face::D, Z4::One), turn_of(Face::U, Z4::Three)));
    assert(pthen(turn_of(Face::U, Z4::Three), turn_of(Face::D, Z4::Two)) =~= pthen(turn_of(Face::D, Z4::Two), turn_of(Face::U, Z4::Three)));
    assert(pthen(turn_of(Face::U, Z4::Three), turn_of(Face::D, Z4::Three)) =~= pthen(turn_of(Face::D, Z4::Three), turn_of(Face::U, Z4::Three)));
}

proof fn lemma_coax_commute_z(a: Z4, b: Z4)
    ensures
        pthen(turn_of(Face::new_spec(Axis::Z, false), a), turn_of(
            Face::new_spec(Axis::Z, true),
            b,
        )) == pthen(turn_of(Face::new_spec(Axis::Z, true), b), turn_of(
            Face::new_spec(Axis::Z, false),
            a,
        )),
{
    reveal(pthen);
    reveal(quarter);
    assert(pthen(turn_of(Face::F, Z4::Zero), turn_of(Face::B, Z4::Zero)) =~= pthen(turn_of(Face::B, Z4::Zero), turn_of(Face::F, Z4::Zero)));
    assert(pthen(turn_of(Face::F, Z4::Zero), turn_of(Face::B, Z4::One)) =~= pthen(turn_of(Face::B, Z4::One), turn_of(Face::F, Z4::Zero)));
    assert(pthen(turn_of(Face::F, Z4::Zero), turn_of(Face::B, Z4::Two)) =~= pthen(turn_of(Face::B, Z4::Two), turn_of(Face::F, Z4::Zero)));
    assert(pthen(turn_of(Face::F, Z4::Zero), turn_of(Face::B, Z4::Three)) =~= pthen(turn_of(Face::B, Z4::Three), turn_of(Face::F, Z4::Zero)));
    assert(pthen(turn_of(Face::F, Z4::One), turn_of(Face::B, Z4::Zero)) =~= pthen(turn_of(Face::B, Z4::Zero), turn_of(Face::F, Z4::One)));
    assert(pthen(turn_of(Face::F, Z4::One), turn_of(Face::B, Z4::One)) =~= pthen(turn_of(Face::B, Z4::One), turn_of(Face::F, Z4::One)));
    assert(pthen(turn_of(Face::F, Z4::One), turn_of(Face::B, Z4::Two)) =~= pthen(turn_of(Face::B, Z4::Two), turn_of(Face::F, Z4::One)));
    assert(pthen(turn_of(Face::F, Z4::One), turn_of(Face::B, Z4::Three)) =~= pthen(turn_of(Face::B, Z4::Three), turn_of(Face::F, Z4::One)));
    assert(pthen(turn_of(Face::F, Z4::Two), turn_of(Face::B, Z4::Zero)) =~= pthen(turn_of(Face::B, Z4::Zero), turn_of(Face::F, Z4::Two)));
    assert(pthen(turn_of(Face::F, Z4::Two), turn_of(Face::B, Z4::One)) =~= pthen(turn_of(Face::B, Z4::One), turn_of(Face::F, Z4::Two)));
    assert(pthen(turn_of(Face::F, Z4::Two), turn_of(Face::B, Z4::Two)) =~= pthen(turn_of(Face::B, Z4::Two), turn_of(Face::F, Z4::Two)));
    assert(pthen(turn_of(Face::F, Z4::Two), turn_of(Face::B, Z4::Three)) =~= pthen(turn_of(Face::B, Z4::Three), turn_of(Face::F, Z4::Two)));
    assert(pthen(turn_of(Face::F, Z4::Three), turn_of(Face::B, Z4::Zero)) =~= pthen(turn_of(Face::B, Z4::Zero), turn_of(Face::F, Z4::Three)));
    assert(pthen(turn_of(Face::F, Z4::Three), turn_of(Face::B, Z4::One)) =~= pthen(turn_of(Face::B, Z4::One), turn_of(Face::F, Z4::Three)));
    assert(pthen(turn_of(Face::F, Z4::Three), turn_of(Face::B, Z4::Two)) =~= pthen(turn_of(Face::B, Z4::Two), turn_of(Face::F, Z4::Three)));
    assert(pthen(turn_of(Face::F, Z4::Three), turn_of(Face::B, Z4::Three)) =~= pthen(turn_of(Face::B, Z4::Three), turn_of(Face::F, Z4::Three)));
}

/// Turns on the two faces of one axis commute.
pub proof fn lemma_coax_commute(ax: Axis, a: Z4, b: Z4)
    ensures
        pthen(turn_of(Face::new_spec(ax, false), a), turn_of(Face::new_spec(ax, true), b))
            == pthen(turn_of(Face::new_spec(ax, true), b), turn_of(Face::new_spec(ax, false), a)),
{
    match ax {
        Axis::X => lemma_coax_commute_x(a, b),
        Axis::Y => lemma_coax_commute_y(a, b),
        Axis::Z => lemma_coax_commute_z(a, b),
    }
}

/// A whole-cube rotation about one axis moves the stickers exactly as
/// its two face turns do.
pub proof fn lemma_rho_axial(a: Axis, c: Z4)
    requires
        c != Z4::Zero,
    ensures
        rho_t(spec_index(axial_spec(a, c))) == pthen(
            turn_of(Face::new_spec(a, false), c),
            turn_of(Face::new_spec(a, true), z4_neg_spec(c)),
        ),
{
    reveal(pthen);
    reveal(quarter);
    reveal(rho_t);
    reveal(crate::rotation::all_spec);
    crate::rotation::lemma_roundtrip(20);
    crate::rotation::lemma_roundtrip(10);
    crate::rotation::lemma_roundtrip(17);
    crate::rotation::lemma_roundtrip(7);
    crate::rotation::lemma_roundtrip(13);
    crate::rotation::lemma_roundtrip(19);
    crate::rotation::lemma_roundtrip(15);
    crate::rotation::lemma_roundtrip(22);
    crate::rotation::lemma_roundtrip(6);
    assert(rho_t(20) =~= pthen(turn_of(Face::R, Z4::One), turn_of(Face::L, Z4::Three)));
    assert(rho_t(10) =~= pthen(turn_of(Face::R, Z4::Two), turn_of(Face::L, Z4::Two)));
    assert(rho_t(17) =~= pthen(turn_of(Face::R, Z4::Three), turn_of(Face::L, Z4::One)));
    assert(rho_t(7) =~= pthen(turn_of(Face::U, Z4::One), turn_of(Face::D, Z4::Three)));
    assert(rho_t(13) =~= pthen(turn_of(Face::U, Z4::Two), turn_of(Face::D, Z4::Two)));
    assert(rho_t(19) =~= pthen(turn_of(Face::U, Z4::Three), turn_of(Face::D, Z4::One)));
    assert(rho_t(15) =~= pthen(turn_of(Face::F, Z4::One), turn_of(Face::B, Z4::Three)));
    assert(rho_t(22) =~= pthen(turn_of(Face::F, Z4::Two), turn_of(Face::B, Z4::Two)));
    assert(rho_t(6) =~= pthen(turn_of(Face::F, Z4::Three), turn_of(Face::B, Z4::One)));
}

/// The identity rotation fixes every sticker.
pub proof fn lemma_rho_id()
    ensures
        rho_t(1) == pid(),
        spec_index(id_seq()) == 1,
{
    reveal(rho_t);
    assert(rho_t(1) =~= pid());
    reveal(crate::rotation::all_spec);
    crate::rotation::lemma_roundtrip(1);
}

/// Where each enumerated rotation sends each face, tabulated.
pub open spec fn apply_tab(i: int, g: Face) -> Face {
    match g {
        Face::R => {
        if i == 0 {
            Face::U
        } else if i == 1 {
            Face::R
        } else if i == 2 {
            Face::F
        } else if i == 3 {
            Face::D
        } else if i == 4 {
            Face::B
        } else if i == 5 {
            Face::L
        } else if i == 6 {
            Face::U
        } else if i == 7 {
            Face::F
        } else if i == 8 {
            Face::L
        } else if i == 9 {
            Face::D
        } else if i == 10 {
            Face::R
        } else if i == 11 {
            Face::B
        } else if i == 12 {
            Face::U
        } else if i == 13 {
            Face::L
        } else if i == 14 {
            Face::B
        } else if i == 15 {
            Face::D
        } else if i == 16 {
            Face::F
        } else if i == 17 {
            Face::R
        } else if i == 18 {
            Face::U
        } else if i == 19 {
            Face::B
        } else if i == 20 {
            Face::R
        } else if i == 21 {
            Face::D
        } else if i == 22 {
            Face::L
        } else if i == 23 {
            Face::F
        } else {
            Face::R
        }
        },
        Face::U => {
        if i == 0 {
            Face::F
        } else if i == 1 {
            Face::U
        } else if i == 2 {
            Face::R
        } else if i == 3 {
            Face::L
        } else if i == 4 {
            Face::D
        } else if i == 5 {
            Face::B
        } else if i == 6 {
            Face::L
        } else if i == 7 {
            Face::U
        } else if i == 8 {
            Face::F
        } else if i == 9 {
            Face::B
        } else if i == 10 {
            Face::D
        } else if i == 11 {
            Face::R
        } else if i == 12 {
            Face::B
        } else if i == 13 {
            Face::U
        } else if i == 14 {
            Face::L
        } else if i == 15 {
            Face::R
        } else if i == 16 {
            Face::D
        } else if i == 17 {
            Face::F
        } else if i == 18 {
            Face::R
        } else if i == 19 {
            Face::U
        } else if i == 20 {
            Face::B
        } else if i == 21 {
            Face::F
        } else if i == 22 {
            Face::D
        } else if i == 23 {
            Face::L
        } else {
            Face::R
        }
        },
        Face::F => {
        if i == 0 {
            Face::R
        } else if i == 1 {
            Face::F
        } else if i == 2 {
            Face::U
        } else if i == 3 {
            Face::B
        } else if i == 4 {
            Face::L
        } else if i == 5 {
            Face::D
        } else if i == 6 {
            Face::F
        } else if i == 7 {
            Face::L
        } else if i == 8 {
            Face::U
        } else if i == 9 {
            Face::R
        } else if i == 10 {
            Face::B
        } else if i == 11 {
            Face::D
        } else if i == 12 {
            Face::L
        } else if i == 13 {
            Face::B
        } else if i == 14 {
            Face::U
        } else if i == 15 {
            Face::F
        } else if i == 16 {
            Face::R
        } else if i == 17 {
            Face::D
        } else if i == 18 {
            Face::B
        } else if i == 19 {
            Face::R
        } else if i == 20 {
            Face::U
        } else if i == 21 {
            Face::L
        } else if i == 22 {
            Face::F
        } else if i == 23 {
            Face::D
        } else {
            Face::R
        }
        },
        Face::L => {
        if i == 0 {
            Face::D
        } else if i == 1 {
            Face::L
        } else if i == 2 {
            Face::B
        } else if i == 3 {
            Face::U
        } else if i == 4 {
            Face::F
        } else if i == 5 {
            Face::R
        } else if i == 6 {
            Face::D
        } else if i == 7 {
            Face::B
        } else if i == 8 {
            Face::R
        } else if i == 9 {
            Face::U
        } else if i == 10 {
            Face::L
        } else if i == 11 {
            Face::F
        } else if i == 12 {
            Face::D
        } else if i == 13 {
            Face::R
        } else if i == 14 {
            Face::F
        } else if i == 15 {
            Face::U
        } else if i == 16 {
            Face::B
        } else if i == 17 {
            Face::L
        } else if i == 18 {
            Face::D
        } else if i == 19 {
            Face::F
        } else if i == 20 {
            Face::L
        } else if i == 21 {
            Face::U
        } else if i == 22 {
            Face::R
        } else if i == 23 {
            Face::B
        } else {
            Face::R
        }
        },
        Face::D => {
        if i == 0 {
            Face::B
        } else if i == 1 {
            Face::D
        } else if i == 2 {
            Face::L
        } else if i == 3 {
            Face::R
        } else if i == 4 {
            Face::U
        } else if i == 5 {
            Face::F
        } else if i == 6 {
            Face::R
        } else if i == 7 {
            Face::D
        } else if i == 8 {
            Face::B
        } else if i == 9 {
            Face::F
        } else if i == 10 {
            Face::U
        } else if i == 11 {
            Face::L
        } else if i == 12 {
            Face::F
        } else if i == 13 {
            Face::D
        } else if i == 14 {
            Face::R
        } else if i == 15 {
            Face::L
        } else if i == 16 {
            Face::U
        } else if i == 17 {
            Face::B
        } else if i == 18 {
            Face::L
        } else if i == 19 {
            Face::D
        } else if i == 20 {
            Face::F
        } else if i == 21 {
            Face::B
        } else if i == 22 {
            Face::U
        } else if i == 23 {
            Face::R
        } else {
            Face::R
        }
        },
        Face::B => {
        if i == 0 {
            Face::L
        } else if i == 1 {
            Face::B
        } else if i == 2 {
            Face::D
        } else if i == 3 {
            Face::F
        } else if i == 4 {
            Face::R
        } else if i == 5 {
            Face::U
        } else if i == 6 {
            Face::B
        } else if i == 7 {
            Face::R
        } else if i == 8 {
            Face::D
        } else if i == 9 {
            Face::L
        } else if i == 10 {
            Face::F
        } else if i == 11 {
            Face::U
        } else if i == 12 {
            Face::R
        } else if i == 13 {
            Face::F
        } else if i == 14 {
            Face::D
        } else if i == 15 {
            Face::B
        } else if i == 16 {
            Face::L
        } else if i == 17 {
            Face::U
        } else if i == 18 {
            Face::F
        } else if i == 19 {
            Face::L
        } else if i == 20 {
            Face::D
        } else if i == 21 {
            Face::R
        } else if i == 22 {
            Face::B
        } else if i == 23 {
            Face::U
        } else {
            Face::R
        }
        },
    }
}

#[verifier::rlimit(100)]
#[verifier::spinoff_prover]
proof fn lemma_apply_eval_0(i: int, g: Face)
    requires
        0 <= i < 2,
    ensures
        spec_apply(all_spec(i), g) == apply_tab(i, g),
{
    reveal(crate::rotation::all_spec);
    reveal(crate::rotation::spec_index);
    reveal(crate::rotation::comp);
    reveal(crate::rotation::perm_inv_spec);
    reveal(crate::rotation::spec_get);
    reveal(crate::rotation::spec_apply);
    assert(spec_apply(all_spec(0), Face::R) == Face::U);
    assert(spec_apply(all_spec(0), Face::U) == Face::F);
    assert(spec_apply(all_spec(0), Face::F) == Face::R);
    assert(spec_apply(all_spec(0), Face::L) == Face::D);
    assert(spec_apply(all_spec(0), Face::D) == Face::B);
    assert(spec_apply(all_spec(0), Face::B) == Face::L);
    assert(spec_apply(all_spec(1), Face::R) == Face::R);
    assert(spec_apply(all_spec(1), Face::U) == Face::U);
    assert(spec_apply(all_spec(1), Face::F) == Face::F);
    assert(spec_apply(all_spec(1), Face::L) == Face::L);
    assert(spec_apply(all_spec(1), Face::D) == Face::D);
    assert(spec_apply(all_spec(1), Face::B) == Face::B);
}

#[verifier::rlimit(100)]
#[verifier::spinoff_prover]
proof fn lemma_apply_eval_1(i: int, g: Face)
    requires
        2 <= i < 4,
    ensures
        spec_apply(all_spec(i), g) == apply_tab(i, g),
{
    reveal(crate::rotation::all_spec);
    reveal(crate::rotation::spec_index);
    reveal(crate::rotation::comp);
    reveal(crate::rotation::perm_inv_spec);
    reveal(crate::rotation::spec_get);
    reveal(crate::rotation::spec_apply);
    assert(spec_apply(all_spec(2), Face::R) == Face::F);
    assert(spec_apply(all_spec(2), Face::U) == Face::R);
    assert(spec_apply(all_spec(2), Face::F) == Face::U);
    assert(spec_apply(all_spec(2), Face::L) == Face::B);
    assert(spec_apply(all_spec(2), Face::D) == Face::L);
    assert(spec_apply(all_spec(2), Face::B) == Face::D);
    assert(spec_apply(all_spec(3), Face::R) == Face::D);
    assert(spec_apply(all_spec(3), Face::U) == Face::L);
    assert(spec_apply(all_spec(3), Face::F) == Face::B);
    assert(spec_apply(all_spec(3), Face::L) == Face::U);
    assert(spec_apply(all_spec(3), Face::D) == Face::R);
    assert(spec_apply(all_spec(3), Face::B) == Face::F);
}

#[verifier::rlimit(100)]
#[verifier::spinoff_prover]
proof fn lemma_apply_eval_2(i: int, g: Face)
    requires
        4 <= i < 6,
    ensures
        spec_apply(all_spec(i), g) == apply_tab(i, g),
{
    reveal(crate::rotation::all_spec);
    reveal(crate::rotation::spec_index);
    reveal(crate::rotation::comp);
    reveal(crate::rotation::perm_inv_spec);
    reveal(crate::rotation::spec_get);
    reveal(crate::rotation::spec_apply);
    assert(spec_apply(all_spec(4), Face::R) == Face::B);
    assert(spec_apply(all_spec(4), Face::U) == Face::D);
    assert(spec_apply(all_spec(4), Face::F) == Face::L);
    assert(spec_apply(all_spec(4), Face::L) == Face::F);
    assert(spec_apply(all_spec(4), Face::D) == Face::U);
    assert(spec_apply(all_spec(4), Face::B) == Face::R);
    assert(spec_apply(all_spec(5), Face::R) == Face::L);
    assert(spec_apply(all_spec(5), Face::U) == Face::B);
    assert(spec_apply(all_spec(5), Face::F) == Face::D);
    assert(spec_apply(all_spec(5), Face::L) == Face::R);
    assert(spec_apply(all_spec(5), Face::D) == Face::F);
    assert(spec_apply(all_spec(5), Face::B) == Face::U);
}

#[verifier::rlimit(100)]
#[verifier::spinoff_prover]
proof fn lemma_apply_eval_3(i: int, g: Face)
    requires
        6 <= i < 8,
    ensures
        spec_apply(all_spec(i), g) == apply_tab(i, g),
{
    reveal(crate::rotation::all_spec);
    reveal(crate::rotation::spec_index);
    reveal(crate::rotation::comp);
    reveal(crate::rotation::perm_inv_spec);
    reveal(crate::rotation::spec_get);
    reveal(crate::rotation::spec_apply);
    assert(spec_apply(all_spec(6), Face::R) == Face::U);
    assert(spec_apply(all_spec(6), Face::U) == Face::L);
    assert(spec_apply(all_spec(6), Face::F) == Face::F);
    assert(spec_apply(all_spec(6), Face::L) == Face::D);
    assert(spec_apply(all_spec(6), Face::D) == Face::R);
    assert(spec_apply(all_spec(6), Face::B) == Face::B);
    assert(spec_apply(all_spec(7), Face::R) == Face::F);
    assert(spec_apply(all_spec(7), Face::U) == Face::U);
    assert(spec_apply(all_spec(7), Face::F) == Face::L);
    assert(spec_apply(all_spec(7), Face::L) == Face::B);
    assert(spec_apply(all_spec(7), Face::D) == Face::D);
    assert(spec_apply(all_spec(7), Face::B) == Face::R);
}

#[verifier::rlimit(100)]
#[verifier::spinoff_prover]
proof fn lemma_apply_eval_4(i: int, g: Face)
    requires
        8 <= i < 10,
    ensures
        spec_apply(all_spec(i), g) == apply_tab(i, g),
{
    reveal(crate::rotation::all_spec);
    reveal(crate::rotation::spec_index);
    reveal(crate::rotation::comp);
    reveal(crate::rotation::perm_inv_spec);
    reveal(crate::rotation::spec_get);
    reveal(crate::rotation::spec_apply);
    assert(spec_apply(all_spec(8), Face::R) == Face::L);
    assert(spec_apply(all_spec(8), Face::U) == Face::F);
    assert(spec_apply(all_spec(8), Face::F) == Face::U);
    assert(spec_apply(all_spec(8), Face::L) == Face::R);
    assert(spec_apply(all_spec(8), Face::D) == Face::B);
    assert(spec_apply(all_spec(8), Face::B) == Face::D);
    assert(spec_apply(all_spec(9), Face::R) == Face::D);
    assert(spec_apply(all_spec(9), Face::U) == Face::B);
    assert(spec_apply(all_spec(9), Face::F) == Face::R);
    assert(spec_apply(all_spec(9), Face::L) == Face::U);
    assert(spec_apply(all_spec(9), Face::D) == Face::F);
    assert(spec_apply(all_spec(9), Face::B) == Face::L);
}

#[verifier::rlimit(100)]
#[verifier::spinoff_prover]
proof fn lemma_apply_eval_5(i: int, g: Face)
    requires
        10 <= i < 12,
    ensures
        spec_apply(all_spec(i), g) == apply_tab(i, g),
{
    reveal(crate::rotation::all_spec);
    reveal(crate::rotation::spec_index);
    reveal(crate::rotation::comp);
    reveal(crate::rotation::perm_inv_spec);
    reveal(crate::rotation::spec_get);
    reveal(crate::rotation::spec_apply);
    assert(spec_apply(all_spec(10), Face::R) == Face::R);
    assert(spec_apply(all_spec(10), Face::U) == Face::D);
    assert(spec_apply(all_spec(10), Face::F) == Face::B);
    assert(spec_apply(all_spec(10), Face::L) == Face::L);
    assert(spec_apply(all_spec(10), Face::D) == Face::U);
    assert(spec_apply(all_spec(10), Face::B) == Face::F);
    assert(spec_apply(all_spec(11), Face::R) == Face::B);
    assert(spec_apply(all_spec(11), Face::U) == Face::R);
    assert(spec_apply(all_spec(11), Face::F) == Face::D);
    assert(spec_apply(all_spec(11), Face::L) == Face::F);
    assert(spec_apply(all_spec(11), Face::D) == Face::L);
    assert(spec_apply(all_spec(11), Face::B) == Face::U);
}

#[verifier::rlimit(100)]
#[verifier::spinoff_prover]
proof fn lemma_apply_eval_6(i: int, g: Face)
    requires
        12 <= i < 14,
    ensures
        spec_apply(all_spec(i), g) == apply_tab(i, g),
{
    reveal(crate::rotation::all_spec);
    reveal(crate::rotation::spec_index);
    reveal(crate::rotation::comp);
    reveal(crate::rotation::perm_inv_spec);
    reveal(crate::rotation::spec_get);
    reveal(crate::rotation::spec_apply);
    assert(spec_apply(all_spec(12), Face::R) == Face::U);
    assert(spec_apply(all_spec(12), Face::U) == Face::B);
    assert(spec_apply(all_spec(12), Face::F) == Face::L);
    assert(spec_apply(all_spec(12), Face::L) == Face::D);
    assert(spec_apply(all_spec(12), Face::D) == Face::F);
    assert(spec_apply(all_spec(12), Face::B) == Face::R);
    assert(spec_apply(all_spec(13), Face::R) == Face::L);
    assert(spec_apply(all_spec(13), Face::U) == Face::U);
    assert(spec_apply(all_spec(13), Face::F) == Face::B);
    assert(spec_apply(all_spec(13), Face::L) == Face::R);
    assert(spec_apply(all_spec(13), Face::D) == Face::D);
    assert(spec_apply(all_spec(13), Face::B) == Face::F);
}

#[verifier::rlimit(100)]
#[verifier::spinoff_prover]
proof fn lemma_apply_eval_7(i: int, g: Face)
    requires
        14 <= i < 16,
    ensures
        spec_apply(all_spec(i), g) == apply_tab(i, g),
{
    reveal(crate::rotation::all_spec);
    reveal(crate::rotation::spec_index);
    reveal(crate::rotation::comp);
    reveal(crate::rotation::perm_inv_spec);
    reveal(crate::rotation::spec_get);
    reveal(crate::rotation::spec_apply);
    assert(spec_apply(all_spec(14), Face::R) == Face::B);
    assert(spec_apply(all_spec(14), Face::U) == Face::L);
    assert(spec_apply(all_spec(14), Face::F) == Face::U);
    assert(spec_apply(all_spec(14), Face::L) == Face::F);
    assert(spec_apply(all_spec(14), Face::D) == Face::R);
    assert(spec_apply(all_spec(14), Face::B) == Face::D);
    assert(spec_apply(all_spec(15), Face::R) == Face::D);
    assert(spec_apply(all_spec(15), Face::U) == Face::R);
    assert(spec_apply(all_spec(15), Face::F) == Face::F);
    assert(spec_apply(all_spec(15), Face::L) == Face::U);
    assert(spec_apply(all_spec(15), Face::D) == Face::L);
    assert(spec_apply(all_spec(15), Face::B) == Face::B);
}

#[verifier::rlimit(100)]
#[verifier::spinoff_prover]
proof fn lemma_apply_eval_8(i: int, g: Face)
    requires
        16 <= i < 18,
    ensures
        spec_apply(all_spec(i), g) == apply_tab(i, g),
{
    reveal(crate::rotation::all_spec);
    reveal(crate::rotation::spec_index);
    reveal(crate::rotation::comp);
    reveal(crate::rotation::perm_inv_spec);
    reveal(crate::rotation::spec_get);
    reveal(crate::rotation::spec_apply);
    assert(spec_apply(all_spec(16), Face::R) == Face::F);
    assert(spec_apply(all_spec(16), Face::U) == Face::D);
    assert(spec_apply(all_spec(16), Face::F) == Face::R);
    assert(spec_apply(all_spec(16), Face::L) == Face::B);
    assert(spec_apply(all_spec(16), Face::D) == Face::U);
    assert(spec_apply(all_spec(16), Face::B) == Face::L);
    assert(spec_apply(all_spec(17), Face::R) == Face::R);
    assert(spec_apply(all_spec(17), Face::U) == Face::F);
    assert(spec_apply(all_spec(17), Face::F) == Face::D);
    assert(spec_apply(all_spec(17), Face::L) == Face::L);
    assert(spec_apply(all_spec(17), Face::D) == Face::B);
    assert(spec_apply(all_spec(17), Face::B) == Face::U);
}

#[verifier::rlimit(100)]
#[verifier::spinoff_prover]
proof fn lemma_apply_eval_9(i: int, g: Face)
    requires
        18 <= i < 20,
    ensures
        spec_apply(all_spec(i), g) == apply_tab(i, g),
{
    reveal(crate::rotation::all_spec);
    reveal(crate::rotation::spec_index);
    reveal(crate::rotation::comp);
    reveal(crate::rotation::perm_inv_spec);
    reveal(crate::rotation::spec_get);
    reveal(crate::rotation::spec_apply);
    assert(spec_apply(all_spec(18), Face::R) == Face::U);
    assert(spec_apply(all_spec(18), Face::U) == Face::R);
    assert(spec_apply(all_spec(18), Face::F) == Face::B);
    assert(spec_apply(all_spec(18), Face::L) == Face::D);
    assert(spec_apply(all_spec(18), Face::D) == Face::L);
    assert(spec_apply(all_spec(18), Face::B) == Face::F);
    assert(spec_apply(all_spec(19), Face::R) == Face::B);
    assert(spec_apply(all_spec(19), Face::U) == Face::U);
    assert(spec_apply(all_spec(19), Face::F) == Face::R);
    assert(spec_apply(all_spec(19), Face::L) == Face::F);
    assert(spec_apply(all_spec(19), Face::D) == Face::D);
    assert(spec_apply(all_spec(19), Face::B) == Face::L);
}

#[verifier::rlimit(100)]
#[verifier::spinoff_prover]
proof fn lemma_apply_eval_10(i: int, g: Face)
    requires
        20 <= i < 22,
    ensures
        spec_apply(all_spec(i), g) == apply_tab(i, g),
{
    reveal(crate::rotation::all_spec);
    reveal(crate::rotation::spec_index);
    reveal(crate::rotation::comp);
    reveal(crate::rotation::perm_inv_spec);
    reveal(crate::rotation::spec_get);
    reveal(crate::rotation::spec_apply);
    assert(spec_apply(all_spec(20), Face::R) == Face::R);
    assert(spec_apply(all_spec(20), Face::U) == Face::B);
    assert(spec_apply(all_spec(20), Face::F) == Face::U);
    assert(spec_apply(all_spec(20), Face::L) == Face::L);
    assert(spec_apply(all_spec(20), Face::D) == Face::F);
    assert(spec_apply(all_spec(20), Face::B) == Face::D);
    assert(spec_apply(all_spec(21), Face::R) == Face::D);
    assert(spec_apply(all_spec(21), Face::U) == Face::F);
    assert(spec_apply(all_spec(21), Face::F) == Face::L);
    assert(spec_apply(all_spec(21), Face::L) == Face::U);
    assert(spec_apply(all_spec(21), Face::D) == Face::B);
    assert(spec_apply(all_spec(21), Face::B) == Face::R);
}

#[verifier::rlimit(100)]
#[verifier::spinoff_prover]
proof fn lemma_apply_eval_11(i: int, g: Face)
    requires
        22 <= i < 24,
    ensures
        spec_apply(all_spec(i), g) == apply_tab(i, g),
{
    reveal(crate::rotation::all_spec);
    reveal(crate::rotation::spec_index);
    reveal(crate::rotation::comp);
    reveal(crate::rotation::perm_inv_spec);
    reveal(crate::rotation::spec_get);
    reveal(crate::rotation::spec_apply);
    assert(spec_apply(all_spec(22), Face::R) == Face::L);
    assert(spec_apply(all_spec(22), Face::U) == Face::D);
    assert(spec_apply(all_spec(22), Face::F) == Face::F);
    assert(spec_apply(all_spec(22), Face::L) == Face::R);
    assert(spec_apply(all_spec(22), Face::D) == Face::U);
    assert(spec_apply(all_spec(22), Face::B) == Face::B);
    assert(spec_apply(all_spec(23), Face::R) == Face::F);
    assert(spec_apply(all_spec(23), Face::U) == Face::L);
    assert(spec_apply(all_spec(23), Face::F) == Face::D);
    assert(spec_apply(all_spec(23), Face::L) == Face::B);
    assert(spec_apply(all_spec(23), Face::D) == Face::R);
    assert(spec_apply(all_spec(23), Face::B) == Face::U);
}

/// The tabulated action agrees with the action.
proof fn lemma_apply_eval(i: int, g: Face)
    requires
        0 <= i < 24,
    ensures
        spec_apply(all_spec(i), g) == apply_tab(i, g),
{
    if i < 2 {
        lemma_apply_eval_0(i, g);
    } else if i < 4 {
        lemma_apply_eval_1(i, g);
    } else if i < 6 {
        lemma_apply_eval_2(i, g);
    } else if i < 8 {
        lemma_apply_eval_3(i, g);
    } else if i < 10 {
        lemma_apply_eval_4(i, g);
    } else if i < 12 {
        lemma_apply_eval_5(i, g);
    } else if i < 14 {
        lemma_apply_eval_6(i, g);
    } else if i < 16 {
        lemma_apply_eval_7(i, g);
    } else if i < 18 {
        lemma_apply_eval_8(i, g);
    } else if i < 20 {
        lemma_apply_eval_9(i, g);
    } else if i < 22 {
        lemma_apply_eval_10(i, g);
    } else if i < 24 {
        lemma_apply_eval_11(i, g);
    }
}

#[verifier::rlimit(100)]
#[verifier::spinoff_prover]
proof fn lemma_relabel_q_0(i: int, g: Face)
    requires
        0 <= i < 2,
    ensures
        pthen(quarter(g), rho_t(i)) == pthen(rho_t(i), quarter(apply_tab(i, g))),
{
    reveal(pthen);
    reveal(quarter);
    reveal(rho_t);
    assert(pthen(quarter(Face::R), rho_t(0)) =~= pthen(rho_t(0), quarter(Face::U)));
    assert(pthen(quarter(Face::U), rho_t(0)) =~= pthen(rho_t(0), quarter(Face::F)));
    assert(pthen(quarter(Face::F), rho_t(0)) =~= pthen(rho_t(0), quarter(Face::R)));
    assert(pthen(quarter(Face::L), rho_t(0)) =~= pthen(rho_t(0), quarter(Face::D)));
    assert(pthen(quarter(Face::D), rho_t(0)) =~= pthen(rho_t(0), quarter(Face::B)));
    assert(pthen(quarter(Face::B), rho_t(0)) =~= pthen(rho_t(0), quarter(Face::L)));
    assert(pthen(quarter(Face::R), rho_t(1)) =~= pthen(rho_t(1), quarter(Face::R)));
    assert(pthen(quarter(Face::U), rho_t(1)) =~= pthen(rho_t(1), quarter(Face::U)));
    assert(pthen(quarter(Face::F), rho_t(1)) =~= pthen(rho_t(1), quarter(Face::F)));
    assert(pthen(quarter(Face::L), rho_t(1)) =~= pthen(rho_t(1), quarter(Face::L)));
    assert(pthen(quarter(Face::D), rho_t(1)) =~= pthen(rho_t(1), quarter(Face::D)));
    assert(pthen(quarter(Face::B), rho_t(1)) =~= pthen(rho_t(1), quarter(Face::B)));
}

#[verifier::rlimit(100)]
#[verifier::spinoff_prover]
proof fn lemma_relabel_q_1(i: int, g: Face)
    requires
        2 <= i < 4,
    ensures
        pthen(quarter(g), rho_t(i)) == pthen(rho_t(i), quarter(apply_tab(i, g))),
{
    reveal(pthen);
    reveal(quarter);
    reveal(rho_t);
    assert(pthen(quarter(Face::R), rho_t(2)) =~= pthen(rho_t(2), quarter(Face::F)));
    assert(pthen(quarter(Face::U), rho_t(2)) =~= pthen(rho_t(2), quarter(Face::R)));
    assert(pthen(quarter(Face::F), rho_t(2)) =~= pthen(rho_t(2), quarter(Face::U)));
    assert(pthen(quarter(Face::L), rho_t(2)) =~= pthen(rho_t(2), quarter(Face::B)));
    assert(pthen(quarter(Face::D), rho_t(2)) =~= pthen(rho_t(2), quarter(Face::L)));
    assert(pthen(quarter(Face::B), rho_t(2)) =~= pthen(rho_t(2), quarter(Face::D)));
    assert(pthen(quarter(Face::R), rho_t(3)) =~= pthen(rho_t(3), quarter(Face::D)));
    assert(pthen(quarter(Face::U), rho_t(3)) =~= pthen(rho_t(3), quarter(Face::L)));
    assert(pthen(quarter(Face::F), rho_t(3)) =~= pthen(rho_t(3), quarter(Face::B)));
    assert(pthen(quarter(Face::L), rho_t(3)) =~= pthen(rho_t(3), quarter(Face::U)));
    assert(pthen(quarter(Face::D), rho_t(3)) =~= pthen(rho_t(3), quarter(Face::R)));
    assert(pthen(quarter(Face::B), rho_t(3)) =~= pthen(rho_t(3), quarter(Face::F)));
}

#[verifier::rlimit(100)]
#[verifier::spinoff_prover]
proof fn lemma_relabel_q_2(i: int, g: Face)
    requires
        4 <= i < 6,
    ensures
        pthen(quarter(g), rho_t(i)) == pthen(rho_t(i), quarter(apply_tab(i, g))),
{
    reveal(pthen);
    reveal(quarter);
    reveal(rho_t);
    assert(pthen(quarter(Face::R), rho_t(4)) =~= pthen(rho_t(4), quarter(Face::B)));
    assert(pthen(quarter(Face::U), rho_t(4)) =~= pthen(rho_t(4), quarter(Face::D)));
    assert(pthen(quarter(Face::F), rho_t(4)) =~= pthen(rho_t(4), quarter(Face::L)));
    assert(pthen(quarter(Face::L), rho_t(4)) =~= pthen(rho_t(4), quarter(Face::F)));
    assert(pthen(quarter(Face::D), rho_t(4)) =~= pthen(rho_t(4), quarter(Face::U)));
    assert(pthen(quarter(Face::B), rho_t(4)) =~= pthen(rho_t(4), quarter(Face::R)));
    assert(pthen(quarter(Face::R), rho_t(5)) =~= pthen(rho_t(5), quarter(Face::L)));
    assert(pthen(quarter(Face::U), rho_t(5)) =~= pthen(rho_t(5), quarter(Face::B)));
    assert(pthen(quarter(Face::F), rho_t(5)) =~= pthen(rho_t(5), quarter(Face::D)));
    assert(pthen(quarter(Face::L), rho_t(5)) =~= pthen(rho_t(5), quarter(Face::R)));
    assert(pthen(quarter(Face::D), rho_t(5)) =~= pthen(rho_t(5), quarter(Face::F)));
    assert(pthen(quarter(Face::B), rho_t(5)) =~= pthen(rho_t(5), quarter(Face::U)));
}

#[verifier::rlimit(100)]
#[verifier::spinoff_prover]
proof fn lemma_relabel_q_3(i: int, g: Face)
    requires
        6 <= i < 8,
    ensures
        pthen(quarter(g), rho_t(i)) == pthen(rho_t(i), quarter(apply_tab(i, g))),
{
    reveal(pthen);
    reveal(quarter);
    reveal(rho_t);
    assert(pthen(quarter(Face::R), rho_t(6)) =~= pthen(rho_t(6), quarter(Face::U)));
    assert(pthen(quarter(Face::U), rho_t(6)) =~= pthen(rho_t(6), quarter(Face::L)));
    assert(pthen(quarter(Face::F), rho_t(6)) =~= pthen(rho_t(6), quarter(Face::F)));
    assert(pthen(quarter(Face::L), rho_t(6)) =~= pthen(rho_t(6), quarter(Face::D)));
    assert(pthen(quarter(Face::D), rho_t(6)) =~= pthen(rho_t(6), quarter(Face::R)));
    assert(pthen(quarter(Face::B), rho_t(6)) =~= pthen(rho_t(6), quarter(Face::B)));
    assert(pthen(quarter(Face::R), rho_t(7)) =~= pthen(rho_t(7), quarter(Face::F)));
    assert(pthen(quarter(Face::U), rho_t(7)) =~= pthen(rho_t(7), quarter(Face::U)));
    assert(pthen(quarter(Face::F), rho_t(7)) =~= pthen(rho_t(7), quarter(Face::L)));
    assert(pthen(quarter(Face::L), rho_t(7)) =~= pthen(rho_t(7), quarter(Face::B)));
    assert(pthen(quarter(Face::D), rho_t(7)) =~= pthen(rho_t(7), quarter(Face::D)));
    assert(pthen(quarter(Face::B), rho_t(7)) =~= pthen(rho_t(7), quarter(Face::R)));
}

#[verifier::rlimit(100)]
#[verifier::spinoff_prover]
proof fn lemma_relabel_q_4(i: int, g: Face)
    requires
        8 <= i < 10,
    ensures
        pthen(quarter(g), rho_t(i)) == pthen(rho_t(i), quarter(apply_tab(i, g))),
{
    reveal(pthen);
    reveal(quarter);
    reveal(rho_t);
    assert(pthen(quarter(Face::R), rho_t(8)) =~= pthen(rho_t(8), quarter(Face::L)));
    assert(pthen(quarter(Face::U), rho_t(8)) =~= pthen(rho_t(8), quarter(Face::F)));
    assert(pthen(quarter(Face::F), rho_t(8)) =~= pthen(rho_t(8), quarter(Face::U)));
    assert(pthen(quarter(Face::L), rho_t(8)) =~= pthen(rho_t(8), quarter(Face::R)));
    assert(pthen(quarter(Face::D), rho_t(8)) =~= pthen(rho_t(8), quarter(Face::B)));
    assert(pthen(quarter(Face::B), rho_t(8)) =~= pthen(rho_t(8), quarter(Face::D)));
    assert(pthen(quarter(Face::R), rho_t(9)) =~= pthen(rho_t(9), quarter(Face::D)));
    assert(pthen(quarter(Face::U), rho_t(9)) =~= pthen(rho_t(9), quarter(Face::B)));
    assert(pthen(quarter(Face::F), rho_t(9)) =~= pthen(rho_t(9), quarter(Face::R)));
    assert(pthen(quarter(Face::L), rho_t(9)) =~= pthen(rho_t(9), quarter(Face::U)));
    assert(pthen(quarter(Face::D), rho_t(9)) =~= pthen(rho_t(9), quarter(Face::F)));
    assert(pthen(quarter(Face::B), rho_t(9)) =~= pthen(rho_t(9), quarter(Face::L)));
}

#[verifier::rlimit(100)]
#[verifier::spinoff_prover]
proof fn lemma_relabel_q_5(i: int, g: Face)
    requires
        10 <= i < 12,
    ensures
        pthen(quarter(g), rho_t(i)) == pthen(rho_t(i), quarter(apply_tab(i, g))),
{
    reveal(pthen);
    reveal(quarter);
    reveal(rho_t);
    assert(pthen(quarter(Face::R), rho_t(10)) =~= pthen(rho_t(10), quarter(Face::R)));
    assert(pthen(quarter(Face::U), rho_t(10)) =~= pthen(rho_t(10), quarter(Face::D)));
    assert(pthen(quarter(Face::F), rho_t(10)) =~= pthen(rho_t(10), quarter(Face::B)));
    assert(pthen(quarter(Face::L), rho_t(10)) =~= pthen(rho_t(10), quarter(Face::L)));
    assert(pthen(quarter(Face::D), rho_t(10)) =~= pthen(rho_t(10), quarter(Face::U)));
    assert(pthen(quarter(Face::B), rho_t(10)) =~= pthen(rho_t(10), quarter(Face::F)));
    assert(pthen(quarter(Face::R), rho_t(11)) =~= pthen(rho_t(11), quarter(Face::B)));
    assert(pthen(quarter(Face::U), rho_t(11)) =~= pthen(rho_t(11), quarter(Face::R)));
    assert(pthen(quarter(Face::F), rho_t(11)) =~= pthen(rho_t(11), quarter(Face::D)));
    assert(pthen(quarter(Face::L), rho_t(11)) =~= pthen(rho_t(11), quarter(Face::F)));
    assert(pthen(quarter(Face::D), rho_t(11)) =~= pthen(rho_t(11), quarter(Face::L)));
    assert(pthen(quarter(Face::B), rho_t(11)) =~= pthen(rho_t(11), quarter(Face::U)));
}

#[verifier::rlimit(100)]
#[verifier::spinoff_prover]
proof fn lemma_relabel_q_6(i: int, g: Face)
    requires
        12 <= i < 14,
    ensures
        pthen(quarter(g), rho_t(i)) == pthen(rho_t(i), quarter(apply_tab(i, g))),
{
    reveal(pthen);
    reveal(quarter);
    reveal(rho_t);
    assert(pthen(quarter(Face::R), rho_t(12)) =~= pthen(rho_t(12), quarter(Face::U)));
    assert(pthen(quarter(Face::U), rho_t(12)) =~= pthen(rho_t(12), quarter(Face::B)));
    assert(pthen(quarter(Face::F), rho_t(12)) =~= pthen(rho_t(12), quarter(Face::L)));
    assert(pthen(quarter(Face::L), rho_t(12)) =~= pthen(rho_t(12), quarter(Face::D)));
    assert(pthen(quarter(Face::D), rho_t(12)) =~= pthen(rho_t(12), quarter(Face::F)));
    assert(pthen(quarter(Face::B), rho_t(12)) =~= pthen(rho_t(12), quarter(Face::R)));
    assert(pthen(quarter(Face::R), rho_t(13)) =~= pthen(rho_t(13), quarter(Face::L)));
    assert(pthen(quarter(Face::U), rho_t(13)) =~= pthen(rho_t(13), quarter(Face::U)));
    assert(pthen(quarter(Face::F), rho_t(13)) =~= pthen(rho_t(13), quarter(Face::B)));
    assert(pthen(quarter(Face::L), rho_t(13)) =~= pthen(rho_t(13), quarter(Face::R)));
    assert(pthen(quarter(Face::D), rho_t(13)) =~= pthen(rho_t(13), quarter(Face::D)));
    assert(pthen(quarter(Face::B), rho_t(13)) =~= pthen(rho_t(13), quarter(Face::F)));
}

#[verifier::rlimit(100)]
#[verifier::spinoff_prover]
proof fn lemma_relabel_q_7(i: int, g: Face)
    requires
        14 <= i < 16,
    ensures
        pthen(quarter(g), rho_t(i)) == pthen(rho_t(i), quarter(apply_tab(i, g))),
{
    reveal(pthen);
    reveal(quarter);
    reveal(rho_t);
    assert(pthen(quarter(Face::R), rho_t(14)) =~= pthen(rho_t(14), quarter(Face::B)));
    assert(pthen(quarter(Face::U), rho_t(14)) =~= pthen(rho_t(14), quarter(Face::L)));
    assert(pthen(quarter(Face::F), rho_t(14)) =~= pthen(rho_t(14), quarter(Face::U)));
    assert(pthen(quarter(Face::L), rho_t(14)) =~= pthen(rho_t(14), quarter(Face::F)));
    assert(pthen(quarter(Face::D), rho_t(14)) =~= pthen(rho_t(14), quarter(Face::R)));
    assert(pthen(quarter(Face::B), rho_t(14)) =~= pthen(rho_t(14), quarter(Face::D)));
    assert(pthen(quarter(Face::R), rho_t(15)) =~= pthen(rho_t(15), quarter(Face::D)));
    assert(pthen(quarter(Face::U), rho_t(15)) =~= pthen(rho_t(15), quarter(Face::R)));
    assert(pthen(quarter(Face::F), rho_t(15)) =~= pthen(rho_t(15), quarter(Face::F)));
    assert(pthen(quarter(Face::L), rho_t(15)) =~= pthen(rho_t(15), quarter(Face::U)));
    assert(pthen(quarter(Face::D), rho_t(15)) =~= pthen(rho_t(15), quarter(Face::L)));
    assert(pthen(quarter(Face::B), rho_t(15)) =~= pthen(rho_t(15), quarter(Face::B)));
}

#[verifier::rlimit(100)]
#[verifier::spinoff_prover]
proof fn lemma_relabel_q_8(i: int, g: Face)
    requires
        16 <= i < 18,
    ensures
        pthen(quarter(g), rho_t(i)) == pthen(rho_t(i), quarter(apply_tab(i, g))),
{
    reveal(pthen);
    reveal(quarter);
    reveal(rho_t);
    assert(pthen(quarter(Face::R), rho_t(16)) =~= pthen(rho_t(16), quarter(Face::F)));
    assert(pthen(quarter(Face::U), rho_t(16)) =~= pthen(rho_t(16), quarter(Face::D)));
    assert(pthen(quarter(Face::F), rho_t(16)) =~= pthen(rho_t(16), quarter(Face::R)));
    assert(pthen(quarter(Face::L), rho_t(16)) =~= pthen(rho_t(16), quarter(Face::B)));
    assert(pthen(quarter(Face::D), rho_t(16)) =~= pthen(rho_t(16), quarter(Face::U)));
    assert(pthen(quarter(Face::B), rho_t(16)) =~= pthen(rho_t(16), quarter(Face::L)));
    assert(pthen(quarter(Face::R), rho_t(17)) =~= pthen(rho_t(17), quarter(Face::R)));
    assert(pthen(quarter(Face::U), rho_t(17)) =~= pthen(rho_t(17), quarter(Face::F)));
    assert(pthen(quarter(Face::F), rho_t(17)) =~= pthen(rho_t(17), quarter(Face::D)));
    assert(pthen(quarter(Face::L), rho_t(17)) =~= pthen(rho_t(17), quarter(Face::L)));
    assert(pthen(quarter(Face::D), rho_t(17)) =~= pthen(rho_t(17), quarter(Face::B)));
    assert(pthen(quarter(Face::B), rho_t(17)) =~= pthen(rho_t(17), quarter(Face::U)));
}

#[verifier::rlimit(100)]
#[verifier::spinoff_prover]
proof fn lemma_relabel_q_9(i: int, g: Face)
    requires
        18 <= i < 20,
    ensures
        pthen(quarter(g), rho_t(i)) == pthen(rho_t(i), quarter(apply_tab(i, g))),
{
    reveal(pthen);
    reveal(quarter);
    reveal(rho_t);
    assert(pthen(quarter(Face::R), rho_t(18)) =~= pthen(rho_t(18), quarter(Face::U)));
    assert(pthen(quarter(Face::U), rho_t(18)) =~= pthen(rho_t(18), quarter(Face::R)));
    assert(pthen(quarter(Face::F), rho_t(18)) =~= pthen(rho_t(18), quarter(Face::B)));
    assert(pthen(quarter(Face::L), rho_t(18)) =~= pthen(rho_t(18), quarter(Face::D)));
    assert(pthen(quarter(Face::D), rho_t(18)) =~= pthen(rho_t(18), quarter(Face::L)));
    assert(pthen(quarter(Face::B), rho_t(18)) =~= pthen(rho_t(18), quarter(Face::F)));
    assert(pthen(quarter(Face::R), rho_t(19)) =~= pthen(rho_t(19), quarter(Face::B)));
    assert(pthen(quarter(Face::U), rho_t(19)) =~= pthen(rho_t(19), quarter(Face::U)));
    assert(pthen(quarter(Face::F), rho_t(19)) =~= pthen(rho_t(19), quarter(Face::R)));
    assert(pthen(quarter(Face::L), rho_t(19)) =~= pthen(rho_t(19), quarter(Face::F)));
    assert(pthen(quarter(Face::D), rho_t(19)) =~= pthen(rho_t(19), quarter(Face::D)));
    assert(pthen(quarter(Face::B), rho_t(19)) =~= pthen(rho_t(19), quarter(Face::L)));
}

#[verifier::rlimit(100)]
#[verifier::spinoff_prover]
proof fn lemma_relabel_q_10(i: int, g: Face)
    requires
        20 <= i < 22,
    ensures
        pthen(quarter(g), rho_t(i)) == pthen(rho_t(i), quarter(apply_tab(i, g))),
{
    reveal(pthen);
    reveal(quarter);
    reveal(rho_t);
    assert(pthen(quarter(Face::R), rho_t(20)) =~= pthen(rho_t(20), quarter(Face::R)));
    assert(pthen(quarter(Face::U), rho_t(20)) =~= pthen(rho_t(20), quarter(Face::B)));
    assert(pthen(quarter(Face::F), rho_t(20)) =~= pthen(rho_t(20), quarter(Face::U)));
    assert(pthen(quarter(Face::L), rho_t(20)) =~= pthen(rho_t(20), quarter(Face::L)));
    assert(pthen(quarter(Face::D), rho_t(20)) =~= pthen(rho_t(20), quarter(Face::F)));
    assert(pthen(quarter(Face::B), rho_t(20)) =~= pthen(rho_t(20), quarter(Face::D)));
    assert(pthen(quarter(Face::R), rho_t(21)) =~= pthen(rho_t(21), quarter(Face::D)));
    assert(pthen(quarter(Face::U), rho_t(21)) =~= pthen(rho_t(21), quarter(Face::F)));
    assert(pthen(quarter(Face::F), rho_t(21)) =~= pthen(rho_t(21), quarter(Face::L)));
    assert(pthen(quarter(Face::L), rho_t(21)) =~= pthen(rho_t(21), quarter(Face::U)));
    assert(pthen(quarter(Face::D), rho_t(21)) =~= pthen(rho_t(21), quarter(Face::B)));
    assert(pthen(quarter(Face::B), rho_t(21)) =~= pthen(rho_t(21), quarter(Face::R)));
}

#[verifier::rlimit(100)]
#[verifier::spinoff_prover]
proof fn lemma_relabel_q_11(i: int, g: Face)
    requires
        22 <= i < 24,
    ensures
        pthen(quarter(g), rho_t(i)) == pthen(rho_t(i), quarter(apply_tab(i, g))),
{
    reveal(pthen);
    reveal(quarter);
    reveal(rho_t);
    assert(pthen(quarter(Face::R), rho_t(22)) =~= pthen(rho_t(22), quarter(Face::L)));
    assert(pthen(quarter(Face::U), rho_t(22)) =~= pthen(rho_t(22), quarter(Face::D)));
    assert(pthen(quarter(Face::F), rho_t(22)) =~= pthen(rho_t(22), quarter(Face::F)));
    assert(pthen(quarter(Face::L), rho_t(22)) =~= pthen(rho_t(22), quarter(Face::R)));
    assert(pthen(quarter(Face::D), rho_t(22)) =~= pthen(rho_t(22), quarter(Face::U)));
    assert(pthen(quarter(Face::B), rho_t(22)) =~= pthen(rho_t(22), quarter(Face::B)));
    assert(pthen(quarter(Face::R), rho_t(23)) =~= pthen(rho_t(23), quarter(Face::F)));
    assert(pthen(quarter(Face::U), rho_t(23)) =~= pthen(rho_t(23), quarter(Face::L)));
    assert(pthen(quarter(Face::F), rho_t(23)) =~= pthen(rho_t(23), quarter(Face::D)));
    assert(pthen(quarter(Face::L), rho_t(23)) =~= pthen(rho_t(23), quarter(Face::B)));
    assert(pthen(quarter(Face::D), rho_t(23)) =~= pthen(rho_t(23), quarter(Face::R)));
    assert(pthen(quarter(Face::B), rho_t(23)) =~= pthen(rho_t(23), quarter(Face::U)));
}

/// Moving a quarter turn past a whole-cube rotation relabels its face.
proof fn lemma_relabel_q(i: int, g: Face)
    requires
        0 <= i < 24,
    ensures
        pthen(quarter(g), rho_t(i)) == pthen(rho_t(i), quarter(spec_apply(all_spec(i), g))),
{
    lemma_apply_eval(i, g);
    if i < 2 {
        lemma_relabel_q_0(i, g);
    } else if i < 4 {
        lemma_relabel_q_1(i, g);
    } else if i < 6 {
        lemma_relabel_q_2(i, g);
    } else if i < 8 {
        lemma_relabel_q_3(i, g);
    } else if i < 10 {
        lemma_relabel_q_4(i, g);
    } else if i < 12 {
        lemma_relabel_q_5(i, g);
    } else if i < 14 {
        lemma_relabel_q_6(i, g);
    } else if i < 16 {
        lemma_relabel_q_7(i, g);
    } else if i < 18 {
        lemma_relabel_q_8(i, g);
    } else if i < 20 {
        lemma_relabel_q_9(i, g);
    } else if i < 22 {
        lemma_relabel_q_10(i, g);
    } else if i < 24 {
        lemma_relabel_q_11(i, g);
    }
}

/// Moving a face turn past a whole-cube rotation relabels its face.
pub proof fn lemma_relabel(i: int, g: Face, b: Z4)
    requires
        0 <= i < 24,
    ensures
        pthen(turn_of(g, b), rho_t(i)) == pthen(rho_t(i), turn_of(spec_apply(all_spec(i), g), b)),
{
    let q = quarter(g);
    let q2 = quarter(spec_apply(all_spec(i), g));
    let rh = rho_t(i);
    lemma_relabel_q(i, g);
    lemma_quarter_wf(g);
    lemma_rho_wf(i);
    match b {
        Z4::Zero => {
            lemma_pid(rh);
        },
        Z4::One => {
        },
        Z4::Two => {
            lemma_quarter_wf(spec_apply(all_spec(i), g));
            lemma_pthen_assoc(q, q, rh);
            lemma_pthen_assoc(q, rh, q2);
            lemma_pthen_assoc(rh, q2, q2);
        },
        Z4::Three => {
            lemma_quarter_wf(spec_apply(all_spec(i), g));
            lemma_pthen_wf(q, q);
            lemma_pthen_wf(rh, q2);
            lemma_pthen_assoc(pthen(q, q), q, rh);
            lemma_pthen_assoc(pthen(q, q), rh, q2);
            lemma_pthen_assoc(q, q, rh);
            lemma_pthen_assoc(q, rh, q2);
            lemma_pthen_assoc(rh, q2, q2);
            lemma_pthen_assoc(pthen(rh, q2), q2, q2);
            lemma_pthen_assoc(rh, q2, pthen(q2, q2));
            lemma_pthen_assoc(q2, q2, q2);
        },
    }
}

#[verifier::rlimit(100)]
#[verifier::spinoff_prover]
proof fn lemma_rho_comp_axial_0(i: int, j: int)
    requires
        0 <= i < 2,
        axial_part_of_index(j) is Some,
        j != 1,
    ensures
        rho_t(spec_index(comp(all_spec(i), all_spec(j)))) == pthen(rho_t(i), rho_t(j)),
{
    reveal(pthen);
    reveal(rho_t);
    reveal(crate::rotation::all_spec);
    reveal(crate::rotation::spec_index);
    reveal(crate::rotation::comp);
    assert(spec_index(comp(all_spec(0), all_spec(20))) == 19);
    assert(rho_t(19) =~= pthen(rho_t(0), rho_t(20)));
    assert(spec_index(comp(all_spec(0), all_spec(10))) == 9);
    assert(rho_t(9) =~= pthen(rho_t(0), rho_t(10)));
    assert(spec_index(comp(all_spec(0), all_spec(17))) == 16);
    assert(rho_t(16) =~= pthen(rho_t(0), rho_t(17)));
    assert(spec_index(comp(all_spec(0), all_spec(7))) == 6);
    assert(rho_t(6) =~= pthen(rho_t(0), rho_t(7)));
    assert(spec_index(comp(all_spec(0), all_spec(13))) == 12);
    assert(rho_t(12) =~= pthen(rho_t(0), rho_t(13)));
    assert(spec_index(comp(all_spec(0), all_spec(19))) == 18);
    assert(rho_t(18) =~= pthen(rho_t(0), rho_t(19)));
    assert(spec_index(comp(all_spec(0), all_spec(15))) == 17);
    assert(rho_t(17) =~= pthen(rho_t(0), rho_t(15)));
    assert(spec_index(comp(all_spec(0), all_spec(22))) == 21);
    assert(rho_t(21) =~= pthen(rho_t(0), rho_t(22)));
    assert(spec_index(comp(all_spec(0), all_spec(6))) == 8);
    assert(rho_t(8) =~= pthen(rho_t(0), rho_t(6)));
    assert(spec_index(comp(all_spec(1), all_spec(20))) == 20);
    assert(rho_t(20) =~= pthen(rho_t(1), rho_t(20)));
    assert(spec_index(comp(all_spec(1), all_spec(10))) == 10);
    assert(rho_t(10) =~= pthen(rho_t(1), rho_t(10)));
    assert(spec_index(comp(all_spec(1), all_spec(17))) == 17);
    assert(rho_t(17) =~= pthen(rho_t(1), rho_t(17)));
    assert(spec_index(comp(all_spec(1), all_spec(7))) == 7);
    assert(rho_t(7) =~= pthen(rho_t(1), rho_t(7)));
    assert(spec_index(comp(all_spec(1), all_spec(13))) == 13);
    assert(rho_t(13) =~= pthen(rho_t(1), rho_t(13)));
    assert(spec_index(comp(all_spec(1), all_spec(19))) == 19);
    assert(rho_t(19) =~= pthen(rho_t(1), rho_t(19)));
    assert(spec_index(comp(all_spec(1), all_spec(15))) == 15);
    assert(rho_t(15) =~= pthen(rho_t(1), rho_t(15)));
    assert(spec_index(comp(all_spec(1), all_spec(22))) == 22);
    assert(rho_t(22) =~= pthen(rho_t(1), rho_t(22)));
    assert(spec_index(comp(all_spec(1), all_spec(6))) == 6);
    assert(rho_t(6) =~= pthen(rho_t(1), rho_t(6)));
}

#[verifier::rlimit(100)]
#[verifier::spinoff_prover]
proof fn lemma_rho_comp_axial_1(i: int, j: int)
    requires
        2 <= i < 4,
        axial_part_of_index(j) is Some,
        j != 1,
    ensures
        rho_t(spec_index(comp(all_spec(i), all_spec(j)))) == pthen(rho_t(i), rho_t(j)),
{
    reveal(pthen);
    reveal(rho_t);
    reveal(crate::rotation::all_spec);
    reveal(crate::rotation::spec_index);
    reveal(crate::rotation::comp);
    assert(spec_index(comp(all_spec(2), all_spec(20))) == 18);
    assert(rho_t(18) =~= pthen(rho_t(2), rho_t(20)));
    assert(spec_index(comp(all_spec(2), all_spec(10))) == 11);
    assert(rho_t(11) =~= pthen(rho_t(2), rho_t(10)));
    assert(spec_index(comp(all_spec(2), all_spec(17))) == 15);
    assert(rho_t(15) =~= pthen(rho_t(2), rho_t(17)));
    assert(spec_index(comp(all_spec(2), all_spec(7))) == 8);
    assert(rho_t(8) =~= pthen(rho_t(2), rho_t(7)));
    assert(spec_index(comp(all_spec(2), all_spec(13))) == 14);
    assert(rho_t(14) =~= pthen(rho_t(2), rho_t(13)));
    assert(spec_index(comp(all_spec(2), all_spec(19))) == 20);
    assert(rho_t(20) =~= pthen(rho_t(2), rho_t(19)));
    assert(spec_index(comp(all_spec(2), all_spec(15))) == 16);
    assert(rho_t(16) =~= pthen(rho_t(2), rho_t(15)));
    assert(spec_index(comp(all_spec(2), all_spec(22))) == 23);
    assert(rho_t(23) =~= pthen(rho_t(2), rho_t(22)));
    assert(spec_index(comp(all_spec(2), all_spec(6))) == 7);
    assert(rho_t(7) =~= pthen(rho_t(2), rho_t(6)));
    assert(spec_index(comp(all_spec(3), all_spec(20))) == 23);
    assert(rho_t(23) =~= pthen(rho_t(3), rho_t(20)));
    assert(spec_index(comp(all_spec(3), all_spec(10))) == 6);
    assert(rho_t(6) =~= pthen(rho_t(3), rho_t(10)));
    assert(spec_index(comp(all_spec(3), all_spec(17))) == 14);
    assert(rho_t(14) =~= pthen(rho_t(3), rho_t(17)));
    assert(spec_index(comp(all_spec(3), all_spec(7))) == 9);
    assert(rho_t(9) =~= pthen(rho_t(3), rho_t(7)));
    assert(spec_index(comp(all_spec(3), all_spec(13))) == 15);
    assert(rho_t(15) =~= pthen(rho_t(3), rho_t(13)));
    assert(spec_index(comp(all_spec(3), all_spec(19))) == 21);
    assert(rho_t(21) =~= pthen(rho_t(3), rho_t(19)));
    assert(spec_index(comp(all_spec(3), all_spec(15))) == 13);
    assert(rho_t(13) =~= pthen(rho_t(3), rho_t(15)));
    assert(spec_index(comp(all_spec(3), all_spec(22))) == 18);
    assert(rho_t(18) =~= pthen(rho_t(3), rho_t(22)));
    assert(spec_index(comp(all_spec(3), all_spec(6))) == 10);
    assert(rho_t(10) =~= pthen(rho_t(3), rho_t(6)));
}

#[verifier::rlimit(100)]
#[verifier::spinoff_prover]
proof fn lemma_rho_comp_axial_2(i: int, j: int)
    requires
        4 <= i < 6,
        axial_part_of_index(j) is Some,
        j != 1,
    ensures
        rho_t(spec_index(comp(all_spec(i), all_spec(j)))) == pthen(rho_t(i), rho_t(j)),
{
    reveal(pthen);
    reveal(rho_t);
    reveal(crate::rotation::all_spec);
    reveal(crate::rotation::spec_index);
    reveal(crate::rotation::comp);
    assert(spec_index(comp(all_spec(4), all_spec(20))) == 21);
    assert(rho_t(21) =~= pthen(rho_t(4), rho_t(20)));
    assert(spec_index(comp(all_spec(4), all_spec(10))) == 7);
    assert(rho_t(7) =~= pthen(rho_t(4), rho_t(10)));
    assert(spec_index(comp(all_spec(4), all_spec(17))) == 12);
    assert(rho_t(12) =~= pthen(rho_t(4), rho_t(17)));
    assert(spec_index(comp(all_spec(4), all_spec(7))) == 10);
    assert(rho_t(10) =~= pthen(rho_t(4), rho_t(7)));
    assert(spec_index(comp(all_spec(4), all_spec(13))) == 16);
    assert(rho_t(16) =~= pthen(rho_t(4), rho_t(13)));
    assert(spec_index(comp(all_spec(4), all_spec(19))) == 22);
    assert(rho_t(22) =~= pthen(rho_t(4), rho_t(19)));
    assert(spec_index(comp(all_spec(4), all_spec(15))) == 14);
    assert(rho_t(14) =~= pthen(rho_t(4), rho_t(15)));
    assert(spec_index(comp(all_spec(4), all_spec(22))) == 19);
    assert(rho_t(19) =~= pthen(rho_t(4), rho_t(22)));
    assert(spec_index(comp(all_spec(4), all_spec(6))) == 11);
    assert(rho_t(11) =~= pthen(rho_t(4), rho_t(6)));
    assert(spec_index(comp(all_spec(5), all_spec(20))) == 22);
    assert(rho_t(22) =~= pthen(rho_t(5), rho_t(20)));
    assert(spec_index(comp(all_spec(5), all_spec(10))) == 8);
    assert(rho_t(8) =~= pthen(rho_t(5), rho_t(10)));
    assert(spec_index(comp(all_spec(5), all_spec(17))) == 13);
    assert(rho_t(13) =~= pthen(rho_t(5), rho_t(17)));
    assert(spec_index(comp(all_spec(5), all_spec(7))) == 11);
    assert(rho_t(11) =~= pthen(rho_t(5), rho_t(7)));
    assert(spec_index(comp(all_spec(5), all_spec(13))) == 17);
    assert(rho_t(17) =~= pthen(rho_t(5), rho_t(13)));
    assert(spec_index(comp(all_spec(5), all_spec(19))) == 23);
    assert(rho_t(23) =~= pthen(rho_t(5), rho_t(19)));
    assert(spec_index(comp(all_spec(5), all_spec(15))) == 12);
    assert(rho_t(12) =~= pthen(rho_t(5), rho_t(15)));
    assert(spec_index(comp(all_spec(5), all_spec(22))) == 20);
    assert(rho_t(20) =~= pthen(rho_t(5), rho_t(22)));
    assert(spec_index(comp(all_spec(5), all_spec(6))) == 9);
    assert(rho_t(9) =~= pthen(rho_t(5), rho_t(6)));
}

#[verifier::rlimit(100)]
#[verifier::spinoff_prover]
proof fn lemma_rho_comp_axial_3(i: int, j: int)
    requires
        6 <= i < 8,
        axial_part_of_index(j) is Some,
        j != 1,
    ensures
        rho_t(spec_index(comp(all_spec(i), all_spec(j)))) == pthen(rho_t(i), rho_t(j)),
{
    reveal(pthen);
    reveal(rho_t);
    reveal(crate::rotation::all_spec);
    reveal(crate::rotation::spec_index);
    reveal(crate::rotation::comp);
    assert(spec_index(comp(all_spec(6), all_spec(20))) == 14);
    assert(rho_t(14) =~= pthen(rho_t(6), rho_t(20)));
    assert(spec_index(comp(all_spec(6), all_spec(10))) == 3);
    assert(rho_t(3) =~= pthen(rho_t(6), rho_t(10)));
    assert(spec_index(comp(all_spec(6), all_spec(17))) == 23);
    assert(rho_t(23) =~= pthen(rho_t(6), rho_t(17)));
    assert(spec_index(comp(all_spec(6), all_spec(7))) == 12);
    assert(rho_t(12) =~= pthen(rho_t(6), rho_t(7)));
    assert(spec_index(comp(all_spec(6), all_spec(13))) == 18);
    assert(rho_t(18) =~= pthen(rho_t(6), rho_t(13)));
    assert(spec_index(comp(all_spec(6), all_spec(19))) == 0);
    assert(rho_t(0) =~= pthen(rho_t(6), rho_t(19)));
    assert(spec_index(comp(all_spec(6), all_spec(15))) == 1);
    assert(rho_t(1) =~= pthen(rho_t(6), rho_t(15)));
    assert(spec_index(comp(all_spec(6), all_spec(22))) == 15);
    assert(rho_t(15) =~= pthen(rho_t(6), rho_t(22)));
    assert(spec_index(comp(all_spec(6), all_spec(6))) == 22);
    assert(rho_t(22) =~= pthen(rho_t(6), rho_t(6)));
    assert(spec_index(comp(all_spec(7), all_spec(20))) == 12);
    assert(rho_t(12) =~= pthen(rho_t(7), rho_t(20)));
    assert(spec_index(comp(all_spec(7), all_spec(10))) == 4);
    assert(rho_t(4) =~= pthen(rho_t(7), rho_t(10)));
    assert(spec_index(comp(all_spec(7), all_spec(17))) == 21);
    assert(rho_t(21) =~= pthen(rho_t(7), rho_t(17)));
    assert(spec_index(comp(all_spec(7), all_spec(7))) == 13);
    assert(rho_t(13) =~= pthen(rho_t(7), rho_t(7)));
    assert(spec_index(comp(all_spec(7), all_spec(13))) == 19);
    assert(rho_t(19) =~= pthen(rho_t(7), rho_t(13)));
    assert(spec_index(comp(all_spec(7), all_spec(19))) == 1);
    assert(rho_t(1) =~= pthen(rho_t(7), rho_t(19)));
    assert(spec_index(comp(all_spec(7), all_spec(15))) == 2);
    assert(rho_t(2) =~= pthen(rho_t(7), rho_t(15)));
    assert(spec_index(comp(all_spec(7), all_spec(22))) == 16);
    assert(rho_t(16) =~= pthen(rho_t(7), rho_t(22)));
    assert(spec_index(comp(all_spec(7), all_spec(6))) == 23);
    assert(rho_t(23) =~= pthen(rho_t(7), rho_t(6)));
}

#[verifier::rlimit(100)]
#[verifier::spinoff_prover]
proof fn lemma_rho_comp_axial_4(i: int, j: int)
    requires
        8 <= i < 10,
        axial_part_of_index(j) is Some,
        j != 1,
    ensures
        rho_t(spec_index(comp(all_spec(i), all_spec(j)))) == pthen(rho_t(i), rho_t(j)),
{
    reveal(pthen);
    reveal(rho_t);
    reveal(crate::rotation::all_spec);
    reveal(crate::rotation::spec_index);
    reveal(crate::rotation::comp);
    assert(spec_index(comp(all_spec(8), all_spec(20))) == 13);
    assert(rho_t(13) =~= pthen(rho_t(8), rho_t(20)));
    assert(spec_index(comp(all_spec(8), all_spec(10))) == 5);
    assert(rho_t(5) =~= pthen(rho_t(8), rho_t(10)));
    assert(spec_index(comp(all_spec(8), all_spec(17))) == 22);
    assert(rho_t(22) =~= pthen(rho_t(8), rho_t(17)));
    assert(spec_index(comp(all_spec(8), all_spec(7))) == 14);
    assert(rho_t(14) =~= pthen(rho_t(8), rho_t(7)));
    assert(spec_index(comp(all_spec(8), all_spec(13))) == 20);
    assert(rho_t(20) =~= pthen(rho_t(8), rho_t(13)));
    assert(spec_index(comp(all_spec(8), all_spec(19))) == 2);
    assert(rho_t(2) =~= pthen(rho_t(8), rho_t(19)));
    assert(spec_index(comp(all_spec(8), all_spec(15))) == 0);
    assert(rho_t(0) =~= pthen(rho_t(8), rho_t(15)));
    assert(spec_index(comp(all_spec(8), all_spec(22))) == 17);
    assert(rho_t(17) =~= pthen(rho_t(8), rho_t(22)));
    assert(spec_index(comp(all_spec(8), all_spec(6))) == 21);
    assert(rho_t(21) =~= pthen(rho_t(8), rho_t(6)));
    assert(spec_index(comp(all_spec(9), all_spec(20))) == 16);
    assert(rho_t(16) =~= pthen(rho_t(9), rho_t(20)));
    assert(spec_index(comp(all_spec(9), all_spec(10))) == 0);
    assert(rho_t(0) =~= pthen(rho_t(9), rho_t(10)));
    assert(spec_index(comp(all_spec(9), all_spec(17))) == 19);
    assert(rho_t(19) =~= pthen(rho_t(9), rho_t(17)));
    assert(spec_index(comp(all_spec(9), all_spec(7))) == 15);
    assert(rho_t(15) =~= pthen(rho_t(9), rho_t(7)));
    assert(spec_index(comp(all_spec(9), all_spec(13))) == 21);
    assert(rho_t(21) =~= pthen(rho_t(9), rho_t(13)));
    assert(spec_index(comp(all_spec(9), all_spec(19))) == 3);
    assert(rho_t(3) =~= pthen(rho_t(9), rho_t(19)));
    assert(spec_index(comp(all_spec(9), all_spec(15))) == 5);
    assert(rho_t(5) =~= pthen(rho_t(9), rho_t(15)));
    assert(spec_index(comp(all_spec(9), all_spec(22))) == 12);
    assert(rho_t(12) =~= pthen(rho_t(9), rho_t(22)));
    assert(spec_index(comp(all_spec(9), all_spec(6))) == 20);
    assert(rho_t(20) =~= pthen(rho_t(9), rho_t(6)));
}

#[verifier::rlimit(100)]
#[verifier::spinoff_prover]
proof fn lemma_rho_comp_axial_5(i: int, j: int)
    requires
        10 <= i < 12,
        axial_part_of_index(j) is Some,
        j != 1,
    ensures
        rho_t(spec_index(comp(all_spec(i), all_spec(j)))) == pthen(rho_t(i), rho_t(j)),
{
    reveal(pthen);
    reveal(rho_t);
    reveal(crate::rotation::all_spec);
    reveal(crate::rotation::spec_index);
    reveal(crate::rotation::comp);
    assert(spec_index(comp(all_spec(10), all_spec(20))) == 17);
    assert(rho_t(17) =~= pthen(rho_t(10), rho_t(20)));
    assert(spec_index(comp(all_spec(10), all_spec(10))) == 1);
    assert(rho_t(1) =~= pthen(rho_t(10), rho_t(10)));
    assert(spec_index(comp(all_spec(10), all_spec(17))) == 20);
    assert(rho_t(20) =~= pthen(rho_t(10), rho_t(17)));
    assert(spec_index(comp(all_spec(10), all_spec(7))) == 16);
    assert(rho_t(16) =~= pthen(rho_t(10), rho_t(7)));
    assert(spec_index(comp(all_spec(10), all_spec(13))) == 22);
    assert(rho_t(22) =~= pthen(rho_t(10), rho_t(13)));
    assert(spec_index(comp(all_spec(10), all_spec(19))) == 4);
    assert(rho_t(4) =~= pthen(rho_t(10), rho_t(19)));
    assert(spec_index(comp(all_spec(10), all_spec(15))) == 3);
    assert(rho_t(3) =~= pthen(rho_t(10), rho_t(15)));
    assert(spec_index(comp(all_spec(10), all_spec(22))) == 13);
    assert(rho_t(13) =~= pthen(rho_t(10), rho_t(22)));
    assert(spec_index(comp(all_spec(10), all_spec(6))) == 18);
    assert(rho_t(18) =~= pthen(rho_t(10), rho_t(6)));
    assert(spec_index(comp(all_spec(11), all_spec(20))) == 15);
    assert(rho_t(15) =~= pthen(rho_t(11), rho_t(20)));
    assert(spec_index(comp(all_spec(11), all_spec(10))) == 2);
    assert(rho_t(2) =~= pthen(rho_t(11), rho_t(10)));
    assert(spec_index(comp(all_spec(11), all_spec(17))) == 18);
    assert(rho_t(18) =~= pthen(rho_t(11), rho_t(17)));
    assert(spec_index(comp(all_spec(11), all_spec(7))) == 17);
    assert(rho_t(17) =~= pthen(rho_t(11), rho_t(7)));
    assert(spec_index(comp(all_spec(11), all_spec(13))) == 23);
    assert(rho_t(23) =~= pthen(rho_t(11), rho_t(13)));
    assert(spec_index(comp(all_spec(11), all_spec(19))) == 5);
    assert(rho_t(5) =~= pthen(rho_t(11), rho_t(19)));
    assert(spec_index(comp(all_spec(11), all_spec(15))) == 4);
    assert(rho_t(4) =~= pthen(rho_t(11), rho_t(15)));
    assert(spec_index(comp(all_spec(11), all_spec(22))) == 14);
    assert(rho_t(14) =~= pthen(rho_t(11), rho_t(22)));
    assert(spec_index(comp(all_spec(11), all_spec(6))) == 19);
    assert(rho_t(19) =~= pthen(rho_t(11), rho_t(6)));
}

#[verifier::rlimit(100)]
#[verifier::spinoff_prover]
proof fn lemma_rho_comp_axial_6(i: int, j: int)
    requires
        12 <= i < 14,
        axial_part_of_index(j) is Some,
        j != 1,
    ensures
        rho_t(spec_index(comp(all_spec(i), all_spec(j)))) == pthen(rho_t(i), rho_t(j)),
{
    reveal(pthen);
    reveal(rho_t);
    reveal(crate::rotation::all_spec);
    reveal(crate::rotation::spec_index);
    reveal(crate::rotation::comp);
    assert(spec_index(comp(all_spec(12), all_spec(20))) == 4);
    assert(rho_t(4) =~= pthen(rho_t(12), rho_t(20)));
    assert(spec_index(comp(all_spec(12), all_spec(10))) == 21);
    assert(rho_t(21) =~= pthen(rho_t(12), rho_t(10)));
    assert(spec_index(comp(all_spec(12), all_spec(17))) == 7);
    assert(rho_t(7) =~= pthen(rho_t(12), rho_t(17)));
    assert(spec_index(comp(all_spec(12), all_spec(7))) == 18);
    assert(rho_t(18) =~= pthen(rho_t(12), rho_t(7)));
    assert(spec_index(comp(all_spec(12), all_spec(13))) == 0);
    assert(rho_t(0) =~= pthen(rho_t(12), rho_t(13)));
    assert(spec_index(comp(all_spec(12), all_spec(19))) == 6);
    assert(rho_t(6) =~= pthen(rho_t(12), rho_t(19)));
    assert(spec_index(comp(all_spec(12), all_spec(15))) == 20);
    assert(rho_t(20) =~= pthen(rho_t(12), rho_t(15)));
    assert(spec_index(comp(all_spec(12), all_spec(22))) == 9);
    assert(rho_t(9) =~= pthen(rho_t(12), rho_t(22)));
    assert(spec_index(comp(all_spec(12), all_spec(6))) == 5);
    assert(rho_t(5) =~= pthen(rho_t(12), rho_t(6)));
    assert(spec_index(comp(all_spec(13), all_spec(20))) == 5);
    assert(rho_t(5) =~= pthen(rho_t(13), rho_t(20)));
    assert(spec_index(comp(all_spec(13), all_spec(10))) == 22);
    assert(rho_t(22) =~= pthen(rho_t(13), rho_t(10)));
    assert(spec_index(comp(all_spec(13), all_spec(17))) == 8);
    assert(rho_t(8) =~= pthen(rho_t(13), rho_t(17)));
    assert(spec_index(comp(all_spec(13), all_spec(7))) == 19);
    assert(rho_t(19) =~= pthen(rho_t(13), rho_t(7)));
    assert(spec_index(comp(all_spec(13), all_spec(13))) == 1);
    assert(rho_t(1) =~= pthen(rho_t(13), rho_t(13)));
    assert(spec_index(comp(all_spec(13), all_spec(19))) == 7);
    assert(rho_t(7) =~= pthen(rho_t(13), rho_t(19)));
    assert(spec_index(comp(all_spec(13), all_spec(15))) == 18);
    assert(rho_t(18) =~= pthen(rho_t(13), rho_t(15)));
    assert(spec_index(comp(all_spec(13), all_spec(22))) == 10);
    assert(rho_t(10) =~= pthen(rho_t(13), rho_t(22)));
    assert(spec_index(comp(all_spec(13), all_spec(6))) == 3);
    assert(rho_t(3) =~= pthen(rho_t(13), rho_t(6)));
}

#[verifier::rlimit(100)]
#[verifier::spinoff_prover]
proof fn lemma_rho_comp_axial_7(i: int, j: int)
    requires
        14 <= i < 16,
        axial_part_of_index(j) is Some,
        j != 1,
    ensures
        rho_t(spec_index(comp(all_spec(i), all_spec(j)))) == pthen(rho_t(i), rho_t(j)),
{
    reveal(pthen);
    reveal(rho_t);
    reveal(crate::rotation::all_spec);
    reveal(crate::rotation::spec_index);
    reveal(crate::rotation::comp);
    assert(spec_index(comp(all_spec(14), all_spec(20))) == 3);
    assert(rho_t(3) =~= pthen(rho_t(14), rho_t(20)));
    assert(spec_index(comp(all_spec(14), all_spec(10))) == 23);
    assert(rho_t(23) =~= pthen(rho_t(14), rho_t(10)));
    assert(spec_index(comp(all_spec(14), all_spec(17))) == 6);
    assert(rho_t(6) =~= pthen(rho_t(14), rho_t(17)));
    assert(spec_index(comp(all_spec(14), all_spec(7))) == 20);
    assert(rho_t(20) =~= pthen(rho_t(14), rho_t(7)));
    assert(spec_index(comp(all_spec(14), all_spec(13))) == 2);
    assert(rho_t(2) =~= pthen(rho_t(14), rho_t(13)));
    assert(spec_index(comp(all_spec(14), all_spec(19))) == 8);
    assert(rho_t(8) =~= pthen(rho_t(14), rho_t(19)));
    assert(spec_index(comp(all_spec(14), all_spec(15))) == 19);
    assert(rho_t(19) =~= pthen(rho_t(14), rho_t(15)));
    assert(spec_index(comp(all_spec(14), all_spec(22))) == 11);
    assert(rho_t(11) =~= pthen(rho_t(14), rho_t(22)));
    assert(spec_index(comp(all_spec(14), all_spec(6))) == 4);
    assert(rho_t(4) =~= pthen(rho_t(14), rho_t(6)));
    assert(spec_index(comp(all_spec(15), all_spec(20))) == 2);
    assert(rho_t(2) =~= pthen(rho_t(15), rho_t(20)));
    assert(spec_index(comp(all_spec(15), all_spec(10))) == 18);
    assert(rho_t(18) =~= pthen(rho_t(15), rho_t(10)));
    assert(spec_index(comp(all_spec(15), all_spec(17))) == 11);
    assert(rho_t(11) =~= pthen(rho_t(15), rho_t(17)));
    assert(spec_index(comp(all_spec(15), all_spec(7))) == 21);
    assert(rho_t(21) =~= pthen(rho_t(15), rho_t(7)));
    assert(spec_index(comp(all_spec(15), all_spec(13))) == 3);
    assert(rho_t(3) =~= pthen(rho_t(15), rho_t(13)));
    assert(spec_index(comp(all_spec(15), all_spec(19))) == 9);
    assert(rho_t(9) =~= pthen(rho_t(15), rho_t(19)));
    assert(spec_index(comp(all_spec(15), all_spec(15))) == 22);
    assert(rho_t(22) =~= pthen(rho_t(15), rho_t(15)));
    assert(spec_index(comp(all_spec(15), all_spec(22))) == 6);
    assert(rho_t(6) =~= pthen(rho_t(15), rho_t(22)));
    assert(spec_index(comp(all_spec(15), all_spec(6))) == 1);
    assert(rho_t(1) =~= pthen(rho_t(15), rho_t(6)));
}

#[verifier::rlimit(100)]
#[verifier::spinoff_prover]
proof fn lemma_rho_comp_axial_8(i: int, j: int)
    requires
        16 <= i < 18,
        axial_part_of_index(j) is Some,
        j != 1,
    ensures
        rho_t(spec_index(comp(all_spec(i), all_spec(j)))) == pthen(rho_t(i), rho_t(j)),
{
    reveal(pthen);
    reveal(rho_t);
    reveal(crate::rotation::all_spec);
    reveal(crate::rotation::spec_index);
    reveal(crate::rotation::comp);
    assert(spec_index(comp(all_spec(16), all_spec(20))) == 0);
    assert(rho_t(0) =~= pthen(rho_t(16), rho_t(20)));
    assert(spec_index(comp(all_spec(16), all_spec(10))) == 19);
    assert(rho_t(19) =~= pthen(rho_t(16), rho_t(10)));
    assert(spec_index(comp(all_spec(16), all_spec(17))) == 9);
    assert(rho_t(9) =~= pthen(rho_t(16), rho_t(17)));
    assert(spec_index(comp(all_spec(16), all_spec(7))) == 22);
    assert(rho_t(22) =~= pthen(rho_t(16), rho_t(7)));
    assert(spec_index(comp(all_spec(16), all_spec(13))) == 4);
    assert(rho_t(4) =~= pthen(rho_t(16), rho_t(13)));
    assert(spec_index(comp(all_spec(16), all_spec(19))) == 10);
    assert(rho_t(10) =~= pthen(rho_t(16), rho_t(19)));
    assert(spec_index(comp(all_spec(16), all_spec(15))) == 23);
    assert(rho_t(23) =~= pthen(rho_t(16), rho_t(15)));
    assert(spec_index(comp(all_spec(16), all_spec(22))) == 7);
    assert(rho_t(7) =~= pthen(rho_t(16), rho_t(22)));
    assert(spec_index(comp(all_spec(16), all_spec(6))) == 2);
    assert(rho_t(2) =~= pthen(rho_t(16), rho_t(6)));
    assert(spec_index(comp(all_spec(17), all_spec(20))) == 1);
    assert(rho_t(1) =~= pthen(rho_t(17), rho_t(20)));
    assert(spec_index(comp(all_spec(17), all_spec(10))) == 20);
    assert(rho_t(20) =~= pthen(rho_t(17), rho_t(10)));
    assert(spec_index(comp(all_spec(17), all_spec(17))) == 10);
    assert(rho_t(10) =~= pthen(rho_t(17), rho_t(17)));
    assert(spec_index(comp(all_spec(17), all_spec(7))) == 23);
    assert(rho_t(23) =~= pthen(rho_t(17), rho_t(7)));
    assert(spec_index(comp(all_spec(17), all_spec(13))) == 5);
    assert(rho_t(5) =~= pthen(rho_t(17), rho_t(13)));
    assert(spec_index(comp(all_spec(17), all_spec(19))) == 11);
    assert(rho_t(11) =~= pthen(rho_t(17), rho_t(19)));
    assert(spec_index(comp(all_spec(17), all_spec(15))) == 21);
    assert(rho_t(21) =~= pthen(rho_t(17), rho_t(15)));
    assert(spec_index(comp(all_spec(17), all_spec(22))) == 8);
    assert(rho_t(8) =~= pthen(rho_t(17), rho_t(22)));
    assert(spec_index(comp(all_spec(17), all_spec(6))) == 0);
    assert(rho_t(0) =~= pthen(rho_t(17), rho_t(6)));
}

#[verifier::rlimit(100)]
#[verifier::spinoff_prover]
proof fn lemma_rho_comp_axial_9(i: int, j: int)
    requires
        18 <= i < 20,
        axial_part_of_index(j) is Some,
        j != 1,
    ensures
        rho_t(spec_index(comp(all_spec(i), all_spec(j)))) == pthen(rho_t(i), rho_t(j)),
{
    reveal(pthen);
    reveal(rho_t);
    reveal(crate::rotation::all_spec);
    reveal(crate::rotation::spec_index);
    reveal(crate::rotation::comp);
    assert(spec_index(comp(all_spec(18), all_spec(20))) == 11);
    assert(rho_t(11) =~= pthen(rho_t(18), rho_t(20)));
    assert(spec_index(comp(all_spec(18), all_spec(10))) == 15);
    assert(rho_t(15) =~= pthen(rho_t(18), rho_t(10)));
    assert(spec_index(comp(all_spec(18), all_spec(17))) == 2);
    assert(rho_t(2) =~= pthen(rho_t(18), rho_t(17)));
    assert(spec_index(comp(all_spec(18), all_spec(7))) == 0);
    assert(rho_t(0) =~= pthen(rho_t(18), rho_t(7)));
    assert(spec_index(comp(all_spec(18), all_spec(13))) == 6);
    assert(rho_t(6) =~= pthen(rho_t(18), rho_t(13)));
    assert(spec_index(comp(all_spec(18), all_spec(19))) == 12);
    assert(rho_t(12) =~= pthen(rho_t(18), rho_t(19)));
    assert(spec_index(comp(all_spec(18), all_spec(15))) == 10);
    assert(rho_t(10) =~= pthen(rho_t(18), rho_t(15)));
    assert(spec_index(comp(all_spec(18), all_spec(22))) == 3);
    assert(rho_t(3) =~= pthen(rho_t(18), rho_t(22)));
    assert(spec_index(comp(all_spec(18), all_spec(6))) == 13);
    assert(rho_t(13) =~= pthen(rho_t(18), rho_t(6)));
    assert(spec_index(comp(all_spec(19), all_spec(20))) == 9);
    assert(rho_t(9) =~= pthen(rho_t(19), rho_t(20)));
    assert(spec_index(comp(all_spec(19), all_spec(10))) == 16);
    assert(rho_t(16) =~= pthen(rho_t(19), rho_t(10)));
    assert(spec_index(comp(all_spec(19), all_spec(17))) == 0);
    assert(rho_t(0) =~= pthen(rho_t(19), rho_t(17)));
    assert(spec_index(comp(all_spec(19), all_spec(7))) == 1);
    assert(rho_t(1) =~= pthen(rho_t(19), rho_t(7)));
    assert(spec_index(comp(all_spec(19), all_spec(13))) == 7);
    assert(rho_t(7) =~= pthen(rho_t(19), rho_t(13)));
    assert(spec_index(comp(all_spec(19), all_spec(19))) == 13);
    assert(rho_t(13) =~= pthen(rho_t(19), rho_t(19)));
    assert(spec_index(comp(all_spec(19), all_spec(15))) == 11);
    assert(rho_t(11) =~= pthen(rho_t(19), rho_t(15)));
    assert(spec_index(comp(all_spec(19), all_spec(22))) == 4);
    assert(rho_t(4) =~= pthen(rho_t(19), rho_t(22)));
    assert(spec_index(comp(all_spec(19), all_spec(6))) == 14);
    assert(rho_t(14) =~= pthen(rho_t(19), rho_t(6)));
}

#[verifier::rlimit(100)]
#[verifier::spinoff_prover]
proof fn lemma_rho_comp_axial_10(i: int, j: int)
    requires
        20 <= i < 22,
        axial_part_of_index(j) is Some,
        j != 1,
    ensures
        rho_t(spec_index(comp(all_spec(i), all_spec(j)))) == pthen(rho_t(i), rho_t(j)),
{
    reveal(pthen);
    reveal(rho_t);
    reveal(crate::rotation::all_spec);
    reveal(crate::rotation::spec_index);
    reveal(crate::rotation::comp);
    assert(spec_index(comp(all_spec(20), all_spec(20))) == 10);
    assert(rho_t(10) =~= pthen(rho_t(20), rho_t(20)));
    assert(spec_index(comp(all_spec(20), all_spec(10))) == 17);
    assert(rho_t(17) =~= pthen(rho_t(20), rho_t(10)));
    assert(spec_index(comp(all_spec(20), all_spec(17))) == 1);
    assert(rho_t(1) =~= pthen(rho_t(20), rho_t(17)));
    assert(spec_index(comp(all_spec(20), all_spec(7))) == 2);
    assert(rho_t(2) =~= pthen(rho_t(20), rho_t(7)));
    assert(spec_index(comp(all_spec(20), all_spec(13))) == 8);
    assert(rho_t(8) =~= pthen(rho_t(20), rho_t(13)));
    assert(spec_index(comp(all_spec(20), all_spec(19))) == 14);
    assert(rho_t(14) =~= pthen(rho_t(20), rho_t(19)));
    assert(spec_index(comp(all_spec(20), all_spec(15))) == 9);
    assert(rho_t(9) =~= pthen(rho_t(20), rho_t(15)));
    assert(spec_index(comp(all_spec(20), all_spec(22))) == 5);
    assert(rho_t(5) =~= pthen(rho_t(20), rho_t(22)));
    assert(spec_index(comp(all_spec(20), all_spec(6))) == 12);
    assert(rho_t(12) =~= pthen(rho_t(20), rho_t(6)));
    assert(spec_index(comp(all_spec(21), all_spec(20))) == 7);
    assert(rho_t(7) =~= pthen(rho_t(21), rho_t(20)));
    assert(spec_index(comp(all_spec(21), all_spec(10))) == 12);
    assert(rho_t(12) =~= pthen(rho_t(21), rho_t(10)));
    assert(spec_index(comp(all_spec(21), all_spec(17))) == 4);
    assert(rho_t(4) =~= pthen(rho_t(21), rho_t(17)));
    assert(spec_index(comp(all_spec(21), all_spec(7))) == 3);
    assert(rho_t(3) =~= pthen(rho_t(21), rho_t(7)));
    assert(spec_index(comp(all_spec(21), all_spec(13))) == 9);
    assert(rho_t(9) =~= pthen(rho_t(21), rho_t(13)));
    assert(spec_index(comp(all_spec(21), all_spec(19))) == 15);
    assert(rho_t(15) =~= pthen(rho_t(21), rho_t(19)));
    assert(spec_index(comp(all_spec(21), all_spec(15))) == 8);
    assert(rho_t(8) =~= pthen(rho_t(21), rho_t(15)));
    assert(spec_index(comp(all_spec(21), all_spec(22))) == 0);
    assert(rho_t(0) =~= pthen(rho_t(21), rho_t(22)));
    assert(spec_index(comp(all_spec(21), all_spec(6))) == 17);
    assert(rho_t(17) =~= pthen(rho_t(21), rho_t(6)));
}

#[verifier::rlimit(100)]
#[verifier::spinoff_prover]
proof fn lemma_rho_comp_axial_11(i: int, j: int)
    requires
        22 <= i < 24,
        axial_part_of_index(j) is Some,
        j != 1,
    ensures
        rho_t(spec_index(comp(all_spec(i), all_spec(j)))) == pthen(rho_t(i), rho_t(j)),
{
    reveal(pthen);
    reveal(rho_t);
    reveal(crate::rotation::all_spec);
    reveal(crate::rotation::spec_index);
    reveal(crate::rotation::comp);
    assert(spec_index(comp(all_spec(22), all_spec(20))) == 8);
    assert(rho_t(8) =~= pthen(rho_t(22), rho_t(20)));
    assert(spec_index(comp(all_spec(22), all_spec(10))) == 13);
    assert(rho_t(13) =~= pthen(rho_t(22), rho_t(10)));
    assert(spec_index(comp(all_spec(22), all_spec(17))) == 5);
    assert(rho_t(5) =~= pthen(rho_t(22), rho_t(17)));
    assert(spec_index(comp(all_spec(22), all_spec(7))) == 4);
    assert(rho_t(4) =~= pthen(rho_t(22), rho_t(7)));
    assert(spec_index(comp(all_spec(22), all_spec(13))) == 10);
    assert(rho_t(10) =~= pthen(rho_t(22), rho_t(13)));
    assert(spec_index(comp(all_spec(22), all_spec(19))) == 16);
    assert(rho_t(16) =~= pthen(rho_t(22), rho_t(19)));
    assert(spec_index(comp(all_spec(22), all_spec(15))) == 6);
    assert(rho_t(6) =~= pthen(rho_t(22), rho_t(15)));
    assert(spec_index(comp(all_spec(22), all_spec(22))) == 1);
    assert(rho_t(1) =~= pthen(rho_t(22), rho_t(22)));
    assert(spec_index(comp(all_spec(22), all_spec(6))) == 15);
    assert(rho_t(15) =~= pthen(rho_t(22), rho_t(6)));
    assert(spec_index(comp(all_spec(23), all_spec(20))) == 6);
    assert(rho_t(6) =~= pthen(rho_t(23), rho_t(20)));
    assert(spec_index(comp(all_spec(23), all_spec(10))) == 14);
    assert(rho_t(14) =~= pthen(rho_t(23), rho_t(10)));
    assert(spec_index(comp(all_spec(23), all_spec(17))) == 3);
    assert(rho_t(3) =~= pthen(rho_t(23), rho_t(17)));
    assert(spec_index(comp(all_spec(23), all_spec(7))) == 5);
    assert(rho_t(5) =~= pthen(rho_t(23), rho_t(7)));
    assert(spec_index(comp(all_spec(23), all_spec(13))) == 11);
    assert(rho_t(11) =~= pthen(rho_t(23), rho_t(13)));
    assert(spec_index(comp(all_spec(23), all_spec(19))) == 17);
    assert(rho_t(17) =~= pthen(rho_t(23), rho_t(19)));
    assert(spec_index(comp(all_spec(23), all_spec(15))) == 7);
    assert(rho_t(7) =~= pthen(rho_t(23), rho_t(15)));
    assert(spec_index(comp(all_spec(23), all_spec(22))) == 2);
    assert(rho_t(2) =~= pthen(rho_t(23), rho_t(22)));
    assert(spec_index(comp(all_spec(23), all_spec(6))) == 16);
    assert(rho_t(16) =~= pthen(rho_t(23), rho_t(6)));
}

/// A rotation followed by an axial rotation moves the stickers as the
/// composite does.
pub proof fn lemma_rho_comp_axial(i: int, j: int)
    requires
        0 <= i < 24,
        axial_part_of_index(j) is Some,
        j != 1,
    ensures
        rho_t(spec_index(comp(all_spec(i), all_spec(j)))) == pthen(rho_t(i), rho_t(j)),
{
    if i < 2 {
        lemma_rho_comp_axial_0(i, j);
    } else if i < 4 {
        lemma_rho_comp_axial_1(i, j);
    } else if i < 6 {
        lemma_rho_comp_axial_2(i, j);
    } else if i < 8 {
        lemma_rho_comp_axial_3(i, j);
    } else if i < 10 {
        lemma_rho_comp_axial_4(i, j);
    } else if i < 12 {
        lemma_rho_comp_axial_5(i, j);
    } else if i < 14 {
        lemma_rho_comp_axial_6(i, j);
    } else if i < 16 {
        lemma_rho_comp_axial_7(i, j);
    } else if i < 18 {
        lemma_rho_comp_axial_8(i, j);
    } else if i < 20 {
        lemma_rho_comp_axial_9(i, j);
    } else if i < 22 {
        lemma_rho_comp_axial_10(i, j);
    } else if i < 24 {
        lemma_rho_comp_axial_11(i, j);
    }
}

/// The zero axial move does nothing.
pub proof fn lemma_aw_zero()
    ensures
        aw(AxialMove::new_spec(Axis::X, Z4::Zero, Z4::Zero)) == pid(),
{
    lemma_pid(pid());
}

/// The lift of a single turn does what the turn does.
pub proof fn lemma_aw_lift(f: Face, b: Z4)
    ensures
        aw(AxialMove::lift_spec(f, b)) == turn_of(f, b),
{
    lemma_turn_wf(f, b);
    lemma_pid(turn_of(f, b));
    if b == Z4::Zero {
        lemma_aw_zero();
    } else if f.neg_spec() {
        assert(Face::new_spec(f.axis_spec(), true) == f);
    } else {
        assert(Face::new_spec(f.axis_spec(), false) == f);
    }
}

/// Adding axial moves composes their sticker permutations.
pub proof fn lemma_aw_add(x: AxialMove, y: AxialMove, z: AxialMove)
    requires
        x.wf(),
        y.wf(),
        add_spec(x, y) == Some(z),
    ensures
        pthen(aw(x), aw(y)) == aw(z),
{
    reveal(add_spec);
    lemma_aw_wf(x);
    lemma_aw_wf(y);
    lemma_aw_wf(z);
    if x.is_zero_spec() {
        lemma_aw_zero();
        assert(x == AxialMove::new_spec(Axis::X, Z4::Zero, Z4::Zero));
        lemma_pid(aw(y));
    } else if y.is_zero_spec() {
        lemma_aw_zero();
        assert(y == AxialMove::new_spec(Axis::X, Z4::Zero, Z4::Zero));
        lemma_pid(aw(x));
    } else {
        let ax2 = x.axis_spec();
        let pf = Face::new_spec(ax2, false);
        let nf = Face::new_spec(ax2, true);
        let px = turn_of(pf, x.pos_spec());
        let nx = turn_of(nf, x.neg_spec());
        let py = turn_of(pf, y.pos_spec());
        let ny = turn_of(nf, y.neg_spec());
        lemma_turn_wf(pf, x.pos_spec());
        lemma_turn_wf(nf, x.neg_spec());
        lemma_turn_wf(pf, y.pos_spec());
        lemma_turn_wf(nf, y.neg_spec());
        lemma_pthen_wf(px, nx);
        lemma_pthen_wf(py, ny);
        lemma_pthen_wf(nx, py);
        lemma_pthen_wf(px, py);
        // regroup, swap the middle pair, regroup again
        lemma_pthen_assoc(pthen(px, nx), py, ny);
        lemma_pthen_assoc(px, nx, py);
        lemma_coax_commute(ax2, y.pos_spec(), x.neg_spec());
        assert(pthen(nx, py) == pthen(py, nx));
        lemma_pthen_assoc(px, py, nx);
        lemma_pthen_assoc(pthen(px, py), nx, ny);
        lemma_turn_add(pf, x.pos_spec(), y.pos_spec());
        lemma_turn_add(nf, x.neg_spec(), y.neg_spec());
        let zp = crate::basic::z4_add_spec(x.pos_spec(), y.pos_spec());
        let zn = crate::basic::z4_add_spec(x.neg_spec(), y.neg_spec());
        assert(pthen(aw(x), aw(y)) == pthen(turn_of(pf, zp), turn_of(nf, zn)));
        if zp == Z4::Zero && zn == Z4::Zero {
            // the sum is the zero move, normalised onto the X axis
            lemma_aw_zero();
            lemma_pid(pid());
            assert(turn_of(pf, zp) == pid() && turn_of(nf, zn) == pid());
            assert(pthen(pid(), pid()) == pid()) by {
                lemma_pid(pid());
            }
        } else {
            assert(z == AxialMove { axis: ax2, pos: zp, neg: zn });
        }
    }
}

/// The identity rotation leaves an axial move alone.
pub proof fn lemma_am_mul_id(x: AxialMove)
    requires
        x.wf(),
    ensures
        am_mul_spec(x, id_seq()) == x,
{
    crate::rotation::lemma_apply_id(Face::new_spec(x.axis_spec(), false));
}

/// Acting twice is acting by the composite.
pub proof fn lemma_am_mul_comp(x: AxialMove, p: Seq<u8>, q: Seq<u8>)
    requires
        x.wf(),
        wf_seq(p),
        wf_seq(q),
    ensures
        am_mul_spec(am_mul_spec(x, p), q) == am_mul_spec(x, comp(p, q)),
{
    let pf = Face::new_spec(x.axis_spec(), false);
    let nf1 = spec_apply(p, pf);
    let nf3 = spec_apply(comp(p, q), pf);
    crate::rotation::lemma_apply_action(p, q, pf);
    assert(nf3 == spec_apply(q, nf1));
    if nf1.neg_spec() {
        assert(Face::new_spec(nf1.axis_spec(), false) == nf1.opposite_spec());
        crate::rotation::lemma_apply_opposite(q, nf1);
    } else {
        assert(Face::new_spec(nf1.axis_spec(), false) == nf1);
    }
}

/// Acting distributes over addition of axial moves.
pub proof fn lemma_am_mul_add(x: AxialMove, y: AxialMove, z: AxialMove, p: Seq<u8>)
    requires
        x.wf(),
        y.wf(),
        wf_seq(p),
        add_spec(x, y) == Some(z),
    ensures
        add_spec(am_mul_spec(x, p), am_mul_spec(y, p)) == Some(am_mul_spec(z, p)),
{
    reveal(add_spec);
}

/// Subtracting and then adding the same axial move cancels.
pub proof fn lemma_add_inv_cancel(v: AxialMove, u: AxialMove, w: AxialMove)
    requires
        v.wf(),
        u.wf(),
        add_spec(v, inv_spec(u)) == Some(w),
    ensures
        add_spec(w, u) == Some(v),
{
    reveal(add_spec);
    reveal(inv_spec);
}

/// An input interval's net effect splits at any point inside it.
pub proof fn lemma_word_split(alg: Seq<Move>, l: int, k: int, r: int)
    requires
        l <= k <= r,
    ensures
        word_of(alg, l, r) == pthen(word_of(alg, l, k), word_of(alg, k, r)),
    decreases k - l,
{
    lemma_word_wf(alg, k, r);
    if l == k {
        lemma_pid(word_of(alg, k, r));
    } else {
        lemma_word_split(alg, l + 1, k, r);
        let t = turn_of(alg[l].face_spec(), alg[l].by_spec());
        lemma_turn_wf(alg[l].face_spec(), alg[l].by_spec());
        lemma_pthen_assoc(t, word_of(alg, l + 1, k), word_of(alg, k, r));
    }
}

/// A program's net effect is a sticker permutation.
pub proof fn lemma_prog_sem_wf(s: Seq<MoveOrRot>)
    ensures
        perm24(prog_sem(s)),
    decreases s.len(),
{
    if s.len() == 0 {
        lemma_pid(pid());
    } else {
        lemma_prog_sem_wf(s.drop_last());
        let e = s.last();
        assert(perm24(entry_sem(e))) by {
            match e {
                MoveOrRot::Move(m) => {
                    lemma_turn_wf(m.face_spec(), m.by_spec());
                },
                MoveOrRot::Rot(rr) => {
                    lemma_rho_wf(spec_index(rr@));
                },
            }
        }
        lemma_pthen_wf(prog_sem(s.drop_last()), entry_sem(e));
    }
}

/// Concatenating programs composes their net effects.
pub proof fn lemma_prog_sem_concat(a: Seq<MoveOrRot>, b: Seq<MoveOrRot>)
    ensures
        prog_sem(a + b) == pthen(prog_sem(a), prog_sem(b)),
    decreases b.len(),
{
    lemma_prog_sem_wf(a);
    if b.len() == 0 {
        assert(a + b =~= a);
        lemma_pid(prog_sem(a));
    } else {
        lemma_prog_sem_concat(a, b.drop_last());
        assert((a + b).drop_last() =~= a + b.drop_last());
        assert((a + b).last() == b.last());
        lemma_pthen_assoc(prog_sem(a), prog_sem(b.drop_last()), entry_sem(b.last()));
    }
}

/// One transition preserves meaning: what the state owes equals the
/// emitted move followed by what the two child states owe.
#[verifier::rlimit(100)]
pub proof fn lemma_transition_sem(
    alg: Seq<Move>,
    l: int,
    r: int,
    rot: Seq<u8>,
    ax: AxialMove,
    k: int,
    r1: Seq<u8>,
    u: AxialMove,
)
    requires
        0 <= l < r <= alg.len(),
        l + 1 <= k <= r,
        wf_seq(rot),
        wf_seq(r1),
        ax.wf(),
        u.wf(),
        u.is_zero_spec() || u.axis_spec() == spec_apply(
            perm_inv_spec(r1),
            alg[l].face_spec(),
        ).axis_spec(),
        choice_parts(alg, l, r, rot, ax, k, r1, u) is Some,
    ensures
        choice_parts(alg, l, r, rot, ax, k, r1, u) matches Some(st) ==> state_sem(
            alg,
            l,
            r,
            rot,
            ax,
        ) == pthen(
            turn_of(st.0.face_spec(), st.0.by_spec()),
            pthen(
                state_sem(alg, l + 1, k, st.1.2, st.1.3),
                state_sem(alg, k, r, st.2.2, st.2.3),
            ),
        ),
{
    reveal(quotient_spec);
    let q = perm_inv_spec(r1);
    crate::rotation::lemma_group(r1, rot, rot);
    let s = comp(q, rot);
    crate::rotation::lemma_comp_wf(q, rot);
    crate::rotation::lemma_complete(s);
    crate::rotation::lemma_complete(r1);
    let i1 = spec_index(r1);
    let js = spec_index(s);
    let ab = crate::rotation::axial_part_of_index(js).unwrap();
    let t3 = AxialMove::new_spec(ab.0, z4_neg_spec(ab.1), ab.1);
    let pack = AxialMove::new_spec(ab.0, ab.1, z4_neg_spec(ab.1));
    let ppack = am_mul_spec(pack, q);
    let fl = alg[l].face_spec();
    let bl = alg[l].by_spec();
    let acf = spec_apply(q, fl);
    let a1 = acf.axis_spec();
    let am_ac = AxialMove::lift_spec(acf, bl);
    let ct0 = am_mul_spec(ax, q);
    let v1 = add_spec(ppack, ct0).unwrap();
    let v2 = add_spec(v1, am_ac).unwrap();
    let fp = add_spec(v2, inv_spec(u)).unwrap();
    let st = choice_parts(alg, l, r, rot, ax, k, r1, u).unwrap();
    let f1 = st.0;
    let t2 = am_mul_spec(u, r1);
    // the quotient is the axial rotation the index names
    assert(s == axial_spec(ab.0, ab.1)) by {
        reveal(crate::rotation::all_spec);
    }
    // group bookkeeping: rot is r1 followed by the quotient
    assert(comp(r1, s) == rot) by {
        crate::rotation::lemma_group(r1, q, rot);
        assert(comp(comp(r1, q), rot) == comp(r1, comp(q, rot)));
        assert(comp(r1, q) == id_seq());
        crate::rotation::lemma_group(rot, rot, rot);
        assert(comp(id_seq(), rot) == rot);
    }
    // acting by q and then r1 is not acting at all
    assert(comp(q, r1) == id_seq()) by {
        crate::rotation::lemma_group(r1, rot, rot);
    }
    // a whole-cube rotation about one axis means its two face turns
    assert(rho(s) == aw(pack)) by {
        if ab.1 == Z4::Zero {
            assert(js == 1);
            lemma_rho_id();
            assert(pack == AxialMove::new_spec(Axis::X, Z4::Zero, Z4::Zero));
            lemma_aw_zero();
        } else {
            lemma_rho_axial(ab.0, ab.1);
        }
    }
    // the quotient cancels against its pending move
    let zero = AxialMove::new_spec(Axis::X, Z4::Zero, Z4::Zero);
    assert(add_spec(pack, t3) == Some(zero)) by {
        reveal(add_spec);
    }
    assert(pthen(rho(s), aw(t3)) == pid()) by {
        lemma_aw_add(pack, t3, zero);
        lemma_aw_zero();
    }
    // the state's rotation splits at the quotient
    assert(rho(rot) == pthen(rho(r1), rho(s))) by {
        if js == 1 {
            lemma_rho_id();
            assert(s == id_seq()) by {
                reveal(crate::rotation::all_spec);
            }
            crate::rotation::lemma_group(r1, rot, rot);
            assert(comp(r1, id_seq()) == r1);
            lemma_rho_wf(i1);
            lemma_pid(rho_t(i1));
        } else {
            lemma_rho_comp_axial(i1, js);
            assert(all_spec(i1) == r1 && all_spec(js) == s);
        }
    }
    // every summand lies on the conjugated axis or is zero, so the sums do
    assert(v1.wf() && v2.wf() && fp.wf()) by {
        reveal(add_spec);
        reveal(inv_spec);
    }
    assert((v2.is_zero_spec() || v2.axis_spec() == a1) && (fp.is_zero_spec() || fp.axis_spec()
        == a1)) by {
        reveal(add_spec);
        reveal(inv_spec);
    }
    // the emitted move lifts back to the amount the arithmetic left over
    assert(AxialMove::lift_spec(f1.face_spec(), f1.by_spec()) == fp) by {
        reveal(add_spec);
        reveal(inv_spec);
    }
    // everything the children owe transports through r1
    assert(spec_apply(r1, acf) == fl) by {
        crate::rotation::lemma_apply_action(q, r1, fl);
        crate::rotation::lemma_apply_id(fl);
    }
    assert(am_mul_spec(ppack, r1) == pack && am_mul_spec(ct0, r1) == ax) by {
        lemma_am_mul_comp(pack, q, r1);
        lemma_am_mul_comp(ax, q, r1);
        lemma_am_mul_id(pack);
        lemma_am_mul_id(ax);
    }
    assert(am_mul_spec(am_ac, r1) == AxialMove::lift_spec(fl, bl)) by {
        crate::rotation::lemma_lift_commutes(Move { face: acf, by: bl }, r1);
    }
    // the two sums, carried back out of the conjugated frame
    let v1r = am_mul_spec(v1, r1);
    let v2r = am_mul_spec(v2, r1);
    assert(add_spec(pack, ax) == Some(v1r)) by {
        lemma_am_mul_add(ppack, ct0, v1, r1);
    }
    assert(add_spec(v1r, AxialMove::lift_spec(fl, bl)) == Some(v2r)) by {
        lemma_am_mul_add(v1, am_ac, v2, r1);
    }
    assert(add_spec(fp, u) == Some(v2)) by {
        lemma_add_inv_cancel(v2, u, fp);
    }
    assert(add_spec(am_mul_spec(fp, r1), t2) == Some(v2r)) by {
        lemma_am_mul_add(fp, u, v2, r1);
    }
    assert(am_mul_spec(fp, r1) == AxialMove::lift_spec(spec_apply(r1, f1.face_spec()), f1.by_spec()))
        by {
        crate::rotation::lemma_lift_commutes(f1, r1);
    }
    // both brackets are the same axial move
    let g1 = spec_apply(r1, f1.face_spec());
    let b1 = f1.by_spec();
    assert(pthen(turn_of(g1, b1), aw(t2)) == aw(v2r)) by {
        lemma_aw_lift(g1, b1);
        lemma_aw_add(AxialMove::lift_spec(g1, b1), t2, v2r);
    }
    let w12 = pthen(word_of(alg, l + 1, k), word_of(alg, k, r));
    let w1 = word_of(alg, l + 1, k);
    let w2 = word_of(alg, k, r);
    lemma_word_wf(alg, l + 1, k);
    lemma_word_wf(alg, k, r);
    lemma_word_wf(alg, l, r);
    lemma_aw_wf(t2);
    lemma_aw_wf(t3);
    lemma_aw_wf(ax);
    lemma_aw_wf(v2r);
    lemma_rho_wf(i1);
    lemma_rho_wf(js);
    lemma_turn_wf(f1.face_spec(), b1);
    lemma_turn_wf(g1, b1);
    lemma_turn_wf(fl, bl);
    lemma_pthen_wf(rho_t(i1), turn_of(g1, b1));
    // the input interval splits at k
    assert(word_of(alg, l, r) == pthen(turn_of(fl, bl), w12)) by {
        lemma_word_split(alg, l + 1, k, r);
    }
    // the right child's meaning is just its interval
    assert(state_sem(alg, k, r, s, t3) == w2) by {
        lemma_pthen_assoc(rho(s), aw(t3), w2);
        lemma_pid(w2);
    }
    // assemble the left-hand side
    let sem_l = state_sem(alg, l + 1, k, r1, t2);
    assert(pthen(sem_l, w2) == pthen(rho_t(i1), pthen(aw(t2), w12))) by {
        lemma_pthen_wf(aw(t2), w1);
        lemma_pthen_assoc(rho_t(i1), pthen(aw(t2), w1), w2);
        lemma_pthen_assoc(aw(t2), w1, w2);
    }
    assert(pthen(turn_of(f1.face_spec(), b1), rho_t(i1)) == pthen(rho_t(i1), turn_of(g1, b1)))
        by {
        lemma_relabel(i1, f1.face_spec(), b1);
        assert(all_spec(i1) == r1);
    }
    let lhs = pthen(turn_of(f1.face_spec(), b1), pthen(sem_l, w2));
    assert(lhs == pthen(rho_t(i1), pthen(aw(v2r), w12))) by {
        lemma_pthen_assoc(turn_of(f1.face_spec(), b1), rho_t(i1), pthen(aw(t2), w12));
        lemma_pthen_assoc(rho_t(i1), turn_of(g1, b1), pthen(aw(t2), w12));
        lemma_pthen_assoc(turn_of(g1, b1), aw(t2), w12);
    }
    // assemble the right-hand side
    assert(pthen(aw(ax), pthen(turn_of(fl, bl), w12)) == pthen(
        pthen(aw(ax), turn_of(fl, bl)),
        w12,
    )) by {
        lemma_pthen_assoc(aw(ax), turn_of(fl, bl), w12);
    }
    assert(pthen(rho(s), pthen(pthen(aw(ax), turn_of(fl, bl)), w12)) == pthen(aw(v2r), w12)) by {
        lemma_aw_wf(pack);
        assert(pthen(aw(pack), pthen(aw(ax), turn_of(fl, bl))) == aw(v2r)) by {
            lemma_aw_lift(fl, bl);
            lemma_aw_add(v1r, AxialMove::lift_spec(fl, bl), v2r);
            lemma_aw_add(pack, ax, v1r);
            lemma_aw_wf(v1r);
            lemma_pthen_assoc(aw(pack), aw(ax), turn_of(fl, bl));
        }
        lemma_pthen_wf(aw(ax), turn_of(fl, bl));
        lemma_pthen_assoc(aw(pack), pthen(aw(ax), turn_of(fl, bl)), w12);
        assert(pthen(pthen(aw(pack), pthen(aw(ax), turn_of(fl, bl))), w12) == pthen(
            aw(v2r),
            w12,
        ));
    }
    let rhs = state_sem(alg, l, r, rot, ax);
    assert(rhs == pthen(rho_t(i1), pthen(aw(v2r), w12))) by {
        assert(rhs == pthen(pthen(rho_t(i1), rho(s)), pthen(aw(ax), pthen(turn_of(fl, bl), w12))));
        lemma_pthen_assoc(rho_t(i1), rho(s), pthen(aw(ax), pthen(turn_of(fl, bl), w12)));
        lemma_pthen_wf(aw(ax), turn_of(fl, bl));
        lemma_pthen_assoc(rho(s), pthen(aw(ax), turn_of(fl, bl)), w12);
        assert(pthen(rho(s), pthen(pthen(aw(ax), turn_of(fl, bl)), w12)) == pthen(aw(v2r), w12));
    }
    assert(lhs == rhs);
    assert(st.1.2 == r1 && st.1.3 == t2 && st.2.2 == s && st.2.3 == t3);
}

} // verus!
