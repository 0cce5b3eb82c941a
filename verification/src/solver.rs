//! The bottom-up optimiser. A state names a sub-interval of the input, a
//! whole-cube rotation still to be accounted for, and a pending axial
//! move that must fuse into the prefix of the program emitted for the
//! state. A transition picks a split point, a rotation for the left part
//! whose quotient against the state's rotation is axial, and an axial
//! residual deferred to the left part; the emitted move is whatever
//! amount remains on the axis of the first input move after the rotation
//! quotient, the pending and the deferral are folded in. Cost counts
//! emitted non-identity face turns and emitted non-identity rotations.

use vstd::prelude::*;

use crate::basic::{add_spec, inv_spec, z4_neg_spec, z4_of_int, Axis, AxialMove, Face, Move};
use crate::dp::{axis_ord, am_ord, DpArray, DpIndex};
use crate::rotation::{
    all_spec, am_mul_spec, axial_part_of_index, comp, id_seq, perm_inv_spec, spec_apply, spec_index, wf_seq, Rotation,
};
use crate::semantics::{
    entry_sem, lemma_aw_zero, lemma_pid, lemma_prog_sem_concat, lemma_rho_id, lemma_rho_wf, lemma_transition_sem, lemma_turn_wf, lemma_word_wf, pid, prog_sem, pthen, rho_t, state_sem, turn_of, word_of,
};
use crate::z4::Z4;

verus! {

/// One entry of a rewritten program: a face turn or a whole-cube
/// rotation.
#[derive(Debug, Clone, Copy, PartialEq, Eq, Structural)]
pub enum MoveOrRot {
    Move(Move),
    Rot(Rotation),
}

/// The zero axial move.
pub open spec fn am_zero() -> AxialMove {
    AxialMove::new_spec(Axis::X, Z4::Zero, Z4::Zero)
}

/// What one program entry costs: non-identity turns and non-identity
/// rotations cost one each.
pub open spec fn entry_cost(e: MoveOrRot) -> nat {
    match e {
        MoveOrRot::Move(m) => if m.by_spec() == Z4::Zero {
            0
        } else {
            1
        },
        MoveOrRot::Rot(r) => if r@ == id_seq() {
            0
        } else {
            1
        },
    }
}

/// The cost of a program: the sum of its entry costs.
pub open spec fn prog_cost(s: Seq<MoveOrRot>) -> nat
    decreases s.len(),
{
    if s.len() == 0 {
        0
    } else {
        prog_cost(s.drop_last()) + entry_cost(s.last())
    }
}

pub proof fn lemma_prog_cost_concat(a: Seq<MoveOrRot>, b: Seq<MoveOrRot>)
    ensures
        prog_cost(a + b) == prog_cost(a) + prog_cost(b),
    decreases b.len(),
{
    if b.len() == 0 {
        assert(a + b =~= a);
    } else {
        lemma_prog_cost_concat(a, b.drop_last());
        assert((a + b).drop_last() =~= a + b.drop_last());
        assert((a + b).last() == b.last());
    }
}

/// A program in which every entry does work: no zero-amount turn and no
/// identity rotation is ever emitted.
pub open spec fn all_entries_nontrivial(s: Seq<MoveOrRot>) -> bool {
    forall|i: int| 0 <= i < s.len() ==> #[trigger] entry_cost(s[i]) == 1
}


/// The smaller of two optional costs, treating `None` as unattainable.
pub open spec fn opt_min(a: Option<nat>, b: Option<nat>) -> Option<nat> {
    match (a, b) {
        (None, x) => x,
        (Some(v), None) => Some(v),
        (Some(v), Some(w)) => if v <= w {
            Some(v)
        } else {
            Some(w)
        },
    }
}

pub proof fn lemma_opt_min_assoc(a: Option<nat>, b: Option<nat>, c: Option<nat>)
    ensures
        opt_min(opt_min(a, b), c) == opt_min(a, opt_min(b, c)),
{
}

/// The parts of one transition: the emitted move and the two child
/// states, or `None` when the choice is infeasible. The choice is a
/// split point `k`, a left rotation `r1`, and a deferral `u` on the axis
/// of the conjugated first move.
/// The rotation quotient of a transition: the composite the right child
/// still accounts for, the pending move that compensates it, and the
/// pack the emitted move must absorb; `None` when the quotient is about
/// no single axis.
#[verifier::opaque]
pub open spec fn quotient_spec(rot: Seq<u8>, r1: Seq<u8>) -> Option<(Seq<u8>, AxialMove, AxialMove)> {
    let s = comp(perm_inv_spec(r1), rot);
    match axial_part_of_index(spec_index(s)) {
        None => None,
        Some(ab) => Some(
            (
                s,
                AxialMove::new_spec(ab.0, z4_neg_spec(ab.1), ab.1),
                am_mul_spec(
                    AxialMove::new_spec(ab.0, ab.1, z4_neg_spec(ab.1)),
                    perm_inv_spec(r1),
                ),
            ),
        ),
    }
}

/// The parts of one transition: the emitted move and the two child
/// states, or `None` when the choice is infeasible. The choice is a
/// split point `k`, a left rotation `r1`, and a deferral `u` on the axis
/// of the conjugated first move.
pub open spec fn choice_parts(
    alg: Seq<Move>,
    l: int,
    r: int,
    rot: Seq<u8>,
    ax: AxialMove,
    k: int,
    r1: Seq<u8>,
    u: AxialMove,
) -> Option<(Move, (int, int, Seq<u8>, AxialMove), (int, int, Seq<u8>, AxialMove))> {
    match quotient_spec(rot, r1) {
        None => None,
        Some(q) => {
            let s = q.0;
            let t3 = q.1;
            let ppack = q.2;
            let acf = spec_apply(perm_inv_spec(r1), alg[l].face_spec());
            let a1 = acf.axis_spec();
            let am_ac = AxialMove::lift_spec(acf, alg[l].by_spec());
            let ct0 = am_mul_spec(ax, perm_inv_spec(r1));
            if !ppack.is_zero_spec() && ppack.axis_spec() != a1 {
                None
            } else if !ct0.is_zero_spec() && ct0.axis_spec() != a1 {
                None
            } else {
                match add_spec(ppack, ct0) {
                None => None,
                Some(v1) => match add_spec(v1, am_ac) {
                    None => None,
                    Some(v2) => match add_spec(v2, inv_spec(u)) {
                        None => None,
                        Some(fp) => if fp.pos_spec() != Z4::Zero && fp.neg_spec() != Z4::Zero {
                            None
                        } else {
                            let f1 = if fp.pos_spec() != Z4::Zero {
                                Move { face: Face::new_spec(a1, false), by: fp.pos_spec() }
                            } else if fp.neg_spec() != Z4::Zero {
                                Move { face: Face::new_spec(a1, true), by: fp.neg_spec() }
                            } else {
                                Move { face: Face::new_spec(a1, false), by: Z4::Zero }
                            };
                            let t2 = am_mul_spec(u, r1);
                            Some((f1, (l + 1, k, r1, t2), (k, r, s, t3)))
                        },
                    },
                },
                }
            }
        },
    }
}

/// The cost of one transition: the emitted move plus both children, or
/// `None` when the choice or either child is infeasible.
pub open spec fn choice_val(
    alg: Seq<Move>,
    l: int,
    r: int,
    rot: Seq<u8>,
    ax: AxialMove,
    k: int,
    r1: Seq<u8>,
    u: AxialMove,
) -> Option<nat>
    decreases r - l, 0int, 0int,
{
    if !(0 <= l && l < r && l + 1 <= k && k <= r) {
        None
    } else {
        match choice_parts(alg, l, r, rot, ax, k, r1, u) {
            None => None,
            Some(parts) => {
                let cl = spec_cost(alg, l + 1, k, parts.1.2, parts.1.3);
                let cr = spec_cost(alg, k, r, parts.2.2, parts.2.3);
                match (cl, cr) {
                    (Some(a), Some(b)) => Some(
                        (if parts.0.by_spec() == Z4::Zero {
                            0nat
                        } else {
                            1nat
                        }) + a + b,
                    ),
                    _ => None,
                }
            },
        }
    }
}

/// The minimum transition cost over the choices with rank at least `c`,
/// in enumeration order: split point ascending, then rotation in
/// enumeration order, then the deferral's two amounts.
pub open spec fn best_from(
    alg: Seq<Move>,
    l: int,
    r: int,
    rot: Seq<u8>,
    ax: AxialMove,
    c: int,
) -> Option<nat>
    decreases r - l, 0int, (r - l) * 384 - c + 2,
{
    if !(0 <= l && l < r && 0 <= c && c < (r - l) * 384) {
        None
    } else {
        opt_min(rank_val(alg, l, r, rot, ax, c), best_from(alg, l, r, rot, ax, c + 1))
    }
}

/// The transition cost at one enumeration rank: the rank decomposes into
/// the split point, the rotation's enumeration index, and the deferral's
/// two amounts, rightmost least significant.
pub open spec fn rank_val(
    alg: Seq<Move>,
    l: int,
    r: int,
    rot: Seq<u8>,
    ax: AxialMove,
    c: int,
) -> Option<nat>
    decreases r - l, 0int, 1int,
{
    let k = l + 1 + c / 384;
    let rem = c % 384;
    let ri = rem / 16;
    let p = (rem % 16) / 4;
    let nn = rem % 4;
    let r1 = all_spec(ri);
    let a1 = spec_apply(perm_inv_spec(r1), alg[l].face_spec()).axis_spec();
    let u = AxialMove::new_spec(a1, z4_of_int(p), z4_of_int(nn));
    choice_val(alg, l, r, rot, ax, k, r1, u)
}

/// The value of a state: the least cost of a program that accounts for
/// the input interval, the rotation and the pending axial move, or
/// `None` when no program does.
pub open spec fn spec_cost(alg: Seq<Move>, l: int, r: int, rot: Seq<u8>, ax: AxialMove) -> Option<
    nat,
>
    decreases r - l, 1int, 0int,
{
    if l < 0 || l > r {
        None
    } else if l == r {
        if ax.is_zero_spec() {
            Some(
                if rot == id_seq() {
                    0nat
                } else {
                    1nat
                },
            )
        } else {
            None
        }
    } else if !ax.is_zero_spec() && ax.axis_spec() != alg[l].face_spec().axis_spec() {
        None
    } else {
        best_from(alg, l, r, rot, ax, 0)
    }
}

/// Every attainable cost is bounded by twice the interval width plus one.
pub proof fn lemma_cost_bound(alg: Seq<Move>, l: int, r: int, rot: Seq<u8>, ax: AxialMove)
    ensures
        spec_cost(alg, l, r, rot, ax) matches Some(c) ==> c <= 2 * (r - l) + 1,
    decreases r - l, 1int, 0int,
{
    if 0 <= l && l < r {
        lemma_best_bound(alg, l, r, rot, ax, 0);
    }
}

pub proof fn lemma_best_bound(
    alg: Seq<Move>,
    l: int,
    r: int,
    rot: Seq<u8>,
    ax: AxialMove,
    c: int,
)
    ensures
        best_from(alg, l, r, rot, ax, c) matches Some(v) ==> v <= 2 * (r - l) + 1,
    decreases r - l, 0int, (r - l) * 384 - c,
{
    if 0 <= l && l < r && 0 <= c && c < (r - l) * 384 {
        let k = l + 1 + c / 384;
        assert(c / 384 < r - l) by (nonlinear_arith)
            requires
                0 <= c,
                c < (r - l) * 384,
        ;
        assert(0 <= c / 384) by (nonlinear_arith)
            requires
                0 <= c,
        ;
        let rem = c % 384;
        let ri = rem / 16;
        let r1 = all_spec(ri);
        let a1 = spec_apply(perm_inv_spec(r1), alg[l].face_spec()).axis_spec();
        let u = AxialMove::new_spec(a1, z4_of_int((rem % 16) / 4), z4_of_int(rem % 4));
        assert(rank_val(alg, l, r, rot, ax, c) == choice_val(alg, l, r, rot, ax, k, r1, u));
        lemma_choice_bound(alg, l, r, rot, ax, k, r1, u);
        lemma_best_bound(alg, l, r, rot, ax, c + 1);
    }
}

pub proof fn lemma_choice_bound(
    alg: Seq<Move>,
    l: int,
    r: int,
    rot: Seq<u8>,
    ax: AxialMove,
    k: int,
    r1: Seq<u8>,
    u: AxialMove,
)
    ensures
        choice_val(alg, l, r, rot, ax, k, r1, u) matches Some(v) ==> v <= 2 * (r - l) + 1,
    decreases r - l, 0int, 0int,
{
    if 0 <= l && l < r && l + 1 <= k && k <= r {
        match choice_parts(alg, l, r, rot, ax, k, r1, u) {
            None => {},
            Some(parts) => {
                lemma_cost_bound(alg, l + 1, k, parts.1.2, parts.1.3);
                lemma_cost_bound(alg, k, r, parts.2.2, parts.2.3);
            },
        }
    }
}

/// The number of non-identity turns in an input interval.
pub open spec fn nonzero_count(alg: Seq<Move>, l: int, r: int) -> nat
    decreases r - l,
{
    if l >= r {
        0
    } else {
        (if alg[l].by_spec() == Z4::Zero {
            0nat
        } else {
            1nat
        }) + nonzero_count(alg, l + 1, r)
    }
}

/// Order on optional costs: anything at all is at most `None`.
pub open spec fn opt_le(a: Option<nat>, b: Option<nat>) -> bool {
    b matches Some(v) ==> (a matches Some(w) && w <= v)
}

/// The fold over the ranks is bounded by every single rank it covers.
proof fn lemma_best_le(alg: Seq<Move>, l: int, r: int, rot: Seq<u8>, ax: AxialMove, c0: int, c: int)
    requires
        0 <= l,
        l < r,
        0 <= c0 <= c < (r - l) * 384,
    ensures
        opt_le(best_from(alg, l, r, rot, ax, c0), rank_val(alg, l, r, rot, ax, c)),
    decreases c - c0,
{
    if c0 < c {
        lemma_best_le(alg, l, r, rot, ax, c0 + 1, c);
    }
}

/// Every state with a zero pending move is feasible, at a cost of at
/// most its non-identity turns plus one for a non-identity rotation: the
/// rewrite that emits each turn as it stands and the rotation at the
/// end always exists. In particular the solver never reports failure,
/// and the cost of its output never exceeds the input's.
pub proof fn lemma_always_feasible(alg: Seq<Move>, l: int, r: int, rot: Seq<u8>)
    requires
        0 <= l <= r <= alg.len(),
        wf_seq(rot),
    ensures
        spec_cost(alg, l, r, rot, am_zero()) matches Some(c) && c <= nonzero_count(alg, l, r) + (
        if rot == id_seq() {
            0nat
        } else {
            1nat
        }),
    decreases r - l,
{
    crate::rotation::lemma_complete(rot);
    if l == r {
    } else {
        lemma_always_feasible(alg, l + 1, r, rot);
        let ri = spec_index(rot);
        let cstar = (r - l - 1) * 384 + ri * 16;
        assert(0 <= cstar < (r - l) * 384) by (nonlinear_arith)
            requires
                cstar == (r - l - 1) * 384 + ri * 16,
                0 <= ri < 24,
                l < r,
        ;
        assert(cstar / 384 == r - l - 1 && cstar % 384 == ri * 16) by (nonlinear_arith)
            requires
                cstar == (r - l - 1) * 384 + ri * 16,
                0 <= ri < 24,
                l < r,
        ;
        assert((ri * 16) / 16 == ri && (ri * 16) % 16 == 0) by (nonlinear_arith)
            requires
                0 <= ri,
        ;
        let zero = am_zero();
        let k = r;
        let r1 = all_spec(ri);
        assert(r1 == rot);
        let a1 = spec_apply(perm_inv_spec(r1), alg[l].face_spec()).axis_spec();
        let u = AxialMove::new_spec(a1, z4_of_int(0), z4_of_int(0));
        assert(u == zero);
        assert(rank_val(alg, l, r, rot, zero, cstar) == choice_val(alg, l, r, rot, zero, k, rot, u));
        // evaluate the candidate: the quotient is the identity
        crate::rotation::lemma_group(rot, rot, rot);
        let s = comp(perm_inv_spec(rot), rot);
        assert(s == id_seq());
        assert(spec_index(id_seq()) == 1) by {
            reveal(crate::rotation::all_spec);
            crate::rotation::lemma_roundtrip(1);
        }
        assert(axial_part_of_index(1) == Some((Axis::X, Z4::Zero)));
        let t3 = AxialMove::new_spec(Axis::X, z4_neg_spec(Z4::Zero), Z4::Zero);
        assert(t3 == zero);
        let pack = AxialMove::new_spec(Axis::X, Z4::Zero, z4_neg_spec(Z4::Zero));
        assert(pack == zero);
        let ppack = am_mul_spec(pack, perm_inv_spec(rot));
        assert(ppack == zero);
        let ct0 = am_mul_spec(zero, perm_inv_spec(rot));
        assert(ct0 == zero);
        assert(quotient_spec(rot, rot) == Some((id_seq(), zero, zero))) by {
            reveal(quotient_spec);
        }
        let acf = spec_apply(perm_inv_spec(rot), alg[l].face_spec());
        let am_ac = AxialMove::lift_spec(acf, alg[l].by_spec());
        reveal(add_spec);
        reveal(inv_spec);
        assert(inv_spec(u) == zero);
        assert(add_spec(zero, zero) == Some(zero));
        assert(add_spec(zero, am_ac) == Some(am_ac));
        assert(add_spec(am_ac, zero) == Some(am_ac));
        assert(am_ac.pos_spec() == Z4::Zero || am_ac.neg_spec() == Z4::Zero);
        let t2 = am_mul_spec(u, rot);
        assert(t2 == zero);
        let parts = choice_parts(alg, l, r, rot, zero, k, rot, u);
        assert(parts matches Some(ps) && ps.1 == (l + 1, k, rot, zero) && ps.2 == (
            k,
            r,
            id_seq(),
            zero,
        ) && ps.0.by_spec() == alg[l].by_spec());
        assert(spec_cost(alg, k, r, id_seq(), zero) == Some(0nat));
        assert(choice_val(alg, l, r, rot, zero, k, rot, u) matches Some(v) && v <= nonzero_count(
            alg,
            l,
            r,
        ) + (if rot == id_seq() {
            0nat
        } else {
            1nat
        }));
        lemma_best_le(alg, l, r, rot, zero, 0, cstar);
    }
}


/// A table value: `None` for an infeasible state, otherwise the cost and
/// (away from the base cases) the choice that attained it.
pub type Val = Option<(usize, Option<(usize, Rotation, AxialMove)>)>;

/// The cost part of a table value.
pub open spec fn val_cost(v: Val) -> Option<nat> {
    match v {
        None => None,
        Some(cv) => Some(cv.0 as nat),
    }
}

/// The cost part of an optional count.
pub open spec fn cost_opt(v: Option<usize>) -> Option<nat> {
    match v {
        None => None,
        Some(c) => Some(c as nat),
    }
}

/// A stored choice that is in range and well-formed.
pub open spec fn choice_wf(alg: Seq<Move>, l: int, r: int, ch: (usize, Rotation, AxialMove)) -> bool {
    &&& l + 1 <= (ch.0 as int) <= r
    &&& ch.1.wf()
    &&& ch.2.wf()
    &&& (ch.2.is_zero_spec() || ch.2.axis_spec() == spec_apply(
        perm_inv_spec(ch.1@),
        alg[l].face_spec(),
    ).axis_spec())
}

/// A correct table cell: the cost equals the state's value, and a stored
/// choice attains it.
#[verifier::opaque]
pub open spec fn cell_ok(
    alg: Seq<Move>,
    l: int,
    r: int,
    rot: Seq<u8>,
    ax: AxialMove,
    v: Val,
) -> bool {
    match v {
        None => spec_cost(alg, l, r, rot, ax) is None,
        Some(cv) => {
            &&& spec_cost(alg, l, r, rot, ax) == Some(cv.0 as nat)
            &&& (l >= r ==> cv.1 is None)
            &&& (l < r ==> (cv.1 matches Some(ch) && choice_wf(alg, l, r, ch) && choice_val(
                alg,
                l,
                r,
                rot,
                ax,
                ch.0 as int,
                ch.1@,
                ch.2,
            ) == Some(cv.0 as nat)))
        },
    }
}

/// The flat position of a state in the table.
pub open spec fn enc(n: int, l: int, r: int, ri: int, am: AxialMove) -> int {
    ((l * (n + 1) + r) * 24 + ri) * 48 + am_ord(am)
}

pub proof fn lemma_enc_injective(
    n: int,
    l1: int,
    r1: int,
    ri1: int,
    am1: AxialMove,
    l2: int,
    r2: int,
    ri2: int,
    am2: AxialMove,
)
    requires
        0 <= l1 <= n,
        0 <= r1 <= n,
        0 <= ri1 < 24,
        0 <= l2 <= n,
        0 <= r2 <= n,
        0 <= ri2 < 24,
        am1.wf(),
        am2.wf(),
        enc(n, l1, r1, ri1, am1) == enc(n, l2, r2, ri2, am2),
    ensures
        l1 == l2,
        r1 == r2,
        ri1 == ri2,
        am1 == am2,
{
    let qa = (l1 * (n + 1) + r1) * 24 + ri1;
    let qb = (l2 * (n + 1) + r2) * 24 + ri2;
    assert(0 <= am_ord(am1) < 48 && 0 <= am_ord(am2) < 48);
    assert(qa == qb && am_ord(am1) == am_ord(am2)) by (nonlinear_arith)
        requires
            qa * 48 + am_ord(am1) == qb * 48 + am_ord(am2),
            0 <= am_ord(am1) < 48,
            0 <= am_ord(am2) < 48,
    ;
    let pa = l1 * (n + 1) + r1;
    let pb = l2 * (n + 1) + r2;
    assert(pa == pb && ri1 == ri2) by (nonlinear_arith)
        requires
            pa * 24 + ri1 == pb * 24 + ri2,
            0 <= ri1 < 24,
            0 <= ri2 < 24,
    ;
    assert(l1 == l2 && r1 == r2) by (nonlinear_arith)
        requires
            l1 * (n + 1) + r1 == l2 * (n + 1) + r2,
            0 <= r1 < n + 1,
            0 <= r2 < n + 1,
    ;
    assert(am1 == am2);
}

/// The widths a table covers: every state of width below `w` holds a
/// correct cell.
pub open spec fn tbl_ok_w(c: &Ctx, w: int) -> bool {
    forall|l2: int, r2: int, ri: int, am: AxialMove|
        0 <= l2 <= c.alg@.len() && 0 <= r2 <= c.alg@.len() && 0 <= ri < 24 && am.wf() && r2 - l2
            < w ==> cell_ok(
            c.alg@,
            l2,
            r2,
            all_spec(ri),
            am,
            #[trigger] c.aux.view_cells()[enc(c.alg@.len() as int, l2, r2, ri, am)],
        )
}

/// The solver's working state: the input, the table, and the width up to
/// which the table has been filled.
pub struct Ctx {
    pub alg: Vec<Move>,
    pub aux: DpArray<Val, (usize, usize, Rotation, AxialMove)>,
    pub up_to_sz: usize,
}

impl Ctx {
    pub open spec fn wf(&self) -> bool {
        &&& self.aux.wf()
        &&& self.aux.runtime().0 as int == self.alg@.len() + 1
        &&& self.aux.runtime().1 as int == self.alg@.len() + 1
        &&& (self.alg@.len() + 1) * (self.alg@.len() + 1) * 1152 <= usize::MAX as int
        &&& (self.up_to_sz as int) <= self.alg@.len() + 1
        &&& tbl_ok_w(self, self.up_to_sz as int)
    }

    /// A fresh context with an empty table.
    pub fn new(alg: Vec<Move>) -> (c: Ctx)
        requires
            (alg@.len() + 1) * (alg@.len() + 1) * 1152 <= usize::MAX as int,
        ensures
            c.wf(),
            c.alg@ == alg@,
            c.up_to_sz == 0,
    {
        let n = alg.len();
        proof {
            assert(n as int + 1 <= usize::MAX as int) by (nonlinear_arith)
                requires
                    (n as int + 1) * (n as int + 1) * 1152 <= usize::MAX as int,
                    0 <= n as int,
            ;
            assert((n + 1) as int * (n + 1) as int * 24 * 48 == ((n as int + 1) * (n as int + 1))
                * 1152) by (nonlinear_arith);
            assert(0 <= (n as int + 1) * (n as int + 1) * 1152) by (nonlinear_arith);
        }
        let aux: DpArray<Val, (usize, usize, Rotation, AxialMove)> = DpArray::new(
            (n + 1, n + 1, (), ()),
            None,
        );
        let c = Ctx { alg, aux, up_to_sz: 0 };
        proof {
            assert(tbl_ok_w(&c, 0)) by {
                assert forall|l2: int, r2: int, ri: int, am: AxialMove|
                    0 <= l2 <= c.alg@.len() && 0 <= r2 <= c.alg@.len() && 0 <= ri < 24 && am.wf()
                        && r2 - l2 < 0 implies cell_ok(
                    c.alg@,
                    l2,
                    r2,
                    all_spec(ri),
                    am,
                    #[trigger] c.aux.view_cells()[enc(c.alg@.len() as int, l2, r2, ri, am)],
                ) by {
                    reveal(cell_ok);
                    lemma_enc_bounds(c.alg@.len() as int, l2, r2, ri, am);
                    assert(c.aux.view_cells()[enc(c.alg@.len() as int, l2, r2, ri, am)] is None);
                    assert(spec_cost(c.alg@, l2, r2, all_spec(ri), am) is None);
                }
            }
        }
        c
    }

    /// The input the context was made for.
    pub fn alg(&self) -> (a: &Vec<Move>)
        ensures
            a@ == self.alg@,
    {
        &self.alg
    }

    /// The full cell of a state whose width the table already covers.
    pub fn get_full(&self, l: usize, r: usize, rot: Rotation, ax: AxialMove) -> (v: Val)
        requires
            self.wf(),
            l <= self.alg@.len(),
            r <= self.alg@.len(),
            rot.wf(),
            ax.wf(),
            (r as int) - (l as int) < (self.up_to_sz as int),
        ensures
            cell_ok(self.alg@, l as int, r as int, rot@, ax, v),
    {
        let key = (l, r, rot, ax);
        proof {
            crate::rotation::lemma_complete(rot@);
            let n = self.alg@.len() as int;
            assert(DpIndex::spec_index(&key, &self.aux.runtime()) == enc(
                n,
                l as int,
                r as int,
                spec_index(rot@),
                ax,
            ));
            assert(cell_ok(
                self.alg@,
                l as int,
                r as int,
                all_spec(spec_index(rot@)),
                ax,
                self.aux.view_cells()[enc(n, l as int, r as int, spec_index(rot@), ax)],
            ));
        }
        *self.aux.get(&key)
    }

    /// The cost of a covered state: exactly the state's value.
    pub fn get(&self, l: usize, r: usize, rot: Rotation, ax: AxialMove) -> (v: Option<usize>)
        requires
            self.wf(),
            l <= self.alg@.len(),
            r <= self.alg@.len(),
            rot.wf(),
            ax.wf(),
            (r as int) - (l as int) < (self.up_to_sz as int),
        ensures
            cost_opt(v) == spec_cost(self.alg@, l as int, r as int, rot@, ax),
    {
        proof {
            reveal(cell_ok);
        }
        match self.get_full(l, r, rot, ax) {
            None => None,
            Some(cv) => Some(cv.0),
        }
    }

    /// Writes one cell.
    pub fn set(&mut self, l: usize, r: usize, rot: Rotation, ax: AxialMove, val: Val)
        requires
            old(self).wf(),
            l <= old(self).alg@.len(),
            r <= old(self).alg@.len(),
            rot.wf(),
            ax.wf(),
        ensures
            final(self).alg@ == old(self).alg@,
            final(self).up_to_sz == old(self).up_to_sz,
            final(self).aux.wf(),
            final(self).aux.runtime() == old(self).aux.runtime(),
            final(self).aux.view_cells() == old(self).aux.view_cells().update(
                enc(
                    old(self).alg@.len() as int,
                    l as int,
                    r as int,
                    spec_index(rot@),
                    ax,
                ),
                val,
            ),
    {
        let key = (l, r, rot, ax);
        self.aux.set(&key, val);
    }

    /// Marks one more width as filled; the caller shows the new width's
    /// cells are correct.
    pub fn increment_sz(&mut self)
        requires
            old(self).wf(),
            (old(self).up_to_sz as int) <= old(self).alg@.len(),
            tbl_ok_w(old(self), old(self).up_to_sz as int + 1),
        ensures
            final(self).wf(),
            final(self).alg@ == old(self).alg@,
            final(self).aux == old(self).aux,
            final(self).up_to_sz == old(self).up_to_sz + 1,
    {
        self.up_to_sz = self.up_to_sz + 1;
    }
}

/// Every state position lies inside the table.
pub proof fn lemma_enc_bounds(n: int, l: int, r: int, ri: int, am: AxialMove)
    requires
        0 <= l <= n,
        0 <= r <= n,
        0 <= ri < 24,
        am.wf(),
    ensures
        0 <= enc(n, l, r, ri, am) < (n + 1) * (n + 1) * 24 * 48,
{
    assert(0 <= am_ord(am) < 48);
    assert(((l * (n + 1) + r) * 24 + ri) * 48 + am_ord(am) < (n + 1) * (n + 1) * 24 * 48)
        by (nonlinear_arith)
        requires
            0 <= l <= n,
            0 <= r <= n,
            0 <= ri < 24,
            0 <= am_ord(am) < 48,
    ;
    assert(0 <= ((l * (n + 1) + r) * 24 + ri) * 48 + am_ord(am)) by (nonlinear_arith)
        requires
            0 <= l,
            0 <= r,
            0 <= ri,
            0 <= am_ord(am),
            0 <= n,
    ;
}

/// Writing one freshly computed cell preserves everything the fill has
/// established: the completed widths, the completed rows, the completed
/// rotations of the current row, and the cells of the current rotation
/// already written.
#[verifier::rlimit(100)]
#[verifier::spinoff_prover]
proof fn lemma_fill_step(
    alg: Seq<Move>,
    oldc: Seq<Val>,
    newc: Seq<Val>,
    n: int,
    l: int,
    r: int,
    ri: int,
    ax: AxialMove,
    val: Val,
    sz: int,
    ai: int,
)
    requires
        r == l + sz,
        0 <= sz,
        0 <= l,
        l + sz <= n,
        0 <= ri < 24,
        ax.wf(),
        0 <= ai,
        am_ord(ax) <= ai,
        forall|am: AxialMove| am.wf() && am_ord(am) == ai ==> am == ax,
        oldc.len() == (n + 1) * (n + 1) * 24 * 48,
        newc == oldc.update(enc(n, l, r, ri, ax), val),
        cell_ok(alg, l, r, all_spec(ri), ax, val),
        forall|l2: int, r2: int, ri2: int, am: AxialMove|
            0 <= l2 <= n && 0 <= r2 <= n && 0 <= ri2 < 24 && am.wf() && r2 - l2 < sz
                ==> cell_ok(alg, l2, r2, all_spec(ri2), am, #[trigger] oldc[enc(n, l2, r2, ri2, am)]),
        forall|l2: int, ri2: int, am: AxialMove|
            0 <= l2 < l && l2 + sz <= n && 0 <= ri2 < 24 && am.wf() ==> cell_ok(
                alg,
                l2,
                l2 + sz,
                all_spec(ri2),
                am,
                #[trigger] oldc[enc(n, l2, l2 + sz, ri2, am)],
            ),
        forall|ri2: int, am: AxialMove|
            0 <= ri2 < ri && am.wf() ==> cell_ok(
                alg,
                l,
                r,
                all_spec(ri2),
                am,
                #[trigger] oldc[enc(n, l, r, ri2, am)],
            ),
        forall|am: AxialMove|
            am.wf() && am_ord(am) < ai ==> cell_ok(
                alg,
                l,
                r,
                all_spec(ri),
                am,
                #[trigger] oldc[enc(n, l, r, ri, am)],
            ),
    ensures
        forall|l2: int, r2: int, ri2: int, am: AxialMove|
            0 <= l2 <= n && 0 <= r2 <= n && 0 <= ri2 < 24 && am.wf() && r2 - l2 < sz
                ==> cell_ok(alg, l2, r2, all_spec(ri2), am, #[trigger] newc[enc(n, l2, r2, ri2, am)]),
        forall|l2: int, ri2: int, am: AxialMove|
            0 <= l2 < l && l2 + sz <= n && 0 <= ri2 < 24 && am.wf() ==> cell_ok(
                alg,
                l2,
                l2 + sz,
                all_spec(ri2),
                am,
                #[trigger] newc[enc(n, l2, l2 + sz, ri2, am)],
            ),
        forall|ri2: int, am: AxialMove|
            0 <= ri2 < ri && am.wf() ==> cell_ok(
                alg,
                l,
                r,
                all_spec(ri2),
                am,
                #[trigger] newc[enc(n, l, r, ri2, am)],
            ),
        forall|am: AxialMove|
            am.wf() && am_ord(am) < ai + 1 ==> cell_ok(
                alg,
                l,
                r,
                all_spec(ri),
                am,
                #[trigger] newc[enc(n, l, r, ri, am)],
            ),
{
    let ne = enc(n, l, r, ri, ax);
    lemma_enc_bounds(n, l, r, ri, ax);
    assert forall|l2: int, r2: int, ri2: int, am: AxialMove|
        0 <= l2 <= n && 0 <= r2 <= n && 0 <= ri2 < 24 && am.wf() && r2 - l2 < sz implies cell_ok(
        alg,
        l2,
        r2,
        all_spec(ri2),
        am,
        #[trigger] newc[enc(n, l2, r2, ri2, am)],
    ) by {
        if enc(n, l2, r2, ri2, am) == ne {
            lemma_enc_injective(n, l2, r2, ri2, am, l, r, ri, ax);
        } else {
            lemma_enc_bounds(n, l2, r2, ri2, am);
            assert(newc[enc(n, l2, r2, ri2, am)] == oldc[enc(n, l2, r2, ri2, am)]);
        }
    }
    assert forall|l2: int, ri2: int, am: AxialMove|
        0 <= l2 < l && l2 + sz <= n && 0 <= ri2 < 24 && am.wf() implies cell_ok(
        alg,
        l2,
        l2 + sz,
        all_spec(ri2),
        am,
        #[trigger] newc[enc(n, l2, l2 + sz, ri2, am)],
    ) by {
        if enc(n, l2, l2 + sz, ri2, am) == ne {
            lemma_enc_injective(n, l2, l2 + sz, ri2, am, l, r, ri, ax);
        } else {
            lemma_enc_bounds(n, l2, l2 + sz, ri2, am);
            assert(newc[enc(n, l2, l2 + sz, ri2, am)] == oldc[enc(n, l2, l2 + sz, ri2, am)]);
        }
    }
    assert forall|ri2: int, am: AxialMove| 0 <= ri2 < ri && am.wf() implies cell_ok(
        alg,
        l,
        r,
        all_spec(ri2),
        am,
        #[trigger] newc[enc(n, l, r, ri2, am)],
    ) by {
        if enc(n, l, r, ri2, am) == ne {
            lemma_enc_injective(n, l, r, ri2, am, l, r, ri, ax);
        } else {
            lemma_enc_bounds(n, l, r, ri2, am);
            assert(newc[enc(n, l, r, ri2, am)] == oldc[enc(n, l, r, ri2, am)]);
        }
    }
    assert forall|am: AxialMove| am.wf() && am_ord(am) < ai + 1 implies cell_ok(
        alg,
        l,
        r,
        all_spec(ri),
        am,
        #[trigger] newc[enc(n, l, r, ri, am)],
    ) by {
        if am == ax {
            assert(newc[enc(n, l, r, ri, am)] == val);
        } else {
            assert(enc(n, l, r, ri, am) != ne) by {
                if enc(n, l, r, ri, am) == ne {
                    lemma_enc_injective(n, l, r, ri, am, l, r, ri, ax);
                }
            }
            lemma_enc_bounds(n, l, r, ri, am);
            assert(newc[enc(n, l, r, ri, am)] == oldc[enc(n, l, r, ri, am)]);
        }
    }
}


/// A base case, where no transition is needed: the state is impossible,
/// or it is an empty interval that owes only its rotation.
pub enum BaseCase {
    Impossible,
    Just(Rotation),
}

/// The base-case analysis of a state: an empty interval costs its
/// rotation and refuses a pending axial move; a non-empty interval whose
/// pending axial move sits on a different axis than its first move is
/// impossible; anything else falls through to the transitions.
pub fn base_case(alg: &Vec<Move>, l: usize, r: usize, rot: Rotation, ax: AxialMove) -> (b: Option<
    BaseCase,
>)
    requires
        l <= r,
        r <= alg@.len(),
        rot.wf(),
        ax.wf(),
    ensures
        b is None <==> (l < r && (ax.is_zero_spec() || ax.axis_spec()
            == alg@[l as int].face_spec().axis_spec())),
        b matches Some(bc) ==> (bc matches BaseCase::Just(rt) ==> l == r && ax.is_zero_spec()
            && rt == rot),
        l == r && ax.is_zero_spec() ==> (b matches Some(bc) && bc matches BaseCase::Just(rt) && rt
            == rot),
        l == r && !ax.is_zero_spec() ==> (b matches Some(bc) && bc is Impossible),
        l < r && !ax.is_zero_spec() && ax.axis_spec() != alg@[l as int].face_spec().axis_spec()
            ==> (b matches Some(bc) && bc is Impossible),
{
    if l == r {
        if ax.is_zero() {
            Some(BaseCase::Just(rot))
        } else {
            Some(BaseCase::Impossible)
        }
    } else if !ax.is_zero() && !alg[l].axis().eq(ax.axis()) {
        Some(BaseCase::Impossible)
    } else {
        None
    }
}

/// The rotation quotient of a transition: the composite that the right
/// child must still account for, with its axial part's compensating
/// pending move and the pack the emitted move must absorb. `None` when
/// the quotient is about no single axis.
#[verifier::rlimit(100)]
fn quotient(rot: Rotation, r1: Rotation) -> (q: Option<(Rotation, AxialMove, AxialMove)>)
    requires
        rot.wf(),
        r1.wf(),
    ensures
        ({
            match quotient_spec(rot@, r1@) {
                None => q is None,
                Some(sq) => q matches Some(t) && t.0@ == sq.0 && t.0.wf() && t.1 == sq.1 && t.2
                    == sq.2 && t.1.wf() && t.2.wf(),
            }
        }),
{
    proof {
        reveal(quotient_spec);
    }
    let r1i = r1.inv();
    let s = r1i.mul_(rot);
    match s.axial_part() {
        None => None,
        Some(ab) => {
            let t3 = AxialMove::new(ab.0, ab.1.neg(), ab.1);
            let pack = AxialMove::new(ab.0, ab.1, ab.1.neg());
            let ppack = pack.mul(r1i);
            Some((s, t3, ppack))
        },
    }
}


/// The spec image of an executable transition tuple.
pub open spec fn lift_parts(
    t: (Move, (usize, usize, Rotation, AxialMove), (usize, usize, Rotation, AxialMove)),
) -> (Move, (int, int, Seq<u8>, AxialMove), (int, int, Seq<u8>, AxialMove)) {
    (
        t.0,
        (t.1.0 as int, t.1.1 as int, t.1.2@, t.1.3),
        (t.2.0 as int, t.2.1 as int, t.2.2@, t.2.3),
    )
}


/// The transition parts for a stored or enumerated choice: the emitted
/// move and the two child states, or `None` when the choice is
/// infeasible.
#[verifier::rlimit(100)]
#[verifier::spinoff_prover]
pub fn apply_choice(
    alg: &Vec<Move>,
    l: usize,
    r: usize,
    rot: Rotation,
    ax: AxialMove,
    k: usize,
    r1: Rotation,
    u: AxialMove,
) -> (res: Option<(Move, (usize, usize, Rotation, AxialMove), (usize, usize, Rotation, AxialMove))>)
    requires
        l < r,
        r <= alg@.len(),
        l + 1 <= k && k <= r,
        rot.wf(),
        ax.wf(),
        r1.wf(),
        u.wf(),
    ensures
        res is Some <==> choice_parts(alg@, l as int, r as int, rot@, ax, k as int, r1@, u)
            is Some,
        res matches Some(t) ==> choice_parts(alg@, l as int, r as int, rot@, ax, k as int, r1@, u)
            == Some(lift_parts(t)),
        res matches Some(t) ==> t.1.2.wf() && t.1.3.wf() && t.2.2.wf() && t.2.3.wf(),
        res matches Some(t) ==> t.1.0 == l + 1 && t.1.1 == k && t.2.0 == k && t.2.1 == r,
{
    match quotient(rot, r1) {
        None => None,
        Some(q) => {
            let s = q.0;
            let t3 = q.1;
            let ppack = q.2;
            let r1i = r1.inv();
            let acf = r1i.apply(alg[l].face());
            let a1 = acf.axis();
            let am_ac = AxialMove::from_move(Move::new(acf, alg[l].amount()));
            let ct0 = ax.mul(r1i);
            if !ppack.is_zero() && !ppack.axis().eq(a1) {
                return None;
            }
            if !ct0.is_zero() && !ct0.axis().eq(a1) {
                return None;
            }
            let v1o = ppack.add(ct0);
            let v2o = match v1o {
                None => None,
                Some(v1) => v1.add(am_ac),
            };
            let fpo = match v2o {
                None => None,
                Some(v2) => v2.sub(u),
            };
            match fpo {
                None => None,
                Some(fp) => {
                    if !matches!(fp.pos(), Z4::Zero) && !matches!(fp.neg(), Z4::Zero) {
                        None
                    } else {
                        let f1 = if !matches!(fp.pos(), Z4::Zero) {
                            Move::new(a1.pos_face(), fp.pos())
                        } else if !matches!(fp.neg(), Z4::Zero) {
                            Move::new(a1.neg_face(), fp.neg())
                        } else {
                            Move::new(a1.pos_face(), Z4::Zero)
                        };
                        let t2 = u.mul(r1);
                        Some((f1, (l + 1, k, r1, t2), (k, r, s, t3)))
                    }
                },
            }
        },
    }
}

/// The cost of a transition from the emitted move and the two child
/// costs: infeasible children make it infeasible.
pub fn post_computation(f1: Move, sub1: Option<usize>, sub2: Option<usize>) -> (res: Option<usize>)
    requires
        sub1 matches Some(a) ==> sub2 matches Some(b) ==> a + b + 1 <= usize::MAX,
    ensures
        res is Some <==> (sub1 is Some && sub2 is Some),
        sub1 matches Some(a) ==> sub2 matches Some(b) ==> (res matches Some(t) && t as int == (
        if f1.by_spec() == Z4::Zero {
            0int
        } else {
            1int
        }) + a + b),
{
    let s1 = match sub1 {
        None => {
            return None;
        },
        Some(x) => x,
    };
    let s2 = match sub2 {
        None => {
            return None;
        },
        Some(x) => x,
    };
    let mut total: usize = 0;
    if !matches!(f1.amount(), Z4::Zero) {
        total = total + 1;
    }
    total = total + s1;
    total = total + s2;
    Some(total)
}

/// What `min_into` leaves behind: a strictly better new cost replaces
/// the running minimum, ties keep the earlier choice.
pub open spec fn min_into_spec(
    min: Val,
    new: Option<usize>,
    choice: (usize, Rotation, AxialMove),
) -> Val {
    match (min, new) {
        (None, Some(v)) => Some((v, Some(choice))),
        (Some(m), Some(v)) => if v < m.0 {
            Some((v, Some(choice)))
        } else {
            Some(m)
        },
        (m, None) => m,
    }
}

/// Folds one transition into the running minimum.
pub fn min_into(min: &mut Val, new: Option<usize>, choice: (usize, Rotation, AxialMove))
    ensures
        *final(min) == min_into_spec(*old(min), new, choice),
{
    match (&*min, new) {
        (None, Some(v)) => {
            *min = Some((v, Some(choice)));
        },
        (Some(m), Some(v)) => {
            if v < m.0 {
                *min = Some((v, Some(choice)));
            }
        },
        _ => {},
    }
}

/// The arithmetic room two child costs need, under the table-size bound.
proof fn lemma_sum_fits(n2: int)
    requires
        (n2 + 1) * (n2 + 1) * 1152 <= usize::MAX as int,
        0 <= n2,
    ensures
        2 * n2 + 1 + 2 * n2 + 1 + 1 <= usize::MAX as int,
{
    assert(2 * n2 + 1 + 2 * n2 + 1 + 1 <= usize::MAX as int) by (nonlinear_arith)
        requires
            (n2 + 1) * (n2 + 1) * 1152 <= usize::MAX as int,
            0 <= n2,
    ;
}

/// A transition's executable evaluation agrees with its value.
proof fn lemma_choice_val_eval(
    alg: Seq<Move>,
    l: int,
    r: int,
    rot: Seq<u8>,
    ax: AxialMove,
    k: int,
    r1: Seq<u8>,
    u: AxialMove,
    t: (Move, (usize, usize, Rotation, AxialMove), (usize, usize, Rotation, AxialMove)),
    c1: Option<usize>,
    c2: Option<usize>,
    new: Option<usize>,
)
    requires
        0 <= l,
        l < r,
        l + 1 <= k <= r,
        choice_parts(alg, l, r, rot, ax, k, r1, u) == Some(lift_parts(t)),
        cost_opt(c1) == spec_cost(alg, t.1.0 as int, t.1.1 as int, t.1.2@, t.1.3),
        cost_opt(c2) == spec_cost(alg, t.2.0 as int, t.2.1 as int, t.2.2@, t.2.3),
        t.1.0 as int == l + 1,
        t.1.1 as int == k,
        t.2.0 as int == k,
        t.2.1 as int == r,
        new is Some <==> (c1 is Some && c2 is Some),
        c1 matches Some(a) ==> c2 matches Some(b) ==> (new matches Some(v) && v as int == (
        if t.0.by_spec() == Z4::Zero {
            0int
        } else {
            1int
        }) + a + b),
    ensures
        cost_opt(new) == choice_val(alg, l, r, rot, ax, k, r1, u),
{
}


/// One rank's value, decoded: the rank splits into the choice parts.
proof fn lemma_rank_decode(
    alg: Seq<Move>,
    l: int,
    r: int,
    rot: Seq<u8>,
    ax: AxialMove,
    c: int,
    k: int,
    ri: int,
    p: int,
    nn: int,
    u: AxialMove,
)
    requires
        k == l + 1 + c / 384,
        ri == (c % 384) / 16,
        p == ((c % 384) % 16) / 4,
        nn == (c % 384) % 4,
        u == AxialMove::new_spec(
            spec_apply(perm_inv_spec(all_spec(ri)), alg[l].face_spec()).axis_spec(),
            z4_of_int(p),
            z4_of_int(nn),
        ),
    ensures
        rank_val(alg, l, r, rot, ax, c) == choice_val(alg, l, r, rot, ax, k, all_spec(ri), u),
{
}

/// Folding one rank's value into the running minimum keeps the fold
/// equation over the remaining ranks.
proof fn lemma_fold_step(
    alg: Seq<Move>,
    l: int,
    r: int,
    rot: Seq<u8>,
    ax: AxialMove,
    c: int,
    cv: Option<nat>,
    oldb: Option<nat>,
    newb: Option<nat>,
)
    requires
        0 <= l,
        l < r,
        0 <= c < (r - l) * 384,
        rank_val(alg, l, r, rot, ax, c) == cv,
        newb == opt_min(oldb, cv),
        opt_min(oldb, best_from(alg, l, r, rot, ax, c)) == best_from(alg, l, r, rot, ax, 0),
    ensures
        opt_min(newb, best_from(alg, l, r, rot, ax, c + 1)) == best_from(alg, l, r, rot, ax, 0),
{
    assert(best_from(alg, l, r, rot, ax, c) == opt_min(cv, best_from(alg, l, r, rot, ax, c + 1)));
    lemma_opt_min_assoc(oldb, cv, best_from(alg, l, r, rot, ax, c + 1));
}


/// Evaluates one transition against the filled table: exactly the
/// transition's value.
#[verifier::rlimit(100)]
fn eval_choice(
    ctx: &Ctx,
    l: usize,
    r: usize,
    rot: Rotation,
    ax: AxialMove,
    k: usize,
    r1: Rotation,
    u: AxialMove,
) -> (new: Option<usize>)
    requires
        ctx.wf(),
        l < r,
        r <= ctx.alg@.len(),
        l + 1 <= k && k <= r,
        rot.wf(),
        ax.wf(),
        r1.wf(),
        u.wf(),
        (r as int) - (l as int) <= (ctx.up_to_sz as int),
    ensures
        cost_opt(new) == choice_val(ctx.alg@, l as int, r as int, rot@, ax, k as int, r1@, u),
{
    let alg = ctx.alg();
    let parts = apply_choice(alg, l, r, rot, ax, k, r1, u);
    match parts {
        None => None,
        Some(t) => {
            let c1 = ctx.get(t.1.0, t.1.1, t.1.2, t.1.3);
            let c2 = ctx.get(t.2.0, t.2.1, t.2.2, t.2.3);
            proof {
                if c1 is Some && c2 is Some {
                    lemma_cost_bound(ctx.alg@, t.1.0 as int, t.1.1 as int, t.1.2@, t.1.3);
                    lemma_cost_bound(ctx.alg@, t.2.0 as int, t.2.1 as int, t.2.2@, t.2.3);
                    let nn2 = ctx.alg@.len() as int;
                    assert((t.1.1 as int) - (t.1.0 as int) <= nn2);
                    assert((t.2.1 as int) - (t.2.0 as int) <= nn2);
                    lemma_sum_fits(nn2);
                }
            }
            let res = post_computation(t.0, c1, c2);
            proof {
                lemma_choice_val_eval(
                    ctx.alg@,
                    l as int,
                    r as int,
                    rot@,
                    ax,
                    k as int,
                    r1@,
                    u,
                    t,
                    c1,
                    c2,
                    res,
                );
            }
            res
        },
    }
}


/// Evaluates the transition of one rank and folds it into the running
/// minimum, preserving the fold equation over the remaining ranks.
#[verifier::rlimit(100)]
#[verifier::spinoff_prover]
fn compute_step(
    ctx: &Ctx,
    l: usize,
    r: usize,
    rot: Rotation,
    ax: AxialMove,
    c: usize,
    all_rots: &Vec<Rotation>,
    best: &mut Val,
)
    requires
        ctx.wf(),
        l < r,
        r <= ctx.alg@.len(),
        rot.wf(),
        ax.wf(),
        (r as int) - (l as int) <= (ctx.up_to_sz as int),
        (c as int) < ((r as int) - (l as int)) * 384,
        all_rots@.len() == 24,
        forall|i: int| 0 <= i < 24 ==> (#[trigger] all_rots@[i])@ == all_spec(i)
            && all_rots@[i].wf(),
        opt_min(
            val_cost(*old(best)),
            best_from(ctx.alg@, l as int, r as int, rot@, ax, c as int),
        ) == best_from(ctx.alg@, l as int, r as int, rot@, ax, 0),
        best_wit(ctx.alg@, l as int, r as int, rot@, ax, *old(best)),
    ensures
        opt_min(
            val_cost(*final(best)),
            best_from(ctx.alg@, l as int, r as int, rot@, ax, c as int + 1),
        ) == best_from(ctx.alg@, l as int, r as int, rot@, ax, 0),
        best_wit(ctx.alg@, l as int, r as int, rot@, ax, *final(best)),
{
    let alg = ctx.alg();
    let k = l + 1 + c / 384;
    let rem = c % 384;
    let ri = rem / 16;
    let p = (rem % 16) / 4;
    let nn = rem % 4;
    proof {
        assert(c as int / 384 < (r as int) - (l as int)) by (nonlinear_arith)
            requires
                0 <= c as int,
                (c as int) < ((r as int) - (l as int)) * 384,
        ;
        assert(0 <= c as int / 384) by (nonlinear_arith)
            requires
                0 <= c as int,
        ;
        assert(rem as int == c as int % 384 && 0 <= rem < 384);
        assert(ri as int == (c as int % 384) / 16 && ri < 24);
        assert(p as int == ((c as int % 384) % 16) / 4 && p < 4);
        assert(nn as int == (c as int % 384) % 4 && nn < 4);
    }
    let r1 = all_rots[ri];
    let r1i = r1.inv();
    let acf = r1i.apply(alg[l].face());
    let u = AxialMove::new(acf.axis(), Z4::from_val(p as u8), Z4::from_val(nn as u8));
    proof {
        assert(u == AxialMove::new_spec(
            spec_apply(perm_inv_spec(all_spec(ri as int)), ctx.alg@[l as int].face_spec())
                .axis_spec(),
            z4_of_int(p as int),
            z4_of_int(nn as int),
        ));
    }
    let new: Option<usize> = eval_choice(ctx, l, r, rot, ax, k, r1, u);
    proof {
        assert(r1@ == all_spec(ri as int));
    }
    let ghost old_best = *best;
    min_into(best, new, (k, r1, u));
    proof {
        let av = ctx.alg@;
        let cv = choice_val(av, l as int, r as int, rot@, ax, k as int, all_spec(ri as int), u);
        lemma_rank_decode(
            av,
            l as int,
            r as int,
            rot@,
            ax,
            c as int,
            k as int,
            ri as int,
            p as int,
            nn as int,
            u,
        );
        assert(val_cost(*best) == opt_min(val_cost(old_best), cost_opt(new)));
        lemma_fold_step(
            av,
            l as int,
            r as int,
            rot@,
            ax,
            c as int,
            cv,
            val_cost(old_best),
            val_cost(*best),
        );
    }
}


/// The running minimum's witness: a held value is attained by its
/// recorded choice.
pub open spec fn best_wit(
    alg: Seq<Move>,
    l: int,
    r: int,
    rot: Seq<u8>,
    ax: AxialMove,
    v: Val,
) -> bool {
    v matches Some(cv) ==> (cv.1 matches Some(ch) && choice_wf(alg, l, r, ch) && choice_val(
        alg,
        l,
        r,
        rot,
        ax,
        ch.0 as int,
        ch.1@,
        ch.2,
    ) == Some(cv.0 as nat))
}


/// Computes one cell: the base cases directly, otherwise the minimum
/// over every transition in enumeration order.
#[verifier::rlimit(100)]
pub fn compute(ctx: &Ctx, l: usize, r: usize, rot: Rotation, ax: AxialMove) -> (val: Val)
    requires
        ctx.wf(),
        l <= r,
        r <= ctx.alg@.len(),
        rot.wf(),
        ax.wf(),
        (r as int) - (l as int) <= (ctx.up_to_sz as int),
    ensures
        cell_ok(ctx.alg@, l as int, r as int, rot@, ax, val),
{
    proof {
        reveal(cell_ok);
    }
    let alg = ctx.alg();
    let n = alg.len();
    match base_case(alg, l, r, rot, ax) {
        Some(BaseCase::Impossible) => {
            return None;
        },
        Some(BaseCase::Just(rt)) => {
            let id = Rotation::id();
            let c: usize = if rt == id {
                0
            } else {
                1
            };
            proof {
                if rt == id {
                    assert(rt@ =~= id_seq());
                } else {
                    assert(rt@ != id_seq()) by {
                        if rt@ == id_seq() {
                            assert(rt.d0 == 0 && rt.d1 == 1 && rt.d2 == 2 && rt.d3 == 3);
                        }
                    }
                }
            }
            return Some((c, None));
        },
        None => {},
    }
    let width = r - l;
    proof {
        assert(width as int * 384 <= usize::MAX as int) by (nonlinear_arith)
            requires
                0 <= width as int <= ctx.alg@.len(),
                (ctx.alg@.len() + 1) * (ctx.alg@.len() + 1) * 1152 <= usize::MAX as int,
        ;
    }
    let n_choices = width * 384;
    let all_rots = Rotation::all();
    let mut best: Val = None;
    let mut c: usize = 0;
    while c < n_choices
        invariant
            ctx.wf(),
            l < r,
            r <= ctx.alg@.len(),
            rot.wf(),
            ax.wf(),
            (r as int) - (l as int) <= (ctx.up_to_sz as int),
            width == r - l,
            n_choices == width * 384,
            c <= n_choices,
            all_rots@.len() == 24,
            forall|i: int| 0 <= i < 24 ==> (#[trigger] all_rots@[i])@ == all_spec(i)
                && all_rots@[i].wf(),
            opt_min(val_cost(best), best_from(ctx.alg@, l as int, r as int, rot@, ax, c as int))
                == best_from(ctx.alg@, l as int, r as int, rot@, ax, 0),
            best_wit(ctx.alg@, l as int, r as int, rot@, ax, best),
        decreases n_choices - c,
    {
        compute_step(ctx, l, r, rot, ax, c, &all_rots, &mut best);
        c = c + 1;
    }
    proof {
        assert(best_from(ctx.alg@, l as int, r as int, rot@, ax, n_choices as int) is None);
        assert(val_cost(best) == best_from(ctx.alg@, l as int, r as int, rot@, ax, 0));
        assert(spec_cost(ctx.alg@, l as int, r as int, rot@, ax) == best_from(
            ctx.alg@,
            l as int,
            r as int,
            rot@,
            ax,
            0,
        ));
    }
    best
}

/// Emits the parts of one transition in order: the move when it is not
/// the identity, then the left child's program, then the right child's.
pub fn post_reconstruction(f1: Move, sub1: Vec<MoveOrRot>, sub2: Vec<MoveOrRot>) -> (res: Vec<
    MoveOrRot,
>)
    ensures
        res@ == (if f1.by_spec() == Z4::Zero {
            Seq::<MoveOrRot>::empty()
        } else {
            seq![MoveOrRot::Move(f1)]
        }) + sub1@ + sub2@,
{
    let mut total: Vec<MoveOrRot> = Vec::new();
    if !matches!(f1.amount(), Z4::Zero) {
        total.push(MoveOrRot::Move(f1));
    }
    let mut s1 = sub1;
    let mut s2 = sub2;
    total.append(&mut s1);
    total.append(&mut s2);
    proof {
        if f1.by_spec() == Z4::Zero {
            assert(total@ =~= Seq::<MoveOrRot>::empty() + sub1@ + sub2@);
        } else {
            assert(total@ =~= seq![MoveOrRot::Move(f1)] + sub1@ + sub2@);
        }
    }
    total
}

/// Rebuilds the program of a state from the recorded choices. The
/// program exists exactly when the state is feasible, and its cost is
/// the state's value.
#[verifier::rlimit(100)]
pub fn reconstruct(ctx: &Ctx, l: usize, r: usize, rot: Rotation, ax: AxialMove) -> (res: Option<
    Vec<MoveOrRot>,
>)
    requires
        ctx.wf(),
        l <= r,
        r <= ctx.alg@.len(),
        rot.wf(),
        ax.wf(),
        (r as int) - (l as int) < (ctx.up_to_sz as int),
    ensures
        res is Some <==> spec_cost(ctx.alg@, l as int, r as int, rot@, ax) is Some,
        res matches Some(v) ==> spec_cost(ctx.alg@, l as int, r as int, rot@, ax) == Some(
            prog_cost(v@),
        ),
        res matches Some(v) ==> all_entries_nontrivial(v@),
        res matches Some(v) ==> prog_sem(v@) == state_sem(ctx.alg@, l as int, r as int, rot@, ax),
        l == r && ax.is_zero_spec() && rot@ == id_seq() ==> (res matches Some(v) && v@.len() == 0),
    decreases r - l,
{
    proof {
        reveal(cell_ok);
    }
    let alg = ctx.alg();
    match base_case(alg, l, r, rot, ax) {
        Some(BaseCase::Impossible) => {
            return None;
        },
        Some(BaseCase::Just(rt)) => {
            let id = Rotation::id();
            proof {
                if rt == id {
                    assert(rt@ =~= id_seq());
                } else {
                    assert(rt@ != id_seq()) by {
                        if rt@ == id_seq() {
                            assert(rt.d0 == 0 && rt.d1 == 1 && rt.d2 == 2 && rt.d3 == 3);
                        }
                    }
                }
            }
            if rt == id {
                let v: Vec<MoveOrRot> = Vec::new();
                proof {
                    lemma_rho_id();
                    lemma_aw_zero();
                    assert(ax == AxialMove::new_spec(Axis::X, Z4::Zero, Z4::Zero));
                    lemma_word_wf(ctx.alg@, l as int, r as int);
                    lemma_pid(word_of(ctx.alg@, l as int, r as int));
                    lemma_pid(pid());
                    assert(state_sem(ctx.alg@, l as int, r as int, rot@, ax) == pid());
                }
                return Some(v);
            } else {
                let mut v: Vec<MoveOrRot> = Vec::new();
                v.push(MoveOrRot::Rot(rt));
                proof {
                    assert(v@.drop_last() =~= Seq::<MoveOrRot>::empty());
                    assert(v@.last() == MoveOrRot::Rot(rt));
                    assert(prog_cost(v@) == prog_cost(v@.drop_last()) + entry_cost(v@.last()));
                    assert(prog_cost(v@) == 1);
                    assert(all_entries_nontrivial(v@)) by {
                        assert(v@[0] == MoveOrRot::Rot(rt));
                    }
                    lemma_rho_id();
                    lemma_aw_zero();
                    assert(ax == AxialMove::new_spec(Axis::X, Z4::Zero, Z4::Zero));
                    lemma_rho_wf(spec_index(rot@));
                    lemma_pid(rho_t(spec_index(rot@)));
                    assert(v@.drop_last() =~= Seq::<MoveOrRot>::empty());
                    assert(prog_sem(v@.drop_last()) == pid());
                    assert(v@.last() == MoveOrRot::Rot(rt));
                    assert(entry_sem(v@.last()) == rho_t(spec_index(rt@)));
                    assert(prog_sem(v@) == pthen(pid(), rho_t(spec_index(rt@))));
                    assert(state_sem(ctx.alg@, l as int, r as int, rot@, ax) == rho_t(
                        spec_index(rot@),
                    ));
                }
                return Some(v);
            }
        },
        None => {},
    }
    let cell = ctx.get_full(l, r, rot, ax);
    let cv = match cell {
        None => {
            return None;
        },
        Some(cv) => cv,
    };
    let ch = match cv.1 {
        None => {
            proof {
                assert(false);
            }
            return None;
        },
        Some(ch) => ch,
    };
    let parts = apply_choice(alg, l, r, rot, ax, ch.0, ch.1, ch.2);
    let t = match parts {
        None => {
            proof {
                assert(false);
            }
            return None;
        },
        Some(t) => t,
    };
    let s1 = reconstruct(ctx, t.1.0, t.1.1, t.1.2, t.1.3);
    let s2 = reconstruct(ctx, t.2.0, t.2.1, t.2.2, t.2.3);
    let v1 = match s1 {
        None => {
            proof {
                assert(false);
            }
            return None;
        },
        Some(v) => v,
    };
    let v2 = match s2 {
        None => {
            proof {
                assert(false);
            }
            return None;
        },
        Some(v) => v,
    };
    let ghost g1 = v1@;
    let ghost g2 = v2@;
    proof {
        let av = ctx.alg@;
        assert(choice_val(av, l as int, r as int, rot@, ax, ch.0 as int, ch.1@, ch.2) == Some(
            cv.0 as nat,
        ));
        assert(spec_cost(av, t.1.0 as int, t.1.1 as int, t.1.2@, t.1.3) == Some(prog_cost(g1)));
        assert(spec_cost(av, t.2.0 as int, t.2.1 as int, t.2.2@, t.2.3) == Some(prog_cost(g2)));
        assert(cv.0 as nat == (if t.0.by_spec() == Z4::Zero {
            0nat
        } else {
            1nat
        }) + prog_cost(g1) + prog_cost(g2));
    }
    let out = post_reconstruction(t.0, v1, v2);
    proof {
        let head = if t.0.by_spec() == Z4::Zero {
            Seq::<MoveOrRot>::empty()
        } else {
            seq![MoveOrRot::Move(t.0)]
        };
        assert(all_entries_nontrivial(out@)) by {
            assert forall|i: int| 0 <= i < out@.len() implies #[trigger] entry_cost(out@[i])
                == 1 by {
                if i < head.len() {
                    assert(out@[i] == MoveOrRot::Move(t.0));
                } else if i < head.len() + g1.len() {
                    assert(out@[i] == g1[i - head.len()]);
                } else {
                    assert(out@[i] == g2[i - head.len() - g1.len()]);
                }
            }
        }
        lemma_prog_cost_concat(head + g1, g2);
        lemma_prog_cost_concat(head, g1);
        if t.0.by_spec() == Z4::Zero {
            assert(prog_cost(head) == 0);
        } else {
            assert(head.drop_last() =~= Seq::<MoveOrRot>::empty());
            assert(head.last() == MoveOrRot::Move(t.0));
            assert(prog_cost(head) == prog_cost(head.drop_last()) + entry_cost(head.last()));
            assert(prog_cost(head) == 1);
        }
        // the meaning of the output: the emitted move, then both children
        let av = ctx.alg@;
        lemma_transition_sem(av, l as int, r as int, rot@, ax, ch.0 as int, ch.1@, ch.2);
        lemma_prog_sem_concat(head + g1, g2);
        lemma_prog_sem_concat(head, g1);
        let th = turn_of(t.0.face_spec(), t.0.by_spec());
        assert(prog_sem(head) == th) by {
            lemma_turn_wf(t.0.face_spec(), t.0.by_spec());
            if t.0.by_spec() == Z4::Zero {
                assert(prog_sem(head) == pid());
            } else {
                assert(head.drop_last() =~= Seq::<MoveOrRot>::empty());
                assert(prog_sem(head.drop_last()) == pid());
                assert(head.last() == MoveOrRot::Move(t.0));
                assert(entry_sem(head.last()) == th);
                assert(prog_sem(head) == pthen(pid(), th));
                lemma_pid(th);
            }
        }
        let sem1 = state_sem(av, (l + 1) as int, ch.0 as int, t.1.2@, t.1.3);
        let sem2 = state_sem(av, ch.0 as int, r as int, t.2.2@, t.2.3);
        assert(prog_sem(out@) == pthen(pthen(th, sem1), sem2));
        assert(pthen(pthen(th, sem1), sem2) == pthen(th, pthen(sem1, sem2))) by {
            lemma_turn_wf(t.0.face_spec(), t.0.by_spec());
            crate::semantics::lemma_pthen_assoc(th, sem1, sem2);
        }
    }
    Some(out)
}

/// Rewrites the input into a minimum-cost equivalent program over the
/// solver's transition system: the table is filled bottom-up by interval
/// width, then the program is read back from the recorded choices. The
/// output always exists; its net rotation-and-move effect on the corner
/// stickers equals the input's; its cost is the table's minimum and
/// never exceeds the input's count of non-identity turns; and every
/// entry it holds does work. The empty input yields the empty program.
pub fn solve(alg: &Vec<Move>) -> (res: Option<Vec<MoveOrRot>>)
    requires
        (alg@.len() + 1) * (alg@.len() + 1) * 1152 <= usize::MAX as int,
    ensures
        res is Some,
        res matches Some(v) ==> spec_cost(alg@, 0, alg@.len() as int, id_seq(), am_zero()) == Some(
            prog_cost(v@),
        ),
        res matches Some(v) ==> prog_cost(v@) <= nonzero_count(alg@, 0, alg@.len() as int),
        res matches Some(v) ==> all_entries_nontrivial(v@),
        res matches Some(v) ==> prog_sem(v@) == word_of(alg@, 0, alg@.len() as int),
        alg@.len() == 0 ==> (res matches Some(v) && v@.len() == 0),
{
    proof {
        assert(wf_seq(id_seq()));
        lemma_always_feasible(alg@, 0, alg@.len() as int, id_seq());
    }
    let n = alg.len();
    let mut owned: Vec<Move> = Vec::new();
    let mut i: usize = 0;
    while i < n
        invariant
            i <= n,
            n == alg@.len(),
            owned@ =~= alg@.take(i as int),
        decreases n - i,
    {
        owned.push(alg[i]);
        i = i + 1;
    }
    proof {
        assert(owned@ =~= alg@);
    }
    let mut ctx = Ctx::new(owned);
    let all_rots = Rotation::all();
    let axes = crate::basic::Axis::all();
    let mut sz: usize = 0;
    while sz <= n
        invariant
            ctx.wf(),
            ctx.alg@ == alg@,
            n == alg@.len(),
            sz <= n + 1,
            ctx.up_to_sz == sz,
            all_rots@.len() == 24,
            forall|q: int| 0 <= q < 24 ==> (#[trigger] all_rots@[q])@ == all_spec(q)
                && all_rots@[q].wf(),
            axes@ =~= seq![Axis::X, Axis::Y, Axis::Z],
        decreases n + 1 - sz,
    {
        let mut l: usize = 0;
        while l <= n - sz
            invariant
                ctx.wf(),
                ctx.alg@ == alg@,
                n == alg@.len(),
                sz <= n,
                l <= n - sz + 1,
                ctx.up_to_sz == sz,
                all_rots@.len() == 24,
                forall|q: int| 0 <= q < 24 ==> (#[trigger] all_rots@[q])@ == all_spec(q)
                    && all_rots@[q].wf(),
                axes@ =~= seq![Axis::X, Axis::Y, Axis::Z],
                forall|l2: int, ri: int, am: AxialMove|
                    0 <= l2 < l as int && l2 + sz as int <= n as int && 0 <= ri < 24 && am.wf()
                        ==> cell_ok(
                        ctx.alg@,
                        l2,
                        l2 + sz as int,
                        all_spec(ri),
                        am,
                        #[trigger] ctx.aux.view_cells()[enc(
                            n as int,
                            l2,
                            l2 + sz as int,
                            ri,
                            am,
                        )],
                    ),
            decreases n - sz - l + 1,
        {
            let r = l + sz;
            let mut ri: usize = 0;
            while ri < 24
                invariant
                    ctx.wf(),
                    ctx.alg@ == alg@,
                    n == alg@.len(),
                    sz <= n,
                    l + sz <= n,
                    r == l + sz,
                    ri <= 24,
                    ctx.up_to_sz == sz,
                    all_rots@.len() == 24,
                    forall|q: int| 0 <= q < 24 ==> (#[trigger] all_rots@[q])@ == all_spec(q)
                        && all_rots@[q].wf(),
                    axes@ =~= seq![Axis::X, Axis::Y, Axis::Z],
                    forall|l2: int, ri2: int, am: AxialMove|
                        0 <= l2 < l as int && l2 + sz as int <= n as int && 0 <= ri2 < 24
                            && am.wf() ==> cell_ok(
                            ctx.alg@,
                            l2,
                            l2 + sz as int,
                            all_spec(ri2),
                            am,
                            #[trigger] ctx.aux.view_cells()[enc(
                                n as int,
                                l2,
                                l2 + sz as int,
                                ri2,
                                am,
                            )],
                        ),
                    forall|ri2: int, am: AxialMove|
                        0 <= ri2 < ri as int && am.wf() ==> cell_ok(
                            ctx.alg@,
                            l as int,
                            r as int,
                            all_spec(ri2),
                            am,
                            #[trigger] ctx.aux.view_cells()[enc(n as int, l as int, r as int, ri2, am)],
                        ),
                decreases 24 - ri,
            {
                let rotation = all_rots[ri];
                let mut ai: usize = 0;
                while ai < 48
                    invariant
                        ctx.wf(),
                        ctx.alg@ == alg@,
                        n == alg@.len(),
                        sz <= n,
                        l + sz <= n,
                        r == l + sz,
                        ri < 24,
                        ai <= 48,
                        ctx.up_to_sz == sz,
                        rotation.wf(),
                        rotation@ == all_spec(ri as int),
                        axes@ =~= seq![Axis::X, Axis::Y, Axis::Z],
                        forall|l2: int, ri2: int, am: AxialMove|
                            0 <= l2 < l as int && l2 + sz as int <= n as int && 0 <= ri2 < 24
                                && am.wf() ==> cell_ok(
                                ctx.alg@,
                                l2,
                                l2 + sz as int,
                                all_spec(ri2),
                                am,
                                #[trigger] ctx.aux.view_cells()[enc(
                                    n as int,
                                    l2,
                                    l2 + sz as int,
                                    ri2,
                                    am,
                                )],
                            ),
                        forall|ri2: int, am: AxialMove|
                            0 <= ri2 < ri as int && am.wf() ==> cell_ok(
                                ctx.alg@,
                                l as int,
                                r as int,
                                all_spec(ri2),
                                am,
                                #[trigger] ctx.aux.view_cells()[enc(
                                    n as int,
                                    l as int,
                                    r as int,
                                    ri2,
                                    am,
                                )],
                            ),
                        forall|am: AxialMove|
                            am.wf() && am_ord(am) < ai as int ==> cell_ok(
                                ctx.alg@,
                                l as int,
                                r as int,
                                all_spec(ri as int),
                                am,
                                #[trigger] ctx.aux.view_cells()[enc(
                                    n as int,
                                    l as int,
                                    r as int,
                                    ri as int,
                                    am,
                                )],
                            ),
                    decreases 48 - ai,
                {
                    let axis = axes[ai / 16];
                    let p = (ai % 16) / 4;
                    let nn = ai % 4;
                    let ax = AxialMove::new(axis, Z4::from_val(p as u8), Z4::from_val(nn as u8));
                    let val = compute(&ctx, l, r, rotation, ax);
                    let ghost pre = ctx;
                    ctx.set(l, r, rotation, ax, val);
                    proof {
                        crate::rotation::lemma_roundtrip(ri as int);
                        assert(spec_index(rotation@) == ri as int);
                        assert(am_ord(ax) <= ai as int);
                        assert forall|am: AxialMove| am.wf() && am_ord(am) == ai as int implies am
                            == ax by {
                            assert(axis_ord(am.axis_spec()) == ai as int / 16
                                && am.pos_spec().as_int() == (ai as int % 16) / 4
                                && am.neg_spec().as_int() == ai as int % 4) by (nonlinear_arith)
                                requires
                                    (axis_ord(am.axis_spec()) * 4 + am.pos_spec().as_int()) * 4
                                        + am.neg_spec().as_int() == ai as int,
                                    0 <= axis_ord(am.axis_spec()) < 3,
                                    0 <= am.pos_spec().as_int() < 4,
                                    0 <= am.neg_spec().as_int() < 4,
                            ;
                        }
                        assert(pre.aux.view_cells().len() == ((n as int + 1) * (n as int + 1)) * 24
                            * 48) by {
                            assert(pre.aux.view_cells().len() == (n as int + 1) * (n as int + 1)
                                * 24 * 48);
                            assert((n as int + 1) * (n as int + 1) * 24 * 48 == ((n as int + 1)
                                * (n as int + 1)) * 24 * 48) by (nonlinear_arith);
                        }
                        lemma_fill_step(
                            ctx.alg@,
                            pre.aux.view_cells(),
                            ctx.aux.view_cells(),
                            n as int,
                            l as int,
                            r as int,
                            ri as int,
                            ax,
                            val,
                            sz as int,
                            ai as int,
                        );
                        assert(tbl_ok_w(&ctx, sz as int));
                    }
                    ai = ai + 1;
                }
                proof {
                    assert forall|ri2: int, am: AxialMove|
                        0 <= ri2 < ri as int + 1 && am.wf() implies cell_ok(
                        ctx.alg@,
                        l as int,
                        r as int,
                        all_spec(ri2),
                        am,
                        #[trigger] ctx.aux.view_cells()[enc(n as int, l as int, r as int, ri2, am)],
                    ) by {
                        if ri2 == ri as int {
                            assert(am_ord(am) < 48);
                        }
                    }
                }
                ri = ri + 1;
            }
            l = l + 1;
        }
        proof {
            assert(tbl_ok_w(&ctx, sz as int + 1)) by {
                assert forall|l2: int, r2: int, ri2: int, am: AxialMove|
                    0 <= l2 <= n as int && 0 <= r2 <= n as int && 0 <= ri2 < 24 && am.wf() && r2
                        - l2 < sz as int + 1 implies cell_ok(
                    ctx.alg@,
                    l2,
                    r2,
                    all_spec(ri2),
                    am,
                    #[trigger] ctx.aux.view_cells()[enc(n as int, l2, r2, ri2, am)],
                ) by {
                    if r2 - l2 == sz as int {
                        assert(l2 < (n - sz) as int + 1);
                        assert(r2 == l2 + sz as int);
                    }
                }
            }
        }
        ctx.increment_sz();
        sz = sz + 1;
    }
    let id = Rotation::id();
    let zero = AxialMove::zero();
    let res = reconstruct(&ctx, 0, n, id, zero);
    proof {
        lemma_rho_id();
        lemma_aw_zero();
        lemma_word_wf(alg@, 0, n as int);
        lemma_pid(word_of(alg@, 0, n as int));
        lemma_pid(pid());
        assert(state_sem(alg@, 0, n as int, id_seq(), AxialMove::new_spec(
            Axis::X,
            Z4::Zero,
            Z4::Zero,
        )) == word_of(alg@, 0, n as int));
    }
    res
}

} // verus!
