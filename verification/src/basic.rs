//! Axes, faces, single face turns, and axial move pairs.

use vstd::prelude::*;

use crate::z4::Z4;

verus! {

/// One of the three axes of the cube.
#[derive(Debug, Clone, Copy, PartialEq, Eq, Structural)]
pub enum Axis {
    X,
    Y,
    Z,
}

/// One of the six faces: R, U, F are the positive faces of X, Y, Z;
/// L, D, B the negative ones.
#[derive(Debug, Clone, Copy, PartialEq, Eq, Structural)]
pub enum Face {
    R,
    U,
    F,
    L,
    D,
    B,
}

impl Axis {
    /// The axes in cyclic order X -> Y -> Z -> X.
    pub fn next(self) -> (a: Axis)
        ensures
            a == (match self {
                Axis::X => Axis::Y,
                Axis::Y => Axis::Z,
                Axis::Z => Axis::X,
            }),
    {
        match self {
            Axis::X => Axis::Y,
            Axis::Y => Axis::Z,
            Axis::Z => Axis::X,
        }
    }

    pub fn pos_face(self) -> (f: Face)
        ensures
            f == Face::new_spec(self, false),
    {
        Face::new(self, false)
    }

    pub fn neg_face(self) -> (f: Face)
        ensures
            f == Face::new_spec(self, true),
    {
        Face::new(self, true)
    }

    pub fn eq(self, rhs: Axis) -> (b: bool)
        ensures
            b == (self == rhs),
    {
        matches!((self, rhs), (Axis::X, Axis::X) | (Axis::Y, Axis::Y) | (Axis::Z, Axis::Z))
    }

    /// The axes in order.
    pub fn all() -> (v: Vec<Axis>)
        ensures
            v@ =~= seq![Axis::X, Axis::Y, Axis::Z],
    {
        let mut v: Vec<Axis> = Vec::new();
        v.push(Axis::X);
        v.push(Axis::Y);
        v.push(Axis::Z);
        v
    }
}

impl Face {
    /// The face on `axis`, negative side if `neg`.
    pub open spec fn new_spec(axis: Axis, neg: bool) -> Face {
        match (axis, neg) {
            (Axis::X, false) => Face::R,
            (Axis::Y, false) => Face::U,
            (Axis::Z, false) => Face::F,
            (Axis::X, true) => Face::L,
            (Axis::Y, true) => Face::D,
            (Axis::Z, true) => Face::B,
        }
    }

    pub open spec fn axis_spec(self) -> Axis {
        match self {
            Face::R | Face::L => Axis::X,
            Face::U | Face::D => Axis::Y,
            Face::F | Face::B => Axis::Z,
        }
    }

    pub open spec fn neg_spec(self) -> bool {
        match self {
            Face::R | Face::U | Face::F => false,
            Face::L | Face::D | Face::B => true,
        }
    }

    pub open spec fn opposite_spec(self) -> Face {
        Face::new_spec(self.axis_spec(), !self.neg_spec())
    }

    /// The position of the face in the order R, U, F, L, D, B.
    pub open spec fn ord_spec(self) -> int {
        match self {
            Face::R => 0,
            Face::U => 1,
            Face::F => 2,
            Face::L => 3,
            Face::D => 4,
            Face::B => 5,
        }
    }

    pub open spec fn from_ord_spec(i: int) -> Face {
        if i == 0 {
            Face::R
        } else if i == 1 {
            Face::U
        } else if i == 2 {
            Face::F
        } else if i == 3 {
            Face::L
        } else if i == 4 {
            Face::D
        } else {
            Face::B
        }
    }

    pub fn new(axis: Axis, neg: bool) -> (f: Face)
        ensures
            f == Face::new_spec(axis, neg),
    {
        match (axis, neg) {
            (Axis::X, false) => Face::R,
            (Axis::Y, false) => Face::U,
            (Axis::Z, false) => Face::F,
            (Axis::X, true) => Face::L,
            (Axis::Y, true) => Face::D,
            (Axis::Z, true) => Face::B,
        }
    }

    pub fn axis(self) -> (a: Axis)
        ensures
            a == self.axis_spec(),
    {
        match self {
            Face::R | Face::L => Axis::X,
            Face::U | Face::D => Axis::Y,
            Face::F | Face::B => Axis::Z,
        }
    }

    pub fn neg(self) -> (n: bool)
        ensures
            n == self.neg_spec(),
    {
        match self {
            Face::R | Face::U | Face::F => false,
            Face::L | Face::D | Face::B => true,
        }
    }

    pub fn opposite(self) -> (f: Face)
        ensures
            f == self.opposite_spec(),
    {
        Face::new(self.axis(), !self.neg())
    }

    pub fn is_opposite(self, rhs: Face) -> (b: bool)
        ensures
            b == (self.axis_spec() == rhs.axis_spec() && self.neg_spec() != rhs.neg_spec()),
    {
        self.axis().eq(rhs.axis()) && self.neg() != rhs.neg()
    }

    pub fn is_coaxial(self, rhs: Face) -> (b: bool)
        ensures
            b == (self.axis_spec() == rhs.axis_spec()),
    {
        self.axis().eq(rhs.axis())
    }
}

/// Taking the opposite face twice returns the face; the opposite face lies
/// on the same axis and on the other side.
pub proof fn lemma_face_opposite(f: Face)
    ensures
        f.opposite_spec().opposite_spec() == f,
        f.opposite_spec().axis_spec() == f.axis_spec(),
        f.opposite_spec().neg_spec() == !f.neg_spec(),
{
}

/// A single face turn: a face and a quarter-turn amount.
#[derive(Debug, Clone, Copy, PartialEq, Eq, Structural)]
pub struct Move {
    pub face: Face,
    pub by: Z4,
}

impl Move {
    pub open spec fn face_spec(self) -> Face {
        self.face
    }

    pub open spec fn by_spec(self) -> Z4 {
        self.by
    }

    pub fn new(face: Face, by: Z4) -> (m: Move)
        ensures
            m.face_spec() == face,
            m.by_spec() == by,
    {
        Move { face, by }
    }

    pub fn face(self) -> (f: Face)
        ensures
            f == self.face_spec(),
    {
        self.face
    }

    pub fn amount(self) -> (b: Z4)
        ensures
            b == self.by_spec(),
    {
        self.by
    }

    pub fn axis(self) -> (a: Axis)
        ensures
            a == self.face_spec().axis_spec(),
    {
        self.face().axis()
    }

    /// Two turns commute exactly when their faces share an axis.
    pub fn commutes(self, rhs: Move) -> (b: bool)
        ensures
            b == (self.face_spec().axis_spec() == rhs.face_spec().axis_spec()),
    {
        self.face().is_coaxial(rhs.face())
    }

    /// The inverse turn: same face, negated amount.
    pub fn inv(self) -> (m: Move)
        ensures
            m.face_spec() == self.face_spec(),
            m.by_spec().as_int() == (4 - self.by_spec().as_int()) % 4,
    {
        Move::new(self.face(), self.amount().neg())
    }
}

/// A pair of quarter-turn amounts on the two faces of one axis. The two
/// turns commute, so the pair is one commutative operation. Invariant:
/// when both amounts are zero the axis is normalised to X, so the zero
/// axial move has a single representation.
#[derive(Debug, Clone, Copy, PartialEq, Eq, Structural)]
pub struct AxialMove {
    pub axis: Axis,
    pub pos: Z4,
    pub neg: Z4,
}

impl AxialMove {
    /// The normalisation invariant: a zero pair sits on the X axis.
    pub open spec fn wf(self) -> bool {
        (self.pos == Z4::Zero && self.neg == Z4::Zero) ==> self.axis == Axis::X
    }

    pub open spec fn axis_spec(self) -> Axis {
        self.axis
    }

    pub open spec fn pos_spec(self) -> Z4 {
        self.pos
    }

    pub open spec fn neg_spec(self) -> Z4 {
        self.neg
    }

    pub open spec fn is_zero_spec(self) -> bool {
        self.pos == Z4::Zero && self.neg == Z4::Zero
    }

    /// The value `new` returns: the given pair, with the axis normalised
    /// to X when both amounts are zero.
    pub open spec fn new_spec(axis: Axis, pos: Z4, neg: Z4) -> AxialMove {
        if pos == Z4::Zero && neg == Z4::Zero {
            AxialMove { axis: Axis::X, pos, neg }
        } else {
            AxialMove { axis, pos, neg }
        }
    }

    pub fn new(axis: Axis, pos: Z4, neg: Z4) -> (am: AxialMove)
        ensures
            am == AxialMove::new_spec(axis, pos, neg),
            am.wf(),
    {
        if matches!((pos, neg), (Z4::Zero, Z4::Zero)) {
            AxialMove { axis: Axis::X, pos, neg }
        } else {
            AxialMove { axis, pos, neg }
        }
    }

    pub fn zero() -> (am: AxialMove)
        ensures
            am == AxialMove::new_spec(Axis::X, Z4::Zero, Z4::Zero),
            am.is_zero_spec(),
            am.wf(),
    {
        AxialMove::new(Axis::X, Z4::Zero, Z4::Zero)
    }

    pub fn axis(self) -> (a: Axis)
        ensures
            a == self.axis_spec(),
    {
        self.axis
    }

    pub fn pos(self) -> (z: Z4)
        ensures
            z == self.pos_spec(),
    {
        self.pos
    }

    pub fn neg(self) -> (z: Z4)
        ensures
            z == self.neg_spec(),
    {
        self.neg
    }

    pub fn is_zero(self) -> (b: bool)
        ensures
            b == self.is_zero_spec(),
    {
        matches!((self.pos, self.neg), (Z4::Zero, Z4::Zero))
    }

    /// The two turns of the pair: the positive face by `pos`, the negative
    /// face by `neg`.
    pub fn moves(self) -> (ms: (Move, Move))
        ensures
            ms.0.face_spec() == Face::new_spec(self.axis_spec(), false),
            ms.0.by_spec() == self.pos_spec(),
            ms.1.face_spec() == Face::new_spec(self.axis_spec(), true),
            ms.1.by_spec() == self.neg_spec(),
    {
        (Move::new(self.axis().pos_face(), self.pos()), Move::new(self.axis().neg_face(), self.neg()))
    }

    /// Combines two turns on opposite faces into one pair; `None` when the
    /// faces are not opposite.
    pub fn from_moves(a: Move, b: Move) -> (r: Option<AxialMove>)
        ensures
            r is Some <==> (a.face_spec().axis_spec() == b.face_spec().axis_spec()
                && a.face_spec().neg_spec() != b.face_spec().neg_spec()),
            r matches Some(am) ==> am.wf() && am == (if a.face_spec().neg_spec() {
                AxialMove::new_spec(a.face_spec().axis_spec(), b.by_spec(), a.by_spec())
            } else {
                AxialMove::new_spec(a.face_spec().axis_spec(), a.by_spec(), b.by_spec())
            }),
    {
        if !a.face().is_opposite(b.face()) {
            None
        } else if a.face().neg() {
            Some(AxialMove::new(a.axis(), b.amount(), a.amount()))
        } else {
            Some(AxialMove::new(a.axis(), a.amount(), b.amount()))
        }
    }

    /// The lift of a single turn: its amount on the matching side of its
    /// axis, zero on the other side.
    pub open spec fn lift_spec(f: Face, b: Z4) -> AxialMove {
        if f.neg_spec() {
            AxialMove::new_spec(f.axis_spec(), Z4::Zero, b)
        } else {
            AxialMove::new_spec(f.axis_spec(), b, Z4::Zero)
        }
    }

    pub fn from_move(m: Move) -> (am: AxialMove)
        ensures
            am == AxialMove::lift_spec(m.face_spec(), m.by_spec()),
            am.wf(),
    {
        if m.face().neg() {
            AxialMove::new(m.axis(), Z4::Zero, m.amount())
        } else {
            AxialMove::new(m.axis(), m.amount(), Z4::Zero)
        }
    }

    /// The inverse pair: both amounts negated, same axis.
    pub fn inv(self) -> (am: AxialMove)
        requires
            self.wf(),
        ensures
            am == inv_spec(self),
            am.wf(),
            am.is_zero_spec() == self.is_zero_spec(),
            am.axis_spec() == self.axis_spec(),
    {
        proof {
            reveal(inv_spec);
        }
        AxialMove::new(self.axis(), self.pos().neg(), self.neg().neg())
    }

    /// Component-wise sum. Defined when the axes agree or one side is
    /// zero; `None` otherwise.
    pub fn add(self, rhs: AxialMove) -> (r: Option<AxialMove>)
        requires
            self.wf(),
            rhs.wf(),
        ensures
            r == add_spec(self, rhs),
            r is Some <==> (self.is_zero_spec() || rhs.is_zero_spec() || self.axis_spec()
                == rhs.axis_spec()),
            r matches Some(am) ==> am.wf(),
    {
        proof {
            reveal(add_spec);
        }
        if self.is_zero() {
            Some(rhs)
        } else if rhs.is_zero() {
            Some(self)
        } else if !self.axis().eq(rhs.axis()) {
            None
        } else {
            Some(AxialMove::new(self.axis(), self.pos().add(rhs.pos()), self.neg().add(rhs.neg())))
        }
    }

    /// Component-wise difference, by way of the inverse.
    pub fn sub(self, rhs: AxialMove) -> (r: Option<AxialMove>)
        requires
            self.wf(),
            rhs.wf(),
        ensures
            r == add_spec(self, inv_spec(rhs)),
            r matches Some(am) ==> am.wf(),
    {
        self.add(rhs.inv())
    }
}

/// Axial moves on one axis form an abelian monoid with inverses: the sum
/// with zero is the other operand, the sum commutes, a double inverse is
/// the identity, and a pair cancels against its inverse.
#[verifier::rlimit(60)]
pub proof fn lemma_axial_group(a: AxialMove, b: AxialMove)
    requires
        a.wf(),
        b.wf(),
    ensures
        a.is_zero_spec() || b.is_zero_spec() || a.axis_spec() == b.axis_spec()
            ==> add_spec(a, b) == add_spec(b, a),
        add_spec(a, AxialMove::new_spec(Axis::X, Z4::Zero, Z4::Zero)) == Some(a),
        add_spec(AxialMove::new_spec(Axis::X, Z4::Zero, Z4::Zero), a) == Some(a),
        inv_spec(inv_spec(a)) == a,
        add_spec(a, inv_spec(a)) == Some(AxialMove::new_spec(Axis::X, Z4::Zero, Z4::Zero)),
{
    reveal(add_spec);
    reveal(inv_spec);
}

/// What `add` returns, as a spec-level function.
#[verifier::opaque]
pub open spec fn add_spec(a: AxialMove, b: AxialMove) -> Option<AxialMove> {
    if a.is_zero_spec() {
        Some(b)
    } else if b.is_zero_spec() {
        Some(a)
    } else if a.axis_spec() != b.axis_spec() {
        None
    } else {
        Some(
            AxialMove::new_spec(
                a.axis_spec(),
                z4_add_spec(a.pos_spec(), b.pos_spec()),
                z4_add_spec(a.neg_spec(), b.neg_spec()),
            ),
        )
    }
}

/// What `inv` returns, as a spec-level function.
#[verifier::opaque]
pub open spec fn inv_spec(a: AxialMove) -> AxialMove {
    AxialMove::new_spec(a.axis_spec(), z4_neg_spec(a.pos_spec()), z4_neg_spec(a.neg_spec()))
}

pub open spec fn z4_add_spec(a: Z4, b: Z4) -> Z4 {
    z4_of_int((a.as_int() + b.as_int()) % 4)
}

pub open spec fn z4_neg_spec(a: Z4) -> Z4 {
    z4_of_int((4 - a.as_int()) % 4)
}

pub open spec fn z4_of_int(i: int) -> Z4 {
    if i == 0 {
        Z4::Zero
    } else if i == 1 {
        Z4::One
    } else if i == 2 {
        Z4::Two
    } else {
        Z4::Three
    }
}

/// A whole-cube rotation about one axis by a quarter-turn amount.
#[derive(Debug, Clone, Copy, PartialEq, Eq, Structural)]
pub struct AxialRotation {
    pub axis: Axis,
    pub by: Z4,
}

impl AxialRotation {
    pub open spec fn axis_spec(self) -> Axis {
        self.axis
    }

    pub open spec fn by_spec(self) -> Z4 {
        self.by
    }

    pub fn new(axis: Axis, by: Z4) -> (ar: AxialRotation)
        ensures
            ar.axis_spec() == axis,
            ar.by_spec() == by,
    {
        AxialRotation { axis, by }
    }

    pub fn axis(self) -> (a: Axis)
        ensures
            a == self.axis_spec(),
    {
        self.axis
    }

    pub fn amount(self) -> (z: Z4)
        ensures
            z == self.by_spec(),
    {
        self.by
    }
}

} // verus!
