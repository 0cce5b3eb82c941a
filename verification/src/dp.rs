//! A fixed-shape flat array indexed by a composable key: each key type
//! reports its size and maps a key to a position, and the solver's
//! four-part key multiplies the sizes into one mixed-radix index.

use vstd::prelude::*;

use crate::basic::{Axis, AxialMove, Face};
use crate::rotation::{spec_index, Rotation};
use crate::z4::Z4;

verus! {

/// A key into a `DpArray`. `Runtime` carries the data that fixes the
/// shape (for a `usize` key, its bound; for fixed-size keys, nothing).
pub trait DpIndex: Sized {
    type Runtime;

    /// How many distinct positions keys of this type address.
    spec fn spec_size(v: &Self::Runtime) -> int;

    /// Whether this key addresses a position under the given shape.
    spec fn valid(&self, v: &Self::Runtime) -> bool;

    /// The position this key addresses.
    spec fn spec_index(&self, v: &Self::Runtime) -> int;

    proof fn lemma_index_bounds(&self, v: &Self::Runtime)
        requires
            self.valid(v),
        ensures
            0 <= self.spec_index(v) < Self::spec_size(v),
    ;

    proof fn lemma_index_injective(a: &Self, b: &Self, v: &Self::Runtime)
        requires
            a.valid(v),
            b.valid(v),
            a.spec_index(v) == b.spec_index(v),
        ensures
            a == b,
    ;

    fn size(v: &Self::Runtime) -> (n: usize)
        requires
            0 <= Self::spec_size(v) <= usize::MAX as int,
        ensures
            n as int == Self::spec_size(v),
    ;

    fn to_index(&self, v: &Self::Runtime) -> (i: usize)
        requires
            self.valid(v),
            Self::spec_size(v) <= usize::MAX as int,
        ensures
            i as int == self.spec_index(v),
    ;
}

impl DpIndex for Axis {
    type Runtime = ();

    open spec fn spec_size(v: &()) -> int {
        3
    }

    open spec fn valid(&self, v: &()) -> bool {
        true
    }

    open spec fn spec_index(&self, v: &()) -> int {
        axis_ord(*self)
    }

    proof fn lemma_index_bounds(&self, v: &()) {
    }

    proof fn lemma_index_injective(a: &Self, b: &Self, v: &()) {
    }

    fn size(v: &()) -> usize {
        3
    }

    fn to_index(&self, v: &()) -> usize {
        match self {
            Axis::X => 0,
            Axis::Y => 1,
            Axis::Z => 2,
        }
    }
}

pub open spec fn axis_ord(a: Axis) -> int {
    match a {
        Axis::X => 0,
        Axis::Y => 1,
        Axis::Z => 2,
    }
}

impl DpIndex for Z4 {
    type Runtime = ();

    open spec fn spec_size(v: &()) -> int {
        4
    }

    open spec fn valid(&self, v: &()) -> bool {
        true
    }

    open spec fn spec_index(&self, v: &()) -> int {
        self.as_int()
    }

    proof fn lemma_index_bounds(&self, v: &()) {
    }

    proof fn lemma_index_injective(a: &Self, b: &Self, v: &()) {
    }

    fn size(v: &()) -> usize {
        4
    }

    fn to_index(&self, v: &()) -> usize {
        self.val() as usize
    }
}

impl DpIndex for bool {
    type Runtime = ();

    open spec fn spec_size(v: &()) -> int {
        2
    }

    open spec fn valid(&self, v: &()) -> bool {
        true
    }

    open spec fn spec_index(&self, v: &()) -> int {
        if *self {
            1
        } else {
            0
        }
    }

    proof fn lemma_index_bounds(&self, v: &()) {
    }

    proof fn lemma_index_injective(a: &Self, b: &Self, v: &()) {
    }

    fn size(v: &()) -> usize {
        2
    }

    fn to_index(&self, v: &()) -> usize {
        if *self {
            1
        } else {
            0
        }
    }
}

impl DpIndex for usize {
    type Runtime = usize;

    open spec fn spec_size(v: &usize) -> int {
        *v as int
    }

    open spec fn valid(&self, v: &usize) -> bool {
        *self < *v
    }

    open spec fn spec_index(&self, v: &usize) -> int {
        *self as int
    }

    proof fn lemma_index_bounds(&self, v: &usize) {
    }

    proof fn lemma_index_injective(a: &Self, b: &Self, v: &usize) {
    }

    fn size(v: &usize) -> usize {
        *v
    }

    fn to_index(&self, v: &usize) -> usize {
        *self
    }
}

impl DpIndex for Face {
    type Runtime = ();

    open spec fn spec_size(v: &()) -> int {
        6
    }

    open spec fn valid(&self, v: &()) -> bool {
        true
    }

    open spec fn spec_index(&self, v: &()) -> int {
        self.ord_spec()
    }

    proof fn lemma_index_bounds(&self, v: &()) {
    }

    proof fn lemma_index_injective(a: &Self, b: &Self, v: &()) {
    }

    fn size(v: &()) -> usize {
        6
    }

    fn to_index(&self, v: &()) -> usize {
        match self {
            Face::R => 0,
            Face::U => 1,
            Face::F => 2,
            Face::L => 3,
            Face::D => 4,
            Face::B => 5,
        }
    }
}

impl DpIndex for Rotation {
    type Runtime = ();

    open spec fn spec_size(v: &()) -> int {
        24
    }

    open spec fn valid(&self, v: &()) -> bool {
        self.wf()
    }

    open spec fn spec_index(&self, v: &()) -> int {
        spec_index(self@)
    }

    proof fn lemma_index_bounds(&self, v: &()) {
        crate::rotation::lemma_complete(self@);
    }

    proof fn lemma_index_injective(a: &Self, b: &Self, v: &()) {
        crate::rotation::lemma_complete(a@);
        crate::rotation::lemma_complete(b@);
        assert(a@ == b@);
        assert(a@[0] == b@[0] && a@[1] == b@[1] && a@[2] == b@[2] && a@[3] == b@[3]);
    }

    fn size(v: &()) -> usize {
        24
    }

    fn to_index(&self, v: &()) -> usize {
        self.index() as usize
    }
}

/// The mixed-radix position of an axial move: axis, then the two
/// amounts, each in base 4.
pub open spec fn am_ord(am: AxialMove) -> int {
    (axis_ord(am.axis_spec()) * 4 + am.pos_spec().as_int()) * 4 + am.neg_spec().as_int()
}

impl DpIndex for AxialMove {
    type Runtime = ();

    open spec fn spec_size(v: &()) -> int {
        48
    }

    open spec fn valid(&self, v: &()) -> bool {
        self.wf()
    }

    open spec fn spec_index(&self, v: &()) -> int {
        am_ord(*self)
    }

    proof fn lemma_index_bounds(&self, v: &()) {
    }

    proof fn lemma_index_injective(a: &Self, b: &Self, v: &()) {
    }

    fn size(v: &()) -> usize {
        48
    }

    fn to_index(&self, v: &()) -> usize {
        let a: usize = match self.axis() {
            Axis::X => 0,
            Axis::Y => 1,
            Axis::Z => 2,
        };
        (a * 4 + self.pos().val() as usize) * 4 + self.neg().val() as usize
    }
}

/// The solver's key: interval ends bounded by the shape, a rotation, and
/// an axial move, combined left to right with the rightmost part least
/// significant.
impl DpIndex for (usize, usize, Rotation, AxialMove) {
    type Runtime = (usize, usize, (), ());

    open spec fn spec_size(v: &(usize, usize, (), ())) -> int {
        v.0 as int * v.1 as int * 24 * 48
    }

    open spec fn valid(&self, v: &(usize, usize, (), ())) -> bool {
        &&& self.0 < v.0
        &&& self.1 < v.1
        &&& self.2.wf()
        &&& self.3.wf()
    }

    open spec fn spec_index(&self, v: &(usize, usize, (), ())) -> int {
        ((self.0 as int * v.1 as int + self.1 as int) * 24 + spec_index(self.2@)) * 48 + am_ord(
            self.3,
        )
    }

    proof fn lemma_index_bounds(&self, v: &(usize, usize, (), ())) {
        crate::rotation::lemma_complete(self.2@);
        let l = self.0 as int;
        let r = self.1 as int;
        let n0 = v.0 as int;
        let n1 = v.1 as int;
        let ri = spec_index(self.2@);
        let ai = am_ord(self.3);
        assert(0 <= ai < 48);
        assert(((l * n1 + r) * 24 + ri) * 48 + ai < n0 * n1 * 24 * 48) by (nonlinear_arith)
            requires
                0 <= l < n0,
                0 <= r < n1,
                0 <= ri < 24,
                0 <= ai < 48,
        ;
        assert(0 <= ((l * n1 + r) * 24 + ri) * 48 + ai) by (nonlinear_arith)
            requires
                0 <= l,
                0 <= r,
                0 <= ri,
                0 <= ai,
                0 <= n1,
        ;
    }

    proof fn lemma_index_injective(a: &Self, b: &Self, v: &(usize, usize, (), ())) {
        crate::rotation::lemma_complete(a.2@);
        crate::rotation::lemma_complete(b.2@);
        let n1 = v.1 as int;
        let qa = (a.0 as int * n1 + a.1 as int) * 24 + spec_index(a.2@);
        let qb = (b.0 as int * n1 + b.1 as int) * 24 + spec_index(b.2@);
        assert(qa == qb && am_ord(a.3) == am_ord(b.3)) by (nonlinear_arith)
            requires
                qa * 48 + am_ord(a.3) == qb * 48 + am_ord(b.3),
                0 <= am_ord(a.3) < 48,
                0 <= am_ord(b.3) < 48,
        ;
        let pa = a.0 as int * n1 + a.1 as int;
        let pb = b.0 as int * n1 + b.1 as int;
        assert(pa == pb && spec_index(a.2@) == spec_index(b.2@)) by (nonlinear_arith)
            requires
                pa * 24 + spec_index(a.2@) == pb * 24 + spec_index(b.2@),
                0 <= spec_index(a.2@) < 24,
                0 <= spec_index(b.2@) < 24,
        ;
        assert(a.0 == b.0 && a.1 == b.1) by (nonlinear_arith)
            requires
                a.0 as int * n1 + a.1 as int == b.0 as int * n1 + b.1 as int,
                0 <= (a.1 as int) < n1,
                0 <= (b.1 as int) < n1,
        ;
        assert(a.2@ == b.2@);
        assert(a.2 == b.2) by {
            assert(a.2@[0] == b.2@[0] && a.2@[1] == b.2@[1] && a.2@[2] == b.2@[2] && a.2@[3]
                == b.2@[3]);
        }
        assert(a.3 == b.3);
    }

    fn size(v: &(usize, usize, (), ())) -> usize {
        proof {
            assert(v.0 as int * v.1 as int * 24 * 48 == ((v.0 as int * v.1 as int) * 24) * 48)
                by (nonlinear_arith);
        }
        v.0 * v.1 * 24 * 48
    }

    fn to_index(&self, v: &(usize, usize, (), ())) -> usize {
        proof {
            crate::rotation::lemma_complete(self.2@);
            self.lemma_index_bounds(v);
            assert(v.0 as int * v.1 as int * 24 * 48 == ((v.0 as int * v.1 as int) * 24) * 48)
                by (nonlinear_arith);
            let l = self.0 as int;
            let r = self.1 as int;
            let n1 = v.1 as int;
            assert(l * n1 + r < v.0 as int * n1) by (nonlinear_arith)
                requires
                    0 <= l < (v.0 as int),
                    0 <= r < n1,
            ;
            assert((l * n1 + r) * 24 + spec_index(self.2@) < (v.0 as int * n1) * 24)
                by (nonlinear_arith)
                requires
                    l * n1 + r < v.0 as int * n1,
                    0 <= spec_index(self.2@) < 24,
            ;
        }
        let q = (self.0 * v.1 + self.1) * 24 + self.2.index() as usize;
        q * 48 + self.3.to_index(&())
    }
}

/// A flat array of cells addressed by a `DpIndex` key.
pub struct DpArray<T, I: DpIndex> {
    pub inner: Vec<T>,
    pub v: I::Runtime,
}

impl<T, I: DpIndex> DpArray<T, I> {
    /// The shape the array was made with.
    pub open spec fn runtime(&self) -> I::Runtime {
        self.v
    }

    pub open spec fn view_cells(&self) -> Seq<T> {
        self.inner@
    }

    /// The array holds one cell for every position of the shape.
    pub open spec fn wf(&self) -> bool {
        self.inner@.len() == I::spec_size(&self.v)
    }

    /// A reference to the cell a key addresses.
    pub fn get(&self, i: &I) -> (r: &T)
        requires
            self.wf(),
            i.valid(&self.runtime()),
            I::spec_size(&self.runtime()) <= usize::MAX as int,
        ensures
            *r == self.view_cells()[i.spec_index(&self.runtime())],
    {
        proof {
            i.lemma_index_bounds(&self.v);
        }
        let idx = i.to_index(&self.v);
        &self.inner[idx]
    }

    /// Overwrites the cell a key addresses.
    pub fn set(&mut self, i: &I, val: T)
        requires
            old(self).wf(),
            i.valid(&old(self).runtime()),
            I::spec_size(&old(self).runtime()) <= usize::MAX as int,
        ensures
            final(self).wf(),
            final(self).runtime() == old(self).runtime(),
            final(self).view_cells() == old(self).view_cells().update(
                i.spec_index(&old(self).runtime()),
                val,
            ),
    {
        proof {
            i.lemma_index_bounds(&self.v);
        }
        let idx = i.to_index(&self.v);
        self.inner.set(idx, val);
    }
}

impl<T: Copy, I: DpIndex> DpArray<T, I> {
    /// A fresh array of the given shape with every cell set to `fill`.
    pub fn new(v: I::Runtime, fill: T) -> (a: DpArray<T, I>)
        requires
            0 <= I::spec_size(&v) <= usize::MAX as int,
        ensures
            a.wf(),
            a.runtime() == v,
            forall|k: int|
                0 <= k < I::spec_size(&v) ==> a.view_cells()[k] == fill,
    {
        let n = I::size(&v);
        let mut inner: Vec<T> = Vec::new();
        while inner.len() < n
            invariant
                inner@.len() <= n,
                forall|k: int| 0 <= k < inner@.len() ==> inner@[k] == fill,
            decreases n - inner@.len(),
        {
            inner.push(fill);
        }
        DpArray { inner, v }
    }
}

} // verus!
