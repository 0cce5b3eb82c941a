//! The cyclic group of quarter-turn amounts: integers mod 4 under addition.

use vstd::prelude::*;

verus! {

/// A quarter-turn amount: 0, 1, 2 or 3 quarter turns.
#[derive(Debug, Clone, Copy, PartialEq, Eq, Structural)]
pub enum Z4 {
    Zero,
    One,
    Two,
    Three,
}

impl Z4 {
    /// The amount as an integer in 0..4.
    pub open spec fn as_int(self) -> int {
        match self {
            Z4::Zero => 0,
            Z4::One => 1,
            Z4::Two => 2,
            Z4::Three => 3,
        }
    }

    pub fn val(self) -> (v: u8)
        ensures
            v as int == self.as_int(),
    {
        match self {
            Z4::Zero => 0,
            Z4::One => 1,
            Z4::Two => 2,
            Z4::Three => 3,
        }
    }

    /// The amount denoted by an arbitrary byte, read mod 4.
    pub fn from_val(val: u8) -> (z: Z4)
        ensures
            z.as_int() == val as int % 4,
    {
        match val % 4 {
            0 => Z4::Zero,
            1 => Z4::One,
            2 => Z4::Two,
            _ => Z4::Three,
        }
    }

    /// The inverse amount: turning by `neg()` undoes turning by `self`.
    pub fn neg(self) -> (z: Z4)
        ensures
            z.as_int() == (4 - self.as_int()) % 4,
    {
        match self {
            Z4::Zero => Z4::Zero,
            Z4::One => Z4::Three,
            Z4::Two => Z4::Two,
            Z4::Three => Z4::One,
        }
    }

    pub fn add(self, rhs: Z4) -> (z: Z4)
        ensures
            z.as_int() == (self.as_int() + rhs.as_int()) % 4,
    {
        Z4::from_val(self.val() + rhs.val())
    }

    pub fn sub(self, rhs: Z4) -> (z: Z4)
        ensures
            z.as_int() == (4 + self.as_int() - rhs.as_int()) % 4,
    {
        self.add(rhs.neg())
    }

    /// The four amounts in order.
    pub fn all() -> (v: Vec<Z4>)
        ensures
            v@ =~= seq![Z4::Zero, Z4::One, Z4::Two, Z4::Three],
    {
        let mut v: Vec<Z4> = Vec::new();
        v.push(Z4::Zero);
        v.push(Z4::One);
        v.push(Z4::Two);
        v.push(Z4::Three);
        v
    }
}

/// Two amounts are equal exactly when their integer values are.
pub proof fn lemma_z4_as_int_injective(a: Z4, b: Z4)
    ensures
        a == b <==> a.as_int() == b.as_int(),
{
}

/// Z4 is an abelian group: adding an inverse yields zero, addition
/// commutes, and addition associates. The statements are over `as_int`,
/// which the contracts of `add`, `neg` and `sub` speak in.
pub proof fn lemma_z4_group(a: Z4, b: Z4, c: Z4)
    ensures
        (a.as_int() + ((4 - a.as_int()) % 4)) % 4 == 0,
        (a.as_int() + b.as_int()) % 4 == (b.as_int() + a.as_int()) % 4,
        (((a.as_int() + b.as_int()) % 4) + c.as_int()) % 4 == (a.as_int() + ((b.as_int()
            + c.as_int()) % 4)) % 4,
        (a.as_int() + 0) % 4 == a.as_int(),
{
}

} // verus!
