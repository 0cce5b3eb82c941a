//! Reading and printing single moves and axial rotations.

use vstd::prelude::*;

use crate::basic::{Axis, AxialRotation, Face, Move};
use crate::z4::Z4;

verus! {

/// The face a letter names.
pub open spec fn face_of_char(c: char) -> Option<Face> {
    if c == 'R' {
        Some(Face::R)
    } else if c == 'U' {
        Some(Face::U)
    } else if c == 'F' {
        Some(Face::F)
    } else if c == 'L' {
        Some(Face::L)
    } else if c == 'D' {
        Some(Face::D)
    } else if c == 'B' {
        Some(Face::B)
    } else {
        None
    }
}

/// The quarter-turn amount a suffix names.
pub open spec fn amount_of_char(c: char) -> Option<Z4> {
    if c == '0' {
        Some(Z4::Zero)
    } else if c == '2' {
        Some(Z4::Two)
    } else if c == '\'' {
        Some(Z4::Three)
    } else {
        None
    }
}

impl Move {
    /// Reads one move: a face letter from `RUFLDB`, optionally followed
    /// by `0`, `2` or `'`; a bare letter is one quarter turn. Anything
    /// else is refused, with `"bad face"` for the letter and
    /// `"bad amount"` for the suffix.
    pub fn from_str(s: &str) -> (res: Result<Move, &'static str>)
        ensures
            res is Ok <==> (s@.len() >= 1 && face_of_char(s@[0]) is Some && (s@.len() == 1 || (
            s@.len() == 2 && amount_of_char(s@[1]) is Some))),
            res matches Ok(m) ==> (face_of_char(s@[0]) matches Some(f) && m.face_spec() == f
                && m.by_spec() == (if s@.len() == 1 {
                Z4::One
            } else {
                amount_of_char(s@[1]).unwrap()
            })),
            res matches Err(e) ==> (if s@.len() >= 1 && face_of_char(s@[0]) is Some {
                e@ == "bad amount"@
            } else {
                e@ == "bad face"@
            }),
    {
        let n = s.unicode_len();
        if n == 0 {
            return Err("bad face");
        }
        let c0 = s.get_char(0);
        let face = if c0 == 'R' {
            Face::R
        } else if c0 == 'U' {
            Face::U
        } else if c0 == 'F' {
            Face::F
        } else if c0 == 'L' {
            Face::L
        } else if c0 == 'D' {
            Face::D
        } else if c0 == 'B' {
            Face::B
        } else {
            return Err("bad face");
        };
        if n == 1 {
            return Ok(Move::new(face, Z4::One));
        }
        if n > 2 {
            return Err("bad amount");
        }
        let c1 = s.get_char(1);
        let by = if c1 == '0' {
            Z4::Zero
        } else if c1 == '2' {
            Z4::Two
        } else if c1 == '\'' {
            Z4::Three
        } else {
            return Err("bad amount");
        };
        Ok(Move::new(face, by))
    }

    /// The move's text: the face letter and the amount suffix.
    pub open spec fn text_spec(self) -> Seq<char> {
        match (self.face_spec(), self.by_spec()) {
        (Face::R, Z4::Zero) => "R0"@,
        (Face::R, Z4::One) => "R"@,
        (Face::R, Z4::Two) => "R2"@,
        (Face::R, Z4::Three) => "R'"@,
        (Face::U, Z4::Zero) => "U0"@,
        (Face::U, Z4::One) => "U"@,
        (Face::U, Z4::Two) => "U2"@,
        (Face::U, Z4::Three) => "U'"@,
        (Face::F, Z4::Zero) => "F0"@,
        (Face::F, Z4::One) => "F"@,
        (Face::F, Z4::Two) => "F2"@,
        (Face::F, Z4::Three) => "F'"@,
        (Face::L, Z4::Zero) => "L0"@,
        (Face::L, Z4::One) => "L"@,
        (Face::L, Z4::Two) => "L2"@,
        (Face::L, Z4::Three) => "L'"@,
        (Face::D, Z4::Zero) => "D0"@,
        (Face::D, Z4::One) => "D"@,
        (Face::D, Z4::Two) => "D2"@,
        (Face::D, Z4::Three) => "D'"@,
        (Face::B, Z4::Zero) => "B0"@,
        (Face::B, Z4::One) => "B"@,
        (Face::B, Z4::Two) => "B2"@,
        (Face::B, Z4::Three) => "B'"@,
        }
    }

    pub fn to_text(self) -> (res: &'static str)
        ensures
            res@ == self.text_spec(),
    {
        match (self.face(), self.amount()) {
            (Face::R, Z4::Zero) => "R0",
            (Face::R, Z4::One) => "R",
            (Face::R, Z4::Two) => "R2",
            (Face::R, Z4::Three) => "R'",
            (Face::U, Z4::Zero) => "U0",
            (Face::U, Z4::One) => "U",
            (Face::U, Z4::Two) => "U2",
            (Face::U, Z4::Three) => "U'",
            (Face::F, Z4::Zero) => "F0",
            (Face::F, Z4::One) => "F",
            (Face::F, Z4::Two) => "F2",
            (Face::F, Z4::Three) => "F'",
            (Face::L, Z4::Zero) => "L0",
            (Face::L, Z4::One) => "L",
            (Face::L, Z4::Two) => "L2",
            (Face::L, Z4::Three) => "L'",
            (Face::D, Z4::Zero) => "D0",
            (Face::D, Z4::One) => "D",
            (Face::D, Z4::Two) => "D2",
            (Face::D, Z4::Three) => "D'",
            (Face::B, Z4::Zero) => "B0",
            (Face::B, Z4::One) => "B",
            (Face::B, Z4::Two) => "B2",
            (Face::B, Z4::Three) => "B'",
        }
    }
}

impl AxialRotation {
    /// The rotation's text: the lower-case axis letter and the amount
    /// suffix.
    pub open spec fn text_spec(self) -> Seq<char> {
        match (self.axis_spec(), self.by_spec()) {
        (Axis::X, Z4::Zero) => "x0"@,
        (Axis::X, Z4::One) => "x"@,
        (Axis::X, Z4::Two) => "x2"@,
        (Axis::X, Z4::Three) => "x'"@,
        (Axis::Y, Z4::Zero) => "y0"@,
        (Axis::Y, Z4::One) => "y"@,
        (Axis::Y, Z4::Two) => "y2"@,
        (Axis::Y, Z4::Three) => "y'"@,
        (Axis::Z, Z4::Zero) => "z0"@,
        (Axis::Z, Z4::One) => "z"@,
        (Axis::Z, Z4::Two) => "z2"@,
        (Axis::Z, Z4::Three) => "z'"@,
        }
    }

    pub fn to_text(self) -> (res: &'static str)
        ensures
            res@ == self.text_spec(),
    {
        match (self.axis(), self.amount()) {
            (Axis::X, Z4::Zero) => "x0",
            (Axis::X, Z4::One) => "x",
            (Axis::X, Z4::Two) => "x2",
            (Axis::X, Z4::Three) => "x'",
            (Axis::Y, Z4::Zero) => "y0",
            (Axis::Y, Z4::One) => "y",
            (Axis::Y, Z4::Two) => "y2",
            (Axis::Y, Z4::Three) => "y'",
            (Axis::Z, Z4::Zero) => "z0",
            (Axis::Z, Z4::One) => "z",
            (Axis::Z, Z4::Two) => "z2",
            (Axis::Z, Z4::Three) => "z'",
        }
    }
}

} // verus!
