use rkt_solver::{Axis, AxialRotation, Face, Move, Z4};

#[test]
fn parse_moves() {
    assert_eq!(Move::from_str("R"), Ok(Move::new(Face::R, Z4::One)));
    assert_eq!(Move::from_str("U2"), Ok(Move::new(Face::U, Z4::Two)));
    assert_eq!(Move::from_str("F'"), Ok(Move::new(Face::F, Z4::Three)));
    assert_eq!(Move::from_str("B0"), Ok(Move::new(Face::B, Z4::Zero)));
    assert_eq!(Move::from_str("X"), Err("bad face"));
    assert_eq!(Move::from_str(""), Err("bad face"));
    assert_eq!(Move::from_str("R3"), Err("bad amount"));
    assert_eq!(Move::from_str("R22"), Err("bad amount"));
}

#[test]
fn format_moves() {
    assert_eq!(Move::new(Face::R, Z4::One).to_text(), "R");
    assert_eq!(Move::new(Face::U, Z4::Two).to_text(), "U2");
    assert_eq!(Move::new(Face::F, Z4::Three).to_text(), "F'");
    assert_eq!(Move::new(Face::D, Z4::Zero).to_text(), "D0");
}

#[test]
fn format_axial_rotations() {
    assert_eq!(AxialRotation::new(Axis::X, Z4::One).to_text(), "x");
    assert_eq!(AxialRotation::new(Axis::Y, Z4::Two).to_text(), "y2");
    assert_eq!(AxialRotation::new(Axis::Z, Z4::Three).to_text(), "z'");
}

#[test]
fn parse_round_trips_through_format() {
    for f in [Face::R, Face::U, Face::F, Face::L, Face::D, Face::B] {
        for b in [Z4::Zero, Z4::One, Z4::Two, Z4::Three] {
            let m = Move::new(f, b);
            assert_eq!(Move::from_str(m.to_text()), Ok(m));
        }
    }
}
