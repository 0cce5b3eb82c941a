use rkt_solver::{Axis, AxialMove, AxialRotation, Face, Move, Rotation, Z4};

#[test]
fn z4_group_laws() {
    let all = [Z4::Zero, Z4::One, Z4::Two, Z4::Three];
    for &a in all.iter() {
        assert_eq!(a.add(a.neg()), Z4::Zero);
        assert_eq!(a.add(Z4::Zero), a);
        for &b in all.iter() {
            assert_eq!(a.add(b), b.add(a));
            for &c in all.iter() {
                assert_eq!(a.add(b).add(c), a.add(b.add(c)));
            }
        }
    }
    assert_eq!(Z4::One.neg(), Z4::Three);
    assert_eq!(Z4::Two.neg(), Z4::Two);
    assert_eq!(Z4::from_val(7), Z4::Three);
    assert_eq!(Z4::Three.sub(Z4::One), Z4::Two);
}

#[test]
fn face_opposite_laws() {
    let faces = [Face::R, Face::U, Face::F, Face::L, Face::D, Face::B];
    for &f in faces.iter() {
        assert_eq!(f.opposite().opposite(), f);
        assert_eq!(f.opposite().axis(), f.axis());
        assert_eq!(f.opposite().neg(), !f.neg());
        assert!(f.is_opposite(f.opposite()));
        assert!(f.is_coaxial(f.opposite()));
        assert!(!f.is_opposite(f));
    }
    assert_eq!(Face::R.opposite(), Face::L);
    assert_eq!(Face::U.axis(), Axis::Y);
    assert_eq!(Axis::Z.pos_face(), Face::F);
    assert_eq!(Axis::Z.neg_face(), Face::B);
}

#[test]
fn rotation_group_order_24() {
    let all = Rotation::all();
    assert_eq!(all.len(), 24);
    for i in 0..24 {
        for j in 0..24 {
            if i != j {
                assert!(all[i] != all[j]);
            }
        }
    }
    for i in 0..24 {
        assert_eq!(all[i].index() as usize, i);
    }
}

#[test]
fn rotation_group_laws() {
    let all = Rotation::all();
    let id = Rotation::id();
    for &r in all.iter() {
        assert_eq!(r.mul(id), r);
        assert_eq!(id.mul(r), r);
        assert_eq!(r.mul(r.inv()), id);
        assert_eq!(r.inv().mul(r), id);
    }
    for &a in all.iter() {
        for &b in all.iter() {
            for &c in all.iter().take(5) {
                assert_eq!(a.mul(b).mul(c), a.mul(b.mul(c)));
            }
        }
    }
    // the group is not commutative
    assert!(all[0].mul(all[6]) != all[6].mul(all[0]));
}

#[test]
fn rotation_acts_on_faces() {
    let all = Rotation::all();
    let id = Rotation::id();
    let faces = [Face::R, Face::U, Face::F, Face::L, Face::D, Face::B];
    for &f in faces.iter() {
        assert_eq!(id.apply(f), f);
    }
    // composition order: acting by a then by b is acting by a.mul(b)
    for &a in all.iter() {
        for &b in all.iter() {
            for &f in faces.iter() {
                assert_eq!(a.mul(b).apply(f), b.apply(a.apply(f)));
            }
        }
    }
}

#[test]
fn rotation_respects_opposites() {
    let all = Rotation::all();
    let faces = [Face::R, Face::U, Face::F, Face::L, Face::D, Face::B];
    for &r in all.iter() {
        for &f in faces.iter() {
            assert_eq!(r.apply(f.opposite()), r.apply(f).opposite());
        }
    }
}

#[test]
fn axial_move_laws() {
    let zero = AxialMove::zero();
    let a = AxialMove::new(Axis::X, Z4::One, Z4::Two);
    let b = AxialMove::new(Axis::X, Z4::Three, Z4::Three);
    assert_eq!(a.add(zero), Some(a));
    assert_eq!(zero.add(a), Some(a));
    assert_eq!(a.add(b), b.add(a));
    assert_eq!(a.add(a.inv()), Some(zero));
    assert_eq!(a.inv().inv(), a);
    let c = AxialMove::new(Axis::Y, Z4::One, Z4::Zero);
    assert_eq!(a.add(c), None);
    // the zero pair is normalised to the X axis
    assert_eq!(AxialMove::new(Axis::Y, Z4::Zero, Z4::Zero), zero);
}

#[test]
fn axial_move_from_moves() {
    let r = Move::new(Face::R, Z4::One);
    let l = Move::new(Face::L, Z4::Two);
    let am = AxialMove::from_moves(r, l).unwrap();
    assert_eq!(am.axis(), Axis::X);
    assert_eq!(am.pos(), Z4::One);
    assert_eq!(am.neg(), Z4::Two);
    let u = Move::new(Face::U, Z4::One);
    assert!(AxialMove::from_moves(r, u).is_none());
    let (mp, mn) = am.moves();
    assert_eq!(mp, r);
    assert_eq!(mn, l);
}

#[test]
fn lift_commutes_with_rotation() {
    let all = Rotation::all();
    let faces = [Face::R, Face::U, Face::F, Face::L, Face::D, Face::B];
    let amounts = [Z4::Zero, Z4::One, Z4::Two, Z4::Three];
    for &rot in all.iter() {
        for &f in faces.iter() {
            for &b in amounts.iter() {
                let m = Move::new(f, b);
                assert_eq!(AxialMove::from_move(m).mul(rot), AxialMove::from_move(m.mul(rot)));
            }
        }
    }
}

#[test]
fn to_axials_composes_back() {
    let all = Rotation::all();
    let id = Rotation::id();
    for &r in all.iter() {
        let parts = r.to_axials();
        assert!(parts.len() <= 2);
        let mut acc = id;
        for ar in parts.iter() {
            assert!(ar.amount() != Z4::Zero);
            acc = acc.mul(Rotation::axial(ar.axis(), ar.amount()));
        }
        assert_eq!(acc, r);
        if r == id {
            assert_eq!(parts.len(), 0);
        }
    }
}

#[test]
fn axial_rotations_rotate_about_their_axis() {
    // a quarter rotation about X fixes the R face and has order 4
    let x = Rotation::axial(Axis::X, Z4::One);
    assert_eq!(x.apply(Face::R), Face::R);
    assert_eq!(x.mul(x).mul(x).mul(x), Rotation::id());
    assert_eq!(Rotation::axial(Axis::X, Z4::Zero), Rotation::id());
}
