use rkt_solver::{solve, AxialMove, Face, Move, MoveOrRot, Rotation, Z4};

// An independent corner-state check: the 24 corner stickers are numbered
// by the geometric layout, and each face's quarter turn is a fixed
// permutation of them. A program's net effect is the composition of its
// moves' permutations, after rotations have been folded into relabelled
// faces.
const TURNS: [[usize; 24]; 6] = [
    [0, 1, 2, 3, 4, 5, 6, 7, 8, 9, 10, 11, 15, 17, 16, 21, 23, 22, 12, 14, 13, 18, 20, 19],
    [0, 1, 2, 3, 4, 5, 20, 19, 18, 8, 7, 6, 12, 13, 14, 15, 16, 17, 23, 22, 21, 11, 10, 9],
    [0, 1, 2, 10, 9, 11, 6, 7, 8, 22, 21, 23, 12, 13, 14, 4, 3, 5, 18, 19, 20, 16, 15, 17],
    [6, 8, 7, 0, 2, 1, 9, 11, 10, 3, 5, 4, 12, 13, 14, 15, 16, 17, 18, 19, 20, 21, 22, 23],
    [5, 4, 3, 17, 16, 15, 6, 7, 8, 9, 10, 11, 2, 1, 0, 14, 13, 12, 18, 19, 20, 21, 22, 23],
    [13, 12, 14, 3, 4, 5, 1, 0, 2, 9, 10, 11, 19, 18, 20, 15, 16, 17, 7, 6, 8, 21, 22, 23],
];

fn face_ord(f: Face) -> usize {
    match f {
        Face::R => 0,
        Face::U => 1,
        Face::F => 2,
        Face::L => 3,
        Face::D => 4,
        Face::B => 5,
    }
}

fn net_of_moves(moves: &[Move]) -> [usize; 24] {
    let mut acc = [0usize; 24];
    for i in 0..24 {
        acc[i] = i;
    }
    for m in moves {
        let b = m.amount().val();
        for _ in 0..b {
            let t = TURNS[face_ord(m.face())];
            let mut next = [0usize; 24];
            for i in 0..24 {
                next[t[acc[i]]] = i;
            }
            // compose: content moves along the turn permutation
            let mut out = [0usize; 24];
            for i in 0..24 {
                out[t[i]] = acc[i];
            }
            acc = out;
        }
    }
    acc
}

// Flattens a program: each move is relabelled by the rotations emitted
// before it, and the trailing orientation is dropped.
fn flatten(prog: &[MoveOrRot]) -> (Vec<Move>, Rotation) {
    let mut o = Rotation::id();
    let mut out = Vec::new();
    for e in prog {
        match e {
            MoveOrRot::Rot(s) => {
                o = o.mul(*s);
            }
            MoveOrRot::Move(m) => {
                if m.amount() != Z4::Zero {
                    out.push(Move::new(o.inv().apply(m.face()), m.amount()));
                }
            }
        }
    }
    (out, o)
}

fn cost(prog: &[MoveOrRot]) -> usize {
    let mut c = 0;
    for e in prog {
        match e {
            MoveOrRot::Move(m) => {
                if m.amount() != Z4::Zero {
                    c += 1;
                }
            }
            MoveOrRot::Rot(r) => {
                if *r != Rotation::id() {
                    c += 1;
                }
            }
        }
    }
    c
}

fn check_equivalent(alg: &[Move], prog: &[MoveOrRot]) {
    let (flat, o_end) = flatten(prog);
    // the emitted rotations multiply out to the identity
    assert_eq!(o_end, Rotation::id());
    assert_eq!(net_of_moves(&flat), net_of_moves(alg));
}

fn m(f: Face, b: Z4) -> Move {
    Move::new(f, b)
}

#[test]
fn simulator_sanity() {
    // R applied four times is the identity; R and L commute
    let r = m(Face::R, Z4::One);
    let id = net_of_moves(&[]);
    assert_eq!(net_of_moves(&[r, r, r, r]), id);
    let l = m(Face::L, Z4::One);
    assert_eq!(net_of_moves(&[r, l]), net_of_moves(&[l, r]));
    assert_ne!(net_of_moves(&[r]), id);
}

#[test]
fn solve_empty() {
    let out = solve(&vec![]).unwrap();
    assert_eq!(out.len(), 0);
}

#[test]
fn solve_single_move() {
    let alg = vec![m(Face::R, Z4::One)];
    let out = solve(&alg).unwrap();
    assert_eq!(out, vec![MoveOrRot::Move(m(Face::R, Z4::One))]);
    assert_eq!(cost(&out), 1);
    check_equivalent(&alg, &out);
}

#[test]
fn solve_cancelling_pair() {
    let alg = vec![m(Face::R, Z4::One), m(Face::R, Z4::Three)];
    let out = solve(&alg).unwrap();
    assert_eq!(cost(&out), 0);
    check_equivalent(&alg, &out);
    assert_eq!(out.len(), 0);
}

#[test]
fn solve_fuses_axes() {
    let alg = vec![m(Face::R, Z4::One), m(Face::L, Z4::One)];
    let out = solve(&alg).unwrap();
    assert_eq!(cost(&out), 2);
    // the two turns come out adjacent, as one axial pack on X
    assert_eq!(
        out,
        vec![
            MoveOrRot::Move(m(Face::R, Z4::One)),
            MoveOrRot::Move(m(Face::L, Z4::One)),
        ]
    );
    check_equivalent(&alg, &out);
}

#[test]
fn solve_commutator() {
    let alg = vec![
        m(Face::R, Z4::One),
        m(Face::U, Z4::One),
        m(Face::R, Z4::Three),
        m(Face::U, Z4::Three),
    ];
    let out = solve(&alg).unwrap();
    assert!(cost(&out) <= 4);
    check_equivalent(&alg, &out);
}

#[test]
fn solve_cost_never_exceeds_input() {
    let cases: Vec<Vec<Move>> = vec![
        vec![m(Face::B, Z4::Two), m(Face::B, Z4::Three), m(Face::U, Z4::One)],
        vec![m(Face::U, Z4::One), m(Face::D, Z4::Two), m(Face::R, Z4::Three)],
        vec![m(Face::F, Z4::One), m(Face::F, Z4::One)],
    ];
    for alg in cases {
        let out = solve(&alg).unwrap();
        assert!(cost(&out) <= alg.len());
        check_equivalent(&alg, &out);
    }
}

#[test]
fn solve_accepts_identity_amount_moves() {
    // explicit zero-amount turns cost nothing and drop out
    let alg = vec![m(Face::R, Z4::Zero), m(Face::U, Z4::One), m(Face::L, Z4::Zero)];
    let out = solve(&alg).unwrap();
    assert_eq!(cost(&out), 1);
    check_equivalent(&alg, &out);
    let alone = solve(&vec![m(Face::F, Z4::Zero)]).unwrap();
    assert_eq!(cost(&alone), 0);
    check_equivalent(&vec![m(Face::F, Z4::Zero)], &alone);
}

#[test]
fn solve_is_idempotent_on_flat_outputs() {
    let cases: Vec<Vec<Move>> = vec![
        vec![m(Face::R, Z4::One), m(Face::R, Z4::Three)],
        vec![m(Face::R, Z4::One), m(Face::L, Z4::One)],
        vec![
            m(Face::R, Z4::One),
            m(Face::U, Z4::One),
            m(Face::R, Z4::Three),
            m(Face::U, Z4::Three),
        ],
    ];
    for alg in cases {
        let out = solve(&alg).unwrap();
        let (flat, _) = flatten(&out);
        let again = solve(&flat).unwrap();
        assert_eq!(cost(&again), cost(&out));
    }
}
