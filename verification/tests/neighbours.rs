use spatial::position::Pos;

#[test]
fn crosses_come_north_south_east_west() {
    let sut = Pos { x: 10i32, y: 20i32 }.crosses(3);
    assert_eq!(
        sut,
        [Pos { x: 10, y: 23 }, Pos { x: 10, y: 17 }, Pos { x: 13, y: 20 }, Pos { x: 7, y: 20 }]
    );
}

#[test]
fn crosses_wrap_at_near_maximum_distance() {
    let sut = Pos { x: 1u32, y: 2u32 }.crosses(u32::MAX);
    assert_eq!(
        sut,
        [Pos { x: 1, y: 1 }, Pos { x: 1, y: 3 }, Pos { x: 0, y: 2 }, Pos { x: 2, y: 2 }]
    );

    let sut = Pos { x: i8::MAX, y: i8::MIN }.crosses(i8::MAX);
    assert_eq!(
        sut,
        [
            Pos { x: i8::MAX, y: -1 },
            Pos { x: i8::MAX, y: 1 },
            Pos { x: -2, y: i8::MIN },
            Pos { x: 0, y: i8::MIN },
        ]
    );
}

#[test]
fn crosses_at_distance_zero_are_the_point_itself() {
    let p = Pos { x: -4i16, y: 9i16 };
    assert_eq!(p.crosses(0), [p, p, p, p]);
}

#[test]
fn diagonals_come_in_their_fixed_order() {
    let sut = Pos { x: 10i32, y: 20i32 }.diagonals(3);
    assert_eq!(
        sut,
        [Pos { x: 13, y: 23 }, Pos { x: 7, y: 23 }, Pos { x: 13, y: 17 }, Pos { x: 7, y: 17 }]
    );
}

#[test]
fn diagonals_wrap_at_near_maximum_distance() {
    let sut = Pos { x: 1u32, y: 2u32 }.diagonals(u32::MAX);
    assert_eq!(
        sut,
        [Pos { x: 0, y: 1 }, Pos { x: 2, y: 1 }, Pos { x: 0, y: 3 }, Pos { x: 2, y: 3 }]
    );

    let sut = Pos { x: i8::MAX, y: i8::MIN }.diagonals(i8::MIN);
    assert_eq!(
        sut,
        [Pos { x: -1, y: 0 }, Pos { x: -1, y: 0 }, Pos { x: -1, y: 0 }, Pos { x: -1, y: 0 }]
    );
}

#[test]
fn neighbours_are_sums_and_differences() {
    let d: i8 = 100;
    for x in i8::MIN..=i8::MAX {
        let p = Pos { x, y: x.wrapping_mul(3) };
        let up = Pos { x: 0, y: d };
        let right = Pos { x: d, y: 0 };
        assert_eq!(p.crosses(d), [p + up, p - up, p + right, p - right]);
        let both = Pos { x: d, y: d };
        let anti = Pos { x: d.wrapping_neg(), y: d };
        assert_eq!(p.diagonals(d), [p + both, p + anti, p - anti, p - both]);
    }
}
