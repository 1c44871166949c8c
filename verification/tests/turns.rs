use spatial::position::Pos;

#[test]
fn four_quarter_turns_return_to_the_point() {
    for x in i8::MIN..=i8::MAX {
        for y in i8::MIN..=i8::MAX {
            let p = Pos { x, y };
            assert_eq!(p.clockwise().clockwise().clockwise().clockwise(), p);
            assert_eq!(
                p.counterclockwise().counterclockwise().counterclockwise().counterclockwise(),
                p
            );
        }
    }
}

#[test]
fn four_quarter_turns_return_to_the_point_at_the_extremes() {
    let p = Pos { x: i64::MIN, y: i64::MAX };
    assert_eq!(p.clockwise(), Pos { x: i64::MAX, y: i64::MIN });
    assert_eq!(p.clockwise().clockwise(), Pos { x: i64::MIN, y: i64::MIN + 1 });
    assert_eq!(p.clockwise().clockwise().clockwise(), Pos { x: i64::MIN + 1, y: i64::MIN });
    assert_eq!(p.clockwise().clockwise().clockwise().clockwise(), p);

    let q = Pos { x: 1u16, y: u16::MAX };
    assert_eq!(q.clockwise(), Pos { x: u16::MAX, y: u16::MAX });
    assert_eq!(q.clockwise().clockwise().clockwise().clockwise(), q);
}

#[test]
fn quarter_turns_undo_each_other() {
    for x in u8::MIN..=u8::MAX {
        for y in u8::MIN..=u8::MAX {
            let p = Pos { x, y };
            assert_eq!(p.clockwise().counterclockwise(), p);
            assert_eq!(p.counterclockwise().clockwise(), p);
        }
    }
    let p = Pos { x: i32::MIN, y: -7 };
    assert_eq!(p.clockwise().counterclockwise(), p);
    assert_eq!(p.counterclockwise().clockwise(), p);
}

#[test]
fn quarter_turns_of_the_unit_steps() {
    let north = Pos { x: 0i8, y: -1i8 };
    let east = Pos { x: 1i8, y: 0i8 };
    let south = Pos { x: 0i8, y: 1i8 };
    let west = Pos { x: -1i8, y: 0i8 };
    assert_eq!(east.clockwise(), north);
    assert_eq!(north.clockwise(), west);
    assert_eq!(west.clockwise(), south);
    assert_eq!(south.clockwise(), east);
    assert_eq!(east.counterclockwise(), south);
    assert_eq!(south.counterclockwise(), west);
    assert_eq!(west.counterclockwise(), north);
    assert_eq!(north.counterclockwise(), east);
}

#[test]
fn a_turn_negates_with_wraparound() {
    assert_eq!(Pos { x: i8::MIN, y: 3i8 }.clockwise(), Pos { x: 3, y: i8::MIN });
    assert_eq!(Pos { x: 3i8, y: i8::MIN }.counterclockwise(), Pos { x: i8::MIN, y: 3 });
    assert_eq!(Pos { x: 1u8, y: 0u8 }.clockwise(), Pos { x: 0, y: 255 });
    assert_eq!(Pos { x: 0u8, y: 2u8 }.counterclockwise(), Pos { x: 254, y: 0 });
}
