use spatial::decimal::{push_digits, signed_decimal, unsigned_decimal};
use spatial::position::Pos;
use spatial::wrapping::WrappingInt;

#[test]
fn digits_of_small_numbers() {
    assert_eq!(unsigned_decimal(0), "0");
    assert_eq!(unsigned_decimal(7), "7");
    assert_eq!(unsigned_decimal(9), "9");
    assert_eq!(unsigned_decimal(10), "10");
    assert_eq!(unsigned_decimal(99), "99");
    assert_eq!(unsigned_decimal(100), "100");
    assert_eq!(unsigned_decimal(1_234_567_890), "1234567890");
}

#[test]
fn digits_of_the_largest_number() {
    assert_eq!(unsigned_decimal(u128::MAX), "340282366920938463463374607431768211455");
}

#[test]
fn signed_numbers_carry_a_minus_sign_only_below_zero() {
    assert_eq!(signed_decimal(0), "0");
    assert_eq!(signed_decimal(5), "5");
    assert_eq!(signed_decimal(-5), "-5");
    assert_eq!(signed_decimal(-10), "-10");
    assert_eq!(signed_decimal(1_000), "1000");
    assert_eq!(signed_decimal(i128::MAX), "170141183460469231731687303715884105727");
    assert_eq!(signed_decimal(i128::MIN), "-170141183460469231731687303715884105728");
}

#[test]
fn digits_are_appended_to_what_is_there() {
    let mut out = String::from("n = ");
    push_digits(&mut out, 4_096);
    assert_eq!(out, "n = 4096");
    push_digits(&mut out, 0);
    assert_eq!(out, "n = 40960");
}

#[test]
fn decimal_of_every_i8_and_u8() {
    for v in i8::MIN..=i8::MAX {
        assert_eq!(v.to_decimal(), format!("{}", v));
        assert_eq!(signed_decimal(v.into()), format!("{}", v));
    }
    for v in u8::MIN..=u8::MAX {
        assert_eq!(v.to_decimal(), format!("{}", v));
        assert_eq!(unsigned_decimal(v.into()), format!("{}", v));
    }
}

#[test]
fn decimal_at_the_bounds_of_each_type() {
    assert_eq!(i16::MIN.to_decimal(), "-32768");
    assert_eq!(i16::MAX.to_decimal(), "32767");
    assert_eq!(u16::MAX.to_decimal(), "65535");
    assert_eq!(i32::MIN.to_decimal(), "-2147483648");
    assert_eq!(i32::MAX.to_decimal(), "2147483647");
    assert_eq!(u32::MAX.to_decimal(), "4294967295");
    assert_eq!(i64::MIN.to_decimal(), "-9223372036854775808");
    assert_eq!(i64::MAX.to_decimal(), "9223372036854775807");
    assert_eq!(u64::MAX.to_decimal(), "18446744073709551615");
    assert_eq!(i128::MIN.to_decimal(), "-170141183460469231731687303715884105728");
    assert_eq!(u128::MAX.to_decimal(), "340282366920938463463374607431768211455");
    assert_eq!(isize::MIN.to_decimal(), format!("{}", isize::MIN));
    assert_eq!(usize::MAX.to_decimal(), format!("{}", usize::MAX));
}

#[test]
fn point_as_text() {
    assert_eq!(Pos { x: 0u8, y: 0u8 }.to_string(), "(0, 0)");
    assert_eq!(Pos { x: -1i8, y: 1i8 }.to_string(), "(-1, 1)");
    assert_eq!(Pos { x: 10i64, y: -200i64 }.to_string(), "(10, -200)");
    assert_eq!(Pos { x: i32::MIN, y: i32::MAX }.to_string(), "(-2147483648, 2147483647)");
    assert_eq!(Pos { x: u64::MAX, y: 1u64 }.to_string(), "(18446744073709551615, 1)");
}
