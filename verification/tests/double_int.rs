use double_int::{DoubleInt, OutOfRange, MAX, MIN, UMAX};

#[test]
fn try_from_in_range_keeps_value() {
    for v in [0i64, 1, -1, 42, -42, 1_000_000_007, MIN, MAX, MIN + 1, MAX - 1] {
        let d = DoubleInt::try_from_i64(v).unwrap();
        assert_eq!(d.as_i64(), v);
    }
}

#[test]
fn try_from_boundaries() {
    assert_eq!(DoubleInt::try_from_i64(9007199254740991).unwrap().as_i64(), MAX);
    assert_eq!(DoubleInt::try_from_i64(-9007199254740991).unwrap().as_i64(), MIN);
    assert!(DoubleInt::try_from_i64(9007199254740992).is_err());
    assert!(DoubleInt::try_from_i64(-9007199254740992).is_err());
}

#[test]
fn try_from_too_large() {
    let err = DoubleInt::try_from_i64(MAX + 1).unwrap_err();
    assert_eq!(err, OutOfRange::TooLarge { value: MAX + 1 });
    assert_eq!(err.value(), MAX + 1);

    let err = DoubleInt::try_from_i64(i64::MAX).unwrap_err();
    assert_eq!(err, OutOfRange::TooLarge { value: i64::MAX });
}

#[test]
fn try_from_too_small() {
    let err = DoubleInt::try_from_i64(MIN - 1).unwrap_err();
    assert_eq!(err, OutOfRange::TooSmall { value: MIN - 1 });
    assert_eq!(err.value(), MIN - 1);

    let err = DoubleInt::try_from_i64(i64::MIN).unwrap_err();
    assert_eq!(err, OutOfRange::TooSmall { value: i64::MIN });
}

#[test]
fn decode_concrete_values() {
    assert_eq!(DoubleInt::try_from_i64(42).unwrap().as_i64(), 42);
    assert_eq!(DoubleInt::try_from_i64(-42).unwrap().as_i64(), -42);

    // 2^55 exceeds MAX and must be rejected even though an i64 holds it.
    let err = DoubleInt::try_from_i64(36028797018963968).unwrap_err();
    assert_eq!(err, OutOfRange::TooLarge { value: 36028797018963968 });
}

#[test]
fn error_messages() {
    let err = DoubleInt::try_from_i64(MIN - 1).unwrap_err();
    assert_eq!(
        err.expected_message(),
        "integer larger than -9007199254740991 / -(2^53) + 1",
    );

    let err = DoubleInt::try_from_i64(MAX + 1).unwrap_err();
    assert_eq!(
        err.expected_message(),
        "integer smaller than 9007199254740991 / (2^53) - 1",
    );
}

#[test]
fn from_narrow_unsigned() {
    assert_eq!(DoubleInt::from(0u8).as_i64(), 0);
    assert_eq!(DoubleInt::from(u8::MAX).as_i64(), 255);
    assert_eq!(DoubleInt::from(u16::MAX).as_i64(), 65535);
    assert_eq!(DoubleInt::from(u32::MAX).as_i64(), 4294967295);

    assert!(DoubleInt::from(200u8) == 200u8);
    assert!(DoubleInt::from(60000u16) == 60000u16);
    assert!(DoubleInt::from(4000000000u32) == 4000000000u32);
}

#[test]
fn from_narrow_signed() {
    assert_eq!(DoubleInt::from(i8::MIN).as_i64(), -128);
    assert_eq!(DoubleInt::from(i8::MAX).as_i64(), 127);
    assert_eq!(DoubleInt::from(i16::MIN).as_i64(), -32768);
    assert_eq!(DoubleInt::from(i32::MIN).as_i64(), -2147483648);
    assert_eq!(DoubleInt::from(i32::MAX).as_i64(), 2147483647);

    assert!(DoubleInt::from(-100i8) == -100i8);
    assert!(DoubleInt::from(-30000i16) == -30000i16);
    assert!(DoubleInt::from(-2000000000i32) == -2000000000i32);
}

#[test]
fn round_trip() {
    for v in [0i64, 42, -42, 1, -1, MIN, MAX, 123456789012345] {
        let d = DoubleInt::try_from_i64(v).unwrap();
        let e = DoubleInt::try_from_i64(d.as_i64()).unwrap();
        assert_eq!(e, d);
        assert_eq!(e.as_i64(), v);
    }
}

#[test]
fn eq_narrow_types() {
    let d = DoubleInt::try_from_i64(42).unwrap();
    assert!(d == 42u8);
    assert!(d == 42u16);
    assert!(d == 42u32);
    assert!(d == 42i8);
    assert!(d == 42i16);
    assert!(d == 42i32);
    assert!(d != 43u8);
    assert!(d != 41i32);

    let n = DoubleInt::try_from_i64(-42).unwrap();
    assert!(n == -42i8);
    assert!(n == -42i16);
    assert!(n == -42i32);
    assert!(n != 42u8);
}

#[test]
fn eq_wide_types() {
    let d = DoubleInt::try_from_i64(5).unwrap();
    assert!(d == 5u64);
    assert!(d == 5u128);
    assert!(d == 5i64);
    assert!(d == 5i128);
    assert!(d != u64::MAX);
    assert!(d != u128::MAX);
    assert!(d != i64::MAX);
    assert!(d != i128::MAX);
    assert!(d != i128::MIN);

    let n = DoubleInt::try_from_i64(-5).unwrap();
    assert!(n == -5i64);
    assert!(n == -5i128);
    assert!(n != 5u64);
}

#[test]
fn eq_wide_boundaries() {
    // The largest storable value must compare equal to its unsigned form.
    let top = DoubleInt::try_from_i64(MAX).unwrap();
    assert!(top == UMAX);
    assert!(top == UMAX as u128);
    assert!(top == MAX as i128);
    assert!(top != UMAX + 1);

    let bottom = DoubleInt::try_from_i64(MIN).unwrap();
    assert!(bottom == MIN as i128);
    assert!(bottom != (MIN as i128) - 1);
}

#[test]
fn eq_guards_against_wraparound() {
    // 2^64 truncates to 0 in a 64-bit cast; the range guard must reject
    // the comparison instead of letting the truncated value match.
    let zero = DoubleInt::try_from_i64(0).unwrap();
    assert!(zero != 18446744073709551616u128);
    assert!(zero != 18446744073709551616i128);
    assert!(zero != -18446744073709551616i128);
    assert!(zero == 0u128);
    assert!(zero == 0i128);
}

#[test]
fn eq_symmetric() {
    let d = DoubleInt::try_from_i64(42).unwrap();
    assert!(42u8 == d);
    assert!(42u16 == d);
    assert!(42u32 == d);
    assert!(42u64 == d);
    assert!(42u128 == d);
    assert!(42i8 == d);
    assert!(42i16 == d);
    assert!(42i32 == d);
    assert!(42i64 == d);
    assert!(42i128 == d);
    assert!(u64::MAX != d);
    assert!(i128::MIN != d);

    let n = DoubleInt::try_from_i64(-42).unwrap();
    assert!(-42i32 == n);
    assert!(-42i128 == n);
    assert!(42u64 != n);
}

#[test]
fn eq_same_type() {
    let a = DoubleInt::try_from_i64(7).unwrap();
    let b = DoubleInt::try_from_i64(7).unwrap();
    let c = DoubleInt::try_from_i64(8).unwrap();
    assert_eq!(a, b);
    assert_ne!(a, c);
}

#[test]
fn try_from_trait() {
    assert_eq!(DoubleInt::try_from(9007199254740991i64).unwrap().as_i64(), MAX);
    assert!(DoubleInt::try_from(9007199254740992i64).is_err());
    assert_eq!(DoubleInt::try_from(-9007199254740991i64).unwrap().as_i64(), MIN);
    assert!(DoubleInt::try_from(-9007199254740992i64).is_err());
}

#[test]
fn default_is_zero() {
    assert_eq!(DoubleInt::default().as_i64(), 0);
    assert!(DoubleInt::default() == 0i64);
}

#[test]
fn copy_and_debug() {
    let a = DoubleInt::try_from_i64(9).unwrap();
    let b = a;
    assert_eq!(a, b);
    let _ = format!("{:?}", a);
    let _ = format!("{:?}", DoubleInt::try_from_i64(MAX + 1).unwrap_err());
}
