use convi::CastFrom;
use convi::CastInto;

#[test]
fn can_cast_from_when_wordsize_is_16() {
    let x: u8 = 1_u8;
    let _: usize = usize::cast_from(x);
    let _: isize = isize::cast_from(x);
    let _: usize = x.cast_into();
    let _: isize = x.cast_into();

    let x: i8 = 1_i8;
    let _: isize = isize::cast_from(x);
    let _: isize = x.cast_into();

    let x: i16 = 1_i16;
    let _: isize = isize::cast_from(x);
    let _: isize = x.cast_into();

    let x: u16 = 1_u16;
    let _: usize = usize::cast_from(x);
    let _: usize = x.cast_into();
}

#[test]
fn can_cast_from_when_wordsize_is_32() {
    let x: u8 = 1_u8;
    let _: usize = usize::cast_from(x);
    let _: isize = isize::cast_from(x);
    let _: usize = x.cast_into();
    let _: isize = x.cast_into();

    let x: i8 = 1_i8;
    let _: isize = isize::cast_from(x);
    let _: isize = x.cast_into();

    let x: i16 = 1_i16;
    let _: isize = isize::cast_from(x);
    let _: isize = x.cast_into();

    let x: u16 = 1_u16;
    let _: usize = usize::cast_from(x);
    let _: usize = x.cast_into();

    let x: u16 = 1_u16;
    let _: isize = isize::cast_from(x);
    let _: isize = x.cast_into();

    let x: i32 = 1_i32;
    let _: isize = isize::cast_from(x);
    let _: isize = x.cast_into();

    let x: u32 = 1_u32;
    let _: usize = usize::cast_from(x);
    let _: usize = x.cast_into();
}

#[test]
fn can_cast_from_when_wordsize_is_64() {
    let x: u8 = 1_u8;
    let _: usize = usize::cast_from(x);
    let _: isize = isize::cast_from(x);
    let _: usize = x.cast_into();
    let _: isize = x.cast_into();

    let x: i8 = 1_i8;
    let _: isize = isize::cast_from(x);
    let _: isize = x.cast_into();

    let x: i16 = 1_i16;
    let _: isize = isize::cast_from(x);
    let _: isize = x.cast_into();

    let x: u16 = 1_u16;
    let _: usize = usize::cast_from(x);
    let _: usize = x.cast_into();

    let x: u16 = 1_u16;
    let _: isize = isize::cast_from(x);
    let _: isize = x.cast_into();

    let x: i32 = 1_i32;
    let _: isize = isize::cast_from(x);
    let _: isize = x.cast_into();

    let x: u32 = 1_u32;
    let _: usize = usize::cast_from(x);
    let _: usize = x.cast_into();

    let x: u32 = 1_u32;
    let _: isize = isize::cast_from(x);
    let _: isize = x.cast_into();

    let x: i64 = 1_i64;
    let _: isize = isize::cast_from(x);
    let _: isize = x.cast_into();

    let x: u64 = 1_u64;
    let _: usize = usize::cast_from(x);
    let _: usize = x.cast_into();
}

#[test]
fn cast_from_preserves_values_exactly() {
    assert_eq!(usize::cast_from(42_u32), 42_usize);
    assert_eq!(isize::cast_from(-7_i32), -7_isize);
    assert_eq!(usize::cast_from(0_u8), 0_usize);
    assert_eq!(usize::cast_from(u8::MAX), 255_usize);
    assert_eq!(isize::cast_from(i8::MIN), -128_isize);
    assert_eq!(usize::cast_from(u16::MAX), 65535_usize);
    assert_eq!(isize::cast_from(i16::MIN), -32768_isize);
    assert_eq!(isize::cast_from(u16::MAX), 65535_isize);
    assert_eq!(usize::cast_from(u32::MAX), 4294967295_usize);
    assert_eq!(isize::cast_from(i32::MIN), -2147483648_isize);
    assert_eq!(isize::cast_from(u32::MAX), 4294967295_isize);
    assert_eq!(usize::cast_from(u64::MAX), usize::MAX);
    assert_eq!(isize::cast_from(i64::MIN), isize::MIN);
    assert_eq!(isize::cast_from(i64::MAX), isize::MAX);
}

#[test]
fn widening_casts_round_trip() {
    assert_eq!(usize::cast_from(200_u8) as u8, 200_u8);
    assert_eq!(usize::cast_from(u8::MAX) as u8, u8::MAX);
    assert_eq!(isize::cast_from(i8::MIN) as i8, i8::MIN);
    assert_eq!(isize::cast_from(u8::MAX) as u8, u8::MAX);
    assert_eq!(usize::cast_from(u16::MAX) as u16, u16::MAX);
    assert_eq!(isize::cast_from(i16::MIN) as i16, i16::MIN);
    assert_eq!(isize::cast_from(u16::MAX) as u16, u16::MAX);
    assert_eq!(usize::cast_from(u32::MAX) as u32, u32::MAX);
    assert_eq!(isize::cast_from(i32::MIN) as i32, i32::MIN);
    assert_eq!(isize::cast_from(u32::MAX) as u32, u32::MAX);
    assert_eq!(usize::cast_from(u64::MAX) as u64, u64::MAX);
    assert_eq!(isize::cast_from(i64::MIN) as i64, i64::MIN);
}

#[test]
fn cast_into_agrees_with_cast_from() {
    let x: u8 = 201_u8;
    let via_into: usize = x.cast_into();
    assert_eq!(via_into, usize::cast_from(x));
    let via_into: isize = x.cast_into();
    assert_eq!(via_into, isize::cast_from(x));

    let x: i8 = -101_i8;
    let via_into: isize = x.cast_into();
    assert_eq!(via_into, isize::cast_from(x));

    let x: u16 = 60001_u16;
    let via_into: usize = x.cast_into();
    assert_eq!(via_into, usize::cast_from(x));
    let via_into: isize = x.cast_into();
    assert_eq!(via_into, isize::cast_from(x));

    let x: i16 = -30001_i16;
    let via_into: isize = x.cast_into();
    assert_eq!(via_into, isize::cast_from(x));

    let x: u32 = 4000000001_u32;
    let via_into: usize = x.cast_into();
    assert_eq!(via_into, usize::cast_from(x));
    let via_into: isize = x.cast_into();
    assert_eq!(via_into, isize::cast_from(x));

    let x: i32 = -2000000001_i32;
    let via_into: isize = x.cast_into();
    assert_eq!(via_into, isize::cast_from(x));

    let x: u64 = 18000000000000000001_u64;
    let via_into: usize = x.cast_into();
    assert_eq!(via_into, usize::cast_from(x));

    let x: i64 = -9000000000000000001_i64;
    let via_into: isize = x.cast_into();
    assert_eq!(via_into, isize::cast_from(x));
}
