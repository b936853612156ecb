use checked::text::decimal_string;
use checked::Checked;

#[test]
fn valid_integers_are_written_in_decimal() {
    assert_eq!(Checked::new(0_u8).to_string(), "0");
    assert_eq!(Checked::new(7_u8).to_string(), "7");
    assert_eq!(Checked::new(10_u8).to_string(), "10");
    assert_eq!(Checked::new(255_u8).to_string(), "255");
    assert_eq!(Checked::new(-1_i8).to_string(), "-1");
    assert_eq!(Checked::new(-128_i8).to_string(), "-128");
    assert_eq!(Checked::new(1_000_000_u32).to_string(), "1000000");
    assert_eq!(Checked::new(u64::MAX).to_string(), "18446744073709551615");
    assert_eq!(Checked::new(i64::MIN).to_string(), "-9223372036854775808");
    assert_eq!(Checked::new(i64::MAX).to_string(), "9223372036854775807");
    assert_eq!(Checked::new(usize::MAX).to_string(), usize::MAX.to_string());
    assert_eq!(Checked::new(isize::MIN).to_string(), isize::MIN.to_string());
    assert_eq!(Checked::new(-30_000_i16).to_string(), "-30000");
    assert_eq!(Checked::new(65_535_u16).to_string(), "65535");
    assert_eq!(Checked::new(-2_000_000_000_i32).to_string(), "-2000000000");
}

#[test]
fn overflow_is_written_as_a_word() {
    assert_eq!(Checked::<u8>(None).to_string(), "overflow");
    assert_eq!(Checked::<i64>(None).to_string(), "overflow");
    assert_eq!((Checked::new(250_u8) + 10).to_string(), "overflow");
    assert_eq!((Checked::new(250_u8) + 5).to_string(), "255");
}

#[test]
fn decimal_text_of_every_small_integer() {
    for v in -1_000_i128..=1_000 {
        assert_eq!(decimal_string(v), v.to_string());
    }
    for a in 0..=u8::MAX {
        assert_eq!(Checked::new(a).to_string(), a.to_string());
    }
    for a in i8::MIN..=i8::MAX {
        assert_eq!(Checked::new(a).to_string(), a.to_string());
    }
}

#[test]
fn decimal_text_at_the_extremes() {
    assert_eq!(decimal_string(i128::MAX), i128::MAX.to_string());
    assert_eq!(decimal_string(i128::MIN), i128::MIN.to_string());
    assert_eq!(decimal_string(i128::MIN + 1), (i128::MIN + 1).to_string());
    assert_eq!(decimal_string(0), "0");
    assert_eq!(decimal_string(-10), "-10");
    assert_eq!(decimal_string(100), "100");
}
