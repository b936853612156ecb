use checked::{AsMutOption, AsRefOption, Checked, IntoOption};

fn valid<T>(x: T) -> Checked<T> {
    Checked(Some(x))
}

fn overflowed<T>() -> Checked<T> {
    Checked(None)
}

#[test]
fn sum_within_range_is_the_sum() {
    for a in 0..=u8::MAX {
        for b in 0..=u8::MAX {
            let sum = a as u32 + b as u32;
            if sum <= u8::MAX as u32 {
                assert_eq!(valid(a) + valid(b), valid(sum as u8));
            } else {
                assert_eq!(valid(a) + valid(b), overflowed());
            }
        }
    }
    assert_eq!(valid(i64::MAX - 1) + valid(1), valid(i64::MAX));
    assert_eq!(valid(i64::MAX) + valid(1), overflowed());
    assert_eq!(valid(i64::MIN) + valid(-1), overflowed());
    assert_eq!(valid(usize::MAX) + valid(0), valid(usize::MAX));
    assert_eq!(valid(usize::MAX) + valid(1), overflowed());
}

#[test]
fn overflow_examples() {
    assert_eq!(valid(5_u8) - valid(6), overflowed());
    assert_eq!(valid(250_u8) + valid(10), overflowed());
    assert_eq!(valid(250_u8) + valid(5), valid(255));
    assert_eq!(valid(16_u8) * valid(16), overflowed());
    assert_eq!(valid(15_u8) * valid(17), valid(255));
    assert_eq!(valid(-128_i8) - valid(1), overflowed());
    assert_eq!(valid(-64_i8) * valid(2), valid(-128));
    assert_eq!(valid(64_i8) * valid(2), overflowed());
}

#[test]
fn division_by_zero_overflows() {
    assert_eq!(valid(10_u8) / valid(0), overflowed());
    assert_eq!(valid(10_u8) % valid(0), overflowed());
    assert_eq!(valid(-10_i32) / valid(0), overflowed());
    assert_eq!(valid(-10_i32) % valid(0), overflowed());
    assert_eq!(valid(0_i64) / valid(0), overflowed());
    assert_eq!(overflowed::<u16>() / valid(0), overflowed());
}

#[test]
fn signed_division_rounds_toward_zero() {
    assert_eq!(valid(7_i8) / valid(2), valid(3));
    assert_eq!(valid(-7_i8) / valid(2), valid(-3));
    assert_eq!(valid(7_i8) / valid(-2), valid(-3));
    assert_eq!(valid(-7_i8) / valid(-2), valid(3));
    assert_eq!(valid(7_i8) % valid(2), valid(1));
    assert_eq!(valid(-7_i8) % valid(2), valid(-1));
    assert_eq!(valid(7_i8) % valid(-2), valid(1));
    assert_eq!(valid(-7_i8) % valid(-2), valid(-1));
    assert_eq!(valid(i8::MIN) / valid(-1), overflowed());
    assert_eq!(valid(i8::MIN) % valid(-1), overflowed());
    assert_eq!(valid(i8::MIN) / valid(1), valid(i8::MIN));
    assert_eq!(valid(i8::MIN) % valid(1), valid(0));
    assert_eq!(valid(i64::MIN) / valid(-1), overflowed());
    assert_eq!(valid(isize::MIN) % valid(-1), overflowed());
}

#[test]
fn negation_edges() {
    assert_eq!(-valid(0_u8), valid(0));
    assert_eq!(-valid(1_u8), overflowed());
    assert_eq!(-valid(u64::MAX), overflowed());
    assert_eq!(-valid(i8::MIN), overflowed());
    assert_eq!(-valid(i8::MAX), valid(-127));
    assert_eq!(-valid(-127_i8), valid(127));
    assert_eq!(-valid(isize::MIN), overflowed());
    assert_eq!(-valid(0_i32), valid(0));
    assert_eq!(-overflowed::<i32>(), overflowed());
}

#[test]
fn every_u8_operation_agrees_with_the_primitive() {
    for a in 0..=u8::MAX {
        assert_eq!(-valid(a), Checked(a.checked_neg()));
        assert_eq!(!valid(a), valid(!a));
        for b in 0..=u8::MAX {
            assert_eq!(valid(a) + valid(b), Checked(a.checked_add(b)));
            assert_eq!(valid(a) - valid(b), Checked(a.checked_sub(b)));
            assert_eq!(valid(a) * valid(b), Checked(a.checked_mul(b)));
            assert_eq!(valid(a) / valid(b), Checked(a.checked_div(b)));
            assert_eq!(valid(a) % valid(b), Checked(a.checked_rem(b)));
            assert_eq!(valid(a) & valid(b), valid(a & b));
            assert_eq!(valid(a) | valid(b), valid(a | b));
            assert_eq!(valid(a) ^ valid(b), valid(a ^ b));
        }
        for n in 0..40_u32 {
            assert_eq!(valid(a) << valid(n), Checked(a.checked_shl(n)));
            assert_eq!(valid(a) >> valid(n), Checked(a.checked_shr(n)));
        }
    }
}

#[test]
fn every_i8_operation_agrees_with_the_primitive() {
    for a in i8::MIN..=i8::MAX {
        assert_eq!(-valid(a), Checked(a.checked_neg()));
        assert_eq!(!valid(a), valid(!a));
        for b in i8::MIN..=i8::MAX {
            assert_eq!(valid(a) + valid(b), Checked(a.checked_add(b)));
            assert_eq!(valid(a) - valid(b), Checked(a.checked_sub(b)));
            assert_eq!(valid(a) * valid(b), Checked(a.checked_mul(b)));
            assert_eq!(valid(a) / valid(b), Checked(a.checked_div(b)));
            assert_eq!(valid(a) % valid(b), Checked(a.checked_rem(b)));
            assert_eq!(valid(a) & valid(b), valid(a & b));
            assert_eq!(valid(a) | valid(b), valid(a | b));
            assert_eq!(valid(a) ^ valid(b), valid(a ^ b));
        }
        for n in 0..40_u32 {
            assert_eq!(valid(a) << valid(n), Checked(a.checked_shl(n)));
            assert_eq!(valid(a) >> valid(n), Checked(a.checked_shr(n)));
        }
    }
}

#[test]
fn wide_operations_agree_with_the_primitive() {
    let samples_u64 = [0_u64, 1, 2, 3, 255, 256, 1 << 31, 1 << 32, u64::MAX / 2, u64::MAX - 1, u64::MAX];
    for &a in samples_u64.iter() {
        assert_eq!(-valid(a), Checked(a.checked_neg()));
        for &b in samples_u64.iter() {
            assert_eq!(valid(a) + valid(b), Checked(a.checked_add(b)));
            assert_eq!(valid(a) - valid(b), Checked(a.checked_sub(b)));
            assert_eq!(valid(a) * valid(b), Checked(a.checked_mul(b)));
            assert_eq!(valid(a) / valid(b), Checked(a.checked_div(b)));
            assert_eq!(valid(a) % valid(b), Checked(a.checked_rem(b)));
        }
        for n in [0_u32, 1, 31, 32, 63, 64, 65, u32::MAX] {
            assert_eq!(valid(a) << n, Checked(a.checked_shl(n)));
            assert_eq!(valid(a) >> n, Checked(a.checked_shr(n)));
        }
    }
    let samples_isize = [isize::MIN, isize::MIN + 1, -2, -1, 0, 1, 2, isize::MAX - 1, isize::MAX];
    for &a in samples_isize.iter() {
        assert_eq!(-valid(a), Checked(a.checked_neg()));
        for &b in samples_isize.iter() {
            assert_eq!(valid(a) + valid(b), Checked(a.checked_add(b)));
            assert_eq!(valid(a) - valid(b), Checked(a.checked_sub(b)));
            assert_eq!(valid(a) * valid(b), Checked(a.checked_mul(b)));
            assert_eq!(valid(a) / valid(b), Checked(a.checked_div(b)));
            assert_eq!(valid(a) % valid(b), Checked(a.checked_rem(b)));
        }
        for n in [0_u32, 1, isize::BITS - 1, isize::BITS, isize::BITS + 1] {
            assert_eq!(valid(a) << n, Checked(a.checked_shl(n)));
            assert_eq!(valid(a) >> n, Checked(a.checked_shr(n)));
        }
    }
    assert_eq!(valid(40_000_u16) + valid(30_000), overflowed());
    assert_eq!(valid(-30_000_i16) - valid(10_000), overflowed());
    assert_eq!(valid(1_i16) << 15_u32, valid(i16::MIN));
    assert_eq!(valid(3_000_000_000_u32) + valid(1_000_000_000), valid(4_000_000_000));
    assert_eq!(valid(3_000_000_000_usize) * valid(2), valid(6_000_000_000));
}

#[test]
fn overflow_propagates_through_every_operator() {
    let none = overflowed::<i32>();
    let x = valid(7_i32);
    let amount = valid(1_u32);
    assert_eq!(none + x, none);
    assert_eq!(x + none, none);
    assert_eq!(none - x, none);
    assert_eq!(x - none, none);
    assert_eq!(none * x, none);
    assert_eq!(x * none, none);
    assert_eq!(none / x, none);
    assert_eq!(x / none, none);
    assert_eq!(none % x, none);
    assert_eq!(x % none, none);
    assert_eq!(none & x, none);
    assert_eq!(x & none, none);
    assert_eq!(none | x, none);
    assert_eq!(x | none, none);
    assert_eq!(none ^ x, none);
    assert_eq!(x ^ none, none);
    assert_eq!(none << amount, none);
    assert_eq!(x << overflowed::<u32>(), none);
    assert_eq!(none >> amount, none);
    assert_eq!(x >> overflowed::<u32>(), none);
    assert_eq!(-none, none);
    assert_eq!(!none, none);
    assert_eq!(none + 7, none);
    assert_eq!(7 + none, none);
    assert_eq!(none << 1_u32, none);
    assert_eq!(7 << overflowed::<u32>(), none);
    assert_eq!(none + none, none);
    assert_eq!(((x + i32::MAX) - i32::MAX) * 0, none);
}

#[test]
fn raw_operands_count_as_valid() {
    for a in 0..=u8::MAX {
        for b in 0..=u8::MAX {
            assert_eq!(valid(a) + b, valid(a) + valid(b));
            assert_eq!(a + valid(b), valid(a) + valid(b));
            assert_eq!(valid(a) - b, valid(a) - valid(b));
            assert_eq!(a - valid(b), valid(a) - valid(b));
            assert_eq!(valid(a) * b, valid(a) * valid(b));
            assert_eq!(a * valid(b), valid(a) * valid(b));
            assert_eq!(valid(a) / b, valid(a) / valid(b));
            assert_eq!(a / valid(b), valid(a) / valid(b));
            assert_eq!(valid(a) % b, valid(a) % valid(b));
            assert_eq!(a % valid(b), valid(a) % valid(b));
            assert_eq!(valid(a) & b, valid(a) & valid(b));
            assert_eq!(a & valid(b), valid(a) & valid(b));
            assert_eq!(valid(a) | b, valid(a) | valid(b));
            assert_eq!(a | valid(b), valid(a) | valid(b));
            assert_eq!(valid(a) ^ b, valid(a) ^ valid(b));
            assert_eq!(a ^ valid(b), valid(a) ^ valid(b));
        }
        for n in 0..10_u32 {
            assert_eq!(valid(a) << n, valid(a) << valid(n));
            assert_eq!(a << valid(n), valid(a) << valid(n));
            assert_eq!(valid(a) >> n, valid(a) >> valid(n));
            assert_eq!(a >> valid(n), valid(a) >> valid(n));
        }
    }
}

#[test]
fn raw_left_operands_of_every_width() {
    assert_eq!(200_u8 + valid(55_u8), valid(255));
    assert_eq!(200_u8 + valid(56_u8), overflowed());
    assert_eq!(60_000_u16 - valid(60_001_u16), overflowed());
    assert_eq!(4_u32 << valid(30_u32), valid(0));
    assert_eq!(4_u32 << valid(32_u32), overflowed());
    assert_eq!(u64::MAX / valid(2_u64), valid(u64::MAX / 2));
    assert_eq!(usize::MAX % valid(0_usize), overflowed());
    assert_eq!(-128_i8 / valid(-1_i8), overflowed());
    assert_eq!(-30_000_i16 * valid(2_i16), overflowed());
    assert_eq!(-8_i32 >> valid(1_u32), valid(-4));
    assert_eq!(i64::MIN - valid(1_i64), overflowed());
    assert_eq!(-1_isize & valid(12_isize), valid(12));
    assert_eq!(&5_i64 | &valid(2_i64), valid(7));
    assert_eq!(&5_u16 ^ valid(1_u16), valid(4));
    assert_eq!(5_usize + &valid(1_usize), valid(6));
}

#[test]
fn shift_amounts() {
    assert_eq!(valid(10_u8) << 3_u32, valid(80));
    assert_eq!(valid(80_u8) >> 3_u32, valid(10));
    assert_eq!(valid(5_u8) << valid(5_u32), valid(160));
    assert_eq!(valid(160_u8) >> valid(5_u32), valid(5));
    assert_eq!(valid(1_u8) << 7_u32, valid(128));
    assert_eq!(valid(1_u8) << 8_u32, overflowed());
    assert_eq!(valid(1_u8) >> 8_u32, overflowed());
    assert_eq!(valid(0_u8) << 8_u32, overflowed());
    assert_eq!(valid(1_u8) << u32::MAX, overflowed());
    assert_eq!(valid(255_u8) << 1_u32, valid(254));
    assert_eq!(valid(-1_i8) >> 7_u32, valid(-1));
    assert_eq!(valid(-1_i8) << 7_u32, valid(i8::MIN));
    assert_eq!(valid(1_u16) << 15_u32, valid(1 << 15));
    assert_eq!(valid(1_u16) << 16_u32, overflowed());
    assert_eq!(valid(1_u32) << 31_u32, valid(1 << 31));
    assert_eq!(valid(1_u32) << 32_u32, overflowed());
    assert_eq!(valid(1_u64) << 63_u32, valid(1 << 63));
    assert_eq!(valid(1_u64) << 64_u32, overflowed());
    assert_eq!(valid(1_usize) << (usize::BITS - 1), valid(1 << (usize::BITS - 1)));
    assert_eq!(valid(1_usize) << usize::BITS, overflowed());
    assert_eq!(valid(1_000_u32) << 3_u32, valid(8_000));
}

#[test]
fn bitwise_operations_never_fail() {
    assert_eq!(valid(5_u8) & valid(6), valid(4));
    assert_eq!(valid(5_u8) | valid(6), valid(7));
    assert_eq!(valid(5_u8) ^ valid(6), valid(3));
    assert_eq!(!valid(6_u8), valid(249));
    assert_eq!(!valid(0_u64), valid(u64::MAX));
    assert_eq!(!valid(i32::MIN), valid(i32::MAX));
    assert_eq!(valid(u16::MAX) | valid(u16::MAX), valid(u16::MAX));
    assert_eq!(valid(i64::MIN) ^ valid(i64::MAX), valid(-1));
}

#[test]
fn compound_assignment_replaces_the_value() {
    let mut x = valid(5_u8);
    x += valid(6);
    assert_eq!(x, valid(11));
    x -= 1;
    assert_eq!(x, valid(10));
    x *= valid(5);
    assert_eq!(x, valid(50));
    x /= 7;
    assert_eq!(x, valid(7));
    x %= valid(4);
    assert_eq!(x, valid(3));
    x <<= 2_u32;
    assert_eq!(x, valid(12));
    x >>= valid(1_u32);
    assert_eq!(x, valid(6));
    x &= 5;
    assert_eq!(x, valid(4));
    x |= valid(3);
    assert_eq!(x, valid(7));
    x ^= 2;
    assert_eq!(x, valid(5));
    x -= 6;
    assert_eq!(x, overflowed());
    x += 1;
    assert_eq!(x, overflowed());
    x <<= overflowed::<u32>();
    assert_eq!(x, overflowed());
    let mut y = valid(200_u8);
    y += 100;
    assert_eq!(y, overflowed());
    let mut z = valid(1_i16);
    z <<= 16_u32;
    assert_eq!(z, overflowed());
    let mut w = valid(9_i64);
    w /= valid(0);
    assert_eq!(w, overflowed());
}

#[test]
fn ordering_policy() {
    let small = valid(1_000_u32);
    let large = valid(10_000_u32);
    let none = overflowed::<u32>();
    assert!(small <= large);
    assert!(small < large);
    assert!(large > small);
    assert!(large >= small);
    assert!(small <= small);
    assert!(!(large <= small));
    assert!(!(small <= none));
    assert!(!(none <= small));
    assert!(!(small < none));
    assert!(!(none < small));
    assert!(!(small > none));
    assert!(!(none > small));
    assert!(!(small >= none));
    assert!(!(none >= small));
    assert!(none <= none);
    assert!(none >= none);
    assert!(!(none < none));
    assert_eq!(small.partial_cmp(&large), Some(std::cmp::Ordering::Less));
    assert_eq!(large.partial_cmp(&small), Some(std::cmp::Ordering::Greater));
    assert_eq!(small.partial_cmp(&small), Some(std::cmp::Ordering::Equal));
    assert_eq!(small.partial_cmp(&none), None);
    assert_eq!(none.partial_cmp(&small), None);
    assert_eq!(none.partial_cmp(&none), Some(std::cmp::Ordering::Equal));
    assert!(valid(-5_i8) < valid(3_i8));
}

#[test]
fn equality() {
    assert_eq!(overflowed::<u8>(), overflowed::<u8>());
    assert_ne!(overflowed::<u8>(), valid(0));
    assert_ne!(valid(1_u8), valid(2));
    assert_eq!(valid(2_u8), valid(2));
}

#[test]
fn take_leaves_overflow_behind() {
    let mut x = valid(42_u16);
    assert_eq!(x.take(), Some(42));
    assert_eq!(x, overflowed());
    assert_eq!(x.take(), None);
    assert_eq!(x, overflowed());
    let mut y = overflowed::<u16>();
    assert_eq!(y.take(), None);
    assert_eq!(y, overflowed());
}

#[test]
fn round_trip_through_option() {
    for o in [Some(0_i32), Some(-1), Some(i32::MAX), Some(i32::MIN), None] {
        let back: Option<i32> = Checked::from(o).into();
        assert_eq!(back, o);
    }
    for x in [valid(0_u64), valid(u64::MAX), overflowed()] {
        let o: Option<u64> = x.into();
        assert_eq!(Checked::from(o), x);
    }
}

#[test]
fn default_is_overflowed() {
    assert_eq!(Checked::<u32>::default(), overflowed());
    assert_eq!(Checked::<i64>::default(), overflowed());
    assert!(Checked::<u8>::default().is_none());
}

#[test]
fn mutable_access_changes_the_held_value() {
    let mut x = valid(3_u32);
    if let Some(v) = AsMutOption::as_mut(&mut x) {
        *v = 4;
    }
    assert_eq!(x, valid(4));
    for v in x.iter_mut() {
        *v += 1;
    }
    assert_eq!(x, valid(5));
    let mut none = overflowed::<u32>();
    assert!(AsMutOption::as_mut(&mut none).is_none());
    assert_eq!(none.iter_mut().len(), 0);
    assert_eq!(none, overflowed());
}

#[test]
fn get_or_insert_fills_only_an_empty_value() {
    let mut x = overflowed::<u8>();
    assert_eq!(*x.get_or_insert(9), 9);
    assert_eq!(x, valid(9));
    assert_eq!(*x.get_or_insert(10), 9);
    assert_eq!(x, valid(9));
    *x.get_or_insert(0) += 1;
    assert_eq!(x, valid(10));

    let mut calls = 0;
    let mut y = overflowed::<u8>();
    assert_eq!(
        *y.get_or_insert_with(|| {
            calls += 1;
            7
        }),
        7
    );
    assert_eq!(y, valid(7));
    assert_eq!(
        *y.get_or_insert_with(|| {
            calls += 1;
            8
        }),
        7
    );
    assert_eq!(y, valid(7));
    assert_eq!(calls, 1);
}

#[test]
fn lazy_defaults_run_only_when_needed() {
    let mut calls = 0;
    assert_eq!(valid(1_u8).unwrap_or_else(|| { calls += 1; 2 }), 1);
    assert_eq!(valid(1_u8).map_or_else(|| { calls += 1; 2 }, |x| x + 1), 2);
    assert_eq!(valid(1_u8).ok_or_else(|| { calls += 1; 2 }), Ok(1));
    assert_eq!(valid(1_u8).or_else(|| { calls += 1; Some(2) }), Some(1));
    assert_eq!(calls, 0);
    assert_eq!(overflowed::<u8>().unwrap_or_else(|| { calls += 1; 2 }), 2);
    assert_eq!(overflowed::<u8>().map_or_else(|| { calls += 1; 2 }, |x| x + 1), 2);
    assert_eq!(overflowed::<u8>().ok_or_else(|| { calls += 1; 2 }), Err(2));
    assert_eq!(overflowed::<u8>().or_else(|| { calls += 1; Some(2) }), Some(2));
    assert_eq!(calls, 4);
    assert_eq!(overflowed::<u8>().and_then(|x| Some(x + 1)), None);
    assert_eq!(valid(1_u8).and_then(|x| x.checked_sub(2)), None);
}

#[test]
fn borrowed_views() {
    let x = valid(6_i16);
    assert_eq!(x.iter(), &[6]);
    assert_eq!(AsRefOption::as_ref(&x), Some(&6));
    let none = overflowed::<i16>();
    assert!(none.iter().is_empty());
    assert_eq!(AsRefOption::as_ref(&none), None);
    assert_eq!(x.option_ref(), &Some(6));
    assert_eq!(none.option_ref(), &None);
}

#[test]
fn documented_examples() {
    let x = Checked::from(1_000_u32);
    let y = Checked::from(1_000_000_u32);
    assert_eq!(x * 1_000, y);
    assert_eq!(1_000_000 * y, Checked::from(None));
    assert_eq!(x << 3, Checked::<u32>::from(8_000));
    assert_eq!(Checked::new(1_000_u32) * Checked::new(1_000_u32), y);
    assert_eq!(Checked::<u8>::from(5) / Checked::<u8>::from(6), Checked::<u8>::from(0));
    assert_eq!(Checked::<u8>::from(5) % Checked::<u8>::from(6), Checked::<u8>::from(5));
    assert_eq!(5 - Checked::<u8>::from(6), Checked::<u8>::from(None));
    assert_eq!(Checked::<u8>::from(5) - 6, Checked::<u8>::from(None));
}
