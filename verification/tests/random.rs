use std::collections::HashMap;
use turbofish::math::random::lfsr16::LfsrFibonnaci;
use turbofish::math::random::{srand_init, Random};

/// Random bits for the tests: a xorshift generator.
struct Bits(u32);

impl Bits {
    fn next(&mut self) -> u32 {
        let mut x = self.0;
        x ^= x << 13;
        x ^= x >> 17;
        x ^= x << 5;
        self.0 = x;
        x
    }
}

#[test]
fn random_out_of_bound_i16_test() {
    let mut bits = Bits(0x1234_5678);
    for i in (i16::MIN..0).into_iter().step_by(128) {
        let x: i16 = i.rand(bits.next());
        let limit_high = match i {
            i16::MIN => i16::MAX,
            _ => -1 * i,
        };
        assert!(x >= i && x <= limit_high);
    }
}

#[test]
fn random_out_of_bound_i32_test() {
    let mut bits = Bits(0x0bad_cafe);
    for i in (i32::MIN..0).into_iter().step_by(4096) {
        let x: i32 = i.rand(bits.next());
        let limit_high = match i {
            i32::MIN => i32::MAX,
            _ => -1 * i,
        };
        assert!(x >= i && x <= limit_high);
    }
}

#[test]
fn random_out_of_bound_u16_test() {
    let mut bits = Bits(0xdead_beef);
    for i in (0..u16::MAX).into_iter().step_by(128) {
        let x: u16 = i.rand(bits.next());
        assert!(x <= i);
    }
}

#[test]
fn random_out_of_bound_u32_test() {
    let mut bits = Bits(0x4242_4242);
    for i in (0..u32::MAX).into_iter().step_by(4096) {
        let x: u32 = i.rand(bits.next());
        assert!(x <= i);
    }
}

#[test]
fn random_distribution_test() {
    let mut bits = Bits(0x0f0f_1234);
    let mut buckets = HashMap::new();

    let gen_nbr: Vec<u32> = (0..100000).into_iter().map(|_| 1000u32.rand(bits.next())).collect();
    let n_buckets = 50;
    let gen_key = |nbr| nbr % n_buckets;

    for nbr in gen_nbr {
        *buckets.entry(gen_key(nbr)).or_insert(0) += 1;
    }

    let first_iter = buckets.iter().map(|(_, &value)| value as i64);
    let cloned_iter = first_iter.clone().take((n_buckets - 1) as usize);
    let final_iter = first_iter.skip(1).zip(cloned_iter);

    let s = final_iter.fold(0, |acc, (first, second): (i64, i64)| acc + (first - second).abs());
    println!("distribution / 100000 rand(). 50 buckets on range of 1000 -> {:?}", s);
}

#[test]
fn rand_scales_exactly() {
    // Half of the range rounds to half of the bound, the top to the bound.
    assert_eq!(1000u32.rand(u32::MAX), 1000);
    assert_eq!(1000u32.rand(0), 0);
    assert_eq!(1000u32.rand(u32::MAX / 2), 500);
    assert_eq!(255u8.rand(u32::MAX), 255);
    assert_eq!(100u16.rand(u32::MAX / 4), 25);
    // Signed bounds go from the bound to its opposite.
    assert_eq!((-100i32).rand(0), 0);
    assert_eq!((-100i32).rand(0x8000_0000), -100);
    assert_eq!((-100i32).rand(0x7fff_ffff), 100);
    assert_eq!(i16::MIN.rand(0x8000_0000), i16::MIN);
    assert_eq!(i16::MIN.rand(0x7fff_ffff), i16::MAX);
    assert_eq!(true.rand(1), true);
    assert_eq!(true.rand(2), false);
}

#[test]
fn srand_needs_a_seed() {
    let mut lfsr = LfsrFibonnaci::new();
    assert!(srand_init(&mut lfsr, 0).is_err());
    assert!(srand_init(&mut lfsr, 0xACE1).is_ok());
    let a: u32 = 1000u32.srand(&mut lfsr);
    assert!(a <= 1000);
}

#[test]
fn random_mediane_test() {
    let mut bits = Bits(0x4242_4242);
    let mut mediane_u: f64 = 0.;
    // u32 test
    for i in 1..100000 {
        mediane_u += (u32::MAX.rand(bits.next()) as f64 - mediane_u) / i as f64;
    }
    // i32 test
    let mut mediane_i: f64 = 0.;
    for i in 1..100000 {
        mediane_i += (i32::MIN.rand(bits.next()) as f64 - mediane_i) / i as f64;
    }
    println!("random_mediane_test\nu32 -> {:?}\ni32 -> {:?}", mediane_u, mediane_i);
}

#[test]
fn isize_rand_stays_within_its_bound() {
    let mut bits = Bits(0x7777_1111);
    for bound in [-1000isize, -1, 0, 1, 1000, isize::MAX, isize::MIN] {
        for _ in 0..100 {
            let x = bound.rand(bits.next());
            let a = if bound == isize::MIN { isize::MAX } else { bound.abs() };
            assert!(x >= -a - if bound == isize::MIN { 1 } else { 0 } && x <= a);
        }
    }
}

#[test]
fn narrow_types_scale_in_single_precision() {
    // 0x7FFFFFC0 is 2^31 in single precision: half of the range, so a bound
    // of 3 gives 1.5, rounded away from zero.
    assert_eq!(3u16.rand(0x7FFF_FFC0), 2);
    assert_eq!(3u8.rand(0x7FFF_FFC0), 2);
    let mut bits = Bits(0x0bad_cafe);
    for _ in 0..20000 {
        let raw = bits.next();
        let t = raw as i32;
        for bound in [0u16, 1, 3, 7, 1000, 0x7fff, 0xfffe, u16::MAX] {
            let expected = (raw as f32 / u32::MAX as f32 * bound as f32).round() as u16;
            assert_eq!(bound.rand(raw), expected);
        }
        for bound in [0u8, 1, 3, 100, u8::MAX] {
            let expected = (raw as f32 / u32::MAX as f32 * bound as f32).round() as u8;
            assert_eq!(bound.rand(raw), expected);
        }
        for bound in [i16::MIN, -1000, -3, 0, 1, 5, 0x7ffe, i16::MAX] {
            let expected = (t as f32 / i32::MIN as f32 * bound as f32).round() as i16;
            assert_eq!(bound.rand(raw), expected);
        }
        for bound in [i8::MIN, -3, 0, 1, 100, i8::MAX] {
            let expected = (t as f32 / i32::MIN as f32 * bound as f32).round() as i8;
            assert_eq!(bound.rand(raw), expected);
        }
    }
}

#[test]
fn wide_types_scale_in_double_precision() {
    let mut bits = Bits(0x5eed_f00d);
    for _ in 0..20000 {
        let raw = bits.next();
        let t = raw as i32;
        for bound in [i32::MIN, -1_000_000_007, -3, 0, 1, 12345, 0x7fff_fffe, i32::MAX] {
            let expected = (t as f64 / i32::MIN as f64 * bound as f64).round() as i32;
            assert_eq!(bound.rand(raw), expected);
        }
        for bound in [isize::MIN, -1_000_000_007, -3, 0, 1, 12345, isize::MAX - 1, isize::MAX] {
            let expected = (t as f64 / isize::MIN as f64 * bound as f64).round() as isize;
            assert_eq!(bound.rand(raw), expected);
        }        for bound in [0u32, 1, 3, 1000, 0x8000_0001, u32::MAX - 1, u32::MAX] {
            let expected = (raw as f64 / u32::MAX as f64 * bound as f64).round() as u32;
            assert_eq!(bound.rand(raw), expected);
        }
        for bound in [0usize, 1, 3, 1000, 0xffff_ffff, usize::MAX / 3, usize::MAX - 1, usize::MAX] {
            let expected = (raw as f64 / usize::MAX as f64 * bound as f64).round() as usize;
            assert_eq!(bound.rand(raw), expected);
        }
    }
    for raw in [0u32, 1, 0x7fff_ffff, 0x8000_0000, 0x8000_0001, 0xffff_ffff] {
        let t = raw as i32;
        for bound in [i32::MIN, -1, 1, i32::MAX] {
            assert_eq!(bound.rand(raw), (t as f64 / i32::MIN as f64 * bound as f64).round() as i32);
        }
        for bound in [isize::MIN, -1, 1, isize::MAX] {
            assert_eq!(bound.rand(raw), (t as f64 / isize::MIN as f64 * bound as f64).round() as isize);
        }
        for bound in [1u32, 0x8000_0000, u32::MAX] {
            assert_eq!(bound.rand(raw), (raw as f64 / u32::MAX as f64 * bound as f64).round() as u32);
        }
        for bound in [1usize, usize::MAX] {
            assert_eq!(bound.rand(raw), (raw as f64 / usize::MAX as f64 * bound as f64).round() as usize);
        }
    }
}
