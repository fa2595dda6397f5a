use turbofish::math::random::lfsr16::{
    lfsr16_get_pseudo_number, lfsr16_get_seed, lfsr16_set_seed, move_offset, LfsrFibonnaci, SEQ_SIZE,
};
use turbofish::math::MathError;

fn oracle_words(seed: u16, n: usize) -> Vec<u32> {
    let mut s = seed;
    let mut out = Vec::new();
    for _ in 0..n {
        let mut w = 0u32;
        for j in 0..32 {
            let b = (s ^ (s >> 2) ^ (s >> 3) ^ (s >> 5)) & 1;
            w |= (b as u32) << j;
            s = (s >> 1) | (b << 15);
        }
        out.push(w);
    }
    out
}

#[test]
fn unseeded_lfsr() {
    let mut l = LfsrFibonnaci::new();
    assert_eq!(lfsr16_get_seed(&l), Err(MathError::NotInitialized));
    assert_eq!(lfsr16_get_pseudo_number(&mut l), Err(MathError::NotInitialized));
    assert_eq!(lfsr16_set_seed(&mut l, 0), Err(MathError::OutOfBound));
    assert_eq!(lfsr16_get_seed(&l), Err(MathError::NotInitialized));
}

#[test]
fn seeded_lfsr_follows_the_register() {
    let mut l = LfsrFibonnaci::new();
    assert_eq!(lfsr16_set_seed(&mut l, 0xACE1), Ok(()));
    assert_eq!(lfsr16_get_seed(&l), Ok(0xACE1));
    let expected = oracle_words(0xACE1, 3);
    for w in expected {
        assert_eq!(lfsr16_get_pseudo_number(&mut l), Ok(w));
    }
}

#[test]
fn the_table_wraps() {
    assert_eq!(move_offset(0), 1);
    assert_eq!(move_offset(SEQ_SIZE - 1), 0);
    let mut l = LfsrFibonnaci::new();
    lfsr16_set_seed(&mut l, 1).unwrap();
    let first = lfsr16_get_pseudo_number(&mut l).unwrap();
    for _ in 1..SEQ_SIZE {
        lfsr16_get_pseudo_number(&mut l).unwrap();
    }
    assert_eq!(lfsr16_get_pseudo_number(&mut l), Ok(first));
}
