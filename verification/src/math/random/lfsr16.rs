//! A 16-bit Fibonacci linear-feedback shift register, unrolled into a
//! table of 2048 words of 32 pseudo-random bits.
//!
//! See https://en.wikipedia.org/wiki/Linear-feedback_shift_register.
use crate::bits::{
    bit_of_u16, bit_of_u32, get_bit_u16, lemma_u32_bit_write, set_bit_u16, set_bit_u32, with_bit_u16,
};
use crate::math::{MathError, MathResult};
use vstd::prelude::*;

verus! {

/// The number of words in the table.
pub const SEQ_SIZE: usize = 2048;

/// The feedback bit of a state: bit 0 of `s ^ s >> 2 ^ s >> 3 ^ s >> 5`
/// (the taps 16, 14, 13 and 11).
pub open spec fn feedback(s: u16) -> bool {
    bit_of_u16(s ^ (s >> 2u16) ^ (s >> 3u16) ^ (s >> 5u16), 0)
}

/// The state after one step: shifted right, the feedback bit entering at
/// bit 15.
pub open spec fn lfsr_next(s: u16) -> u16 {
    with_bit_u16(s >> 1u16, 15, feedback(s))
}

/// The state after `n` steps from `seed`.
pub open spec fn lfsr_iter(seed: u16, n: nat) -> u16
    decreases n,
{
    if n == 0 {
        seed
    } else {
        lfsr_next(lfsr_iter(seed, (n - 1) as nat))
    }
}

/// The table built from `seed`: bit `j` of word `i` is the feedback bit
/// of step `32 * i + j`.
pub open spec fn table_of(seed: u16, registers: Seq<u32>) -> bool {
    &&& registers.len() == SEQ_SIZE
    &&& forall|i: int, j: usize|
        0 <= i < SEQ_SIZE && j < 32 ==> #[trigger] bit_of_u32(registers[i], j) == feedback(
            lfsr_iter(seed, (32 * i + j) as nat),
        )
}

/// The offset after `offset`, wrapping at the end of the table.
pub open spec fn next_offset(offset: usize) -> usize {
    if offset == SEQ_SIZE - 1 {
        0
    } else {
        (offset + 1) as usize
    }
}

/// The table, the offset of the next word to hand out, and the seed it
/// was built from.
pub struct LfsrFibonnaci {
    registers: Vec<u32>,
    current_offset: usize,
    stored_seed: Option<u16>,
}

impl LfsrFibonnaci {
    /// The words of the table.
    pub closed spec fn registers_view(self) -> Seq<u32> {
        self.registers@
    }

    /// The offset of the next word to hand out.
    pub closed spec fn offset(self) -> usize {
        self.current_offset
    }

    /// The seed the table was built from, if it was.
    pub closed spec fn seed(self) -> Option<u16> {
        self.stored_seed
    }

    /// The table has its 2048 words, the offset is in it, and once seeded
    /// the words are those of the seed.
    pub open spec fn wf(self) -> bool {
        &&& self.registers_view().len() == SEQ_SIZE
        &&& self.offset() < SEQ_SIZE
        &&& self.seed() matches Some(s) ==> table_of(s, self.registers_view())
    }

    /// A zeroed, unseeded table.
    pub fn new() -> (r: Self)
        ensures
            r.wf(),
            r.seed() is None,
            r.offset() == 0,
    {
        let mut registers: Vec<u32> = Vec::new();
        let mut i: usize = 0;
        while i < SEQ_SIZE
            invariant
                i <= SEQ_SIZE,
                registers@.len() == i,
            decreases SEQ_SIZE - i,
        {
            registers.push(0);
            i = i + 1;
        }
        LfsrFibonnaci { registers, current_offset: 0, stored_seed: None }
    }
}

/// Builds the table from `seed`, which must not be 0 (a zeroed register
/// never leaves 0).
pub fn lfsr16_set_seed(lfsr_fibonacci: &mut LfsrFibonnaci, seed: u16) -> (r: MathResult<()>)
    requires
        old(lfsr_fibonacci).wf(),
    ensures
        final(lfsr_fibonacci).wf(),
        r == (if seed == 0 {
            Err::<(), MathError>(MathError::OutOfBound)
        } else {
            Ok(())
        }),
        seed == 0 ==> *final(lfsr_fibonacci) == *old(lfsr_fibonacci),
        seed != 0 ==> final(lfsr_fibonacci).seed() == Some(seed) && final(lfsr_fibonacci).offset()
            == old(lfsr_fibonacci).offset(),
{
    if seed == 0 {
        return Err(MathError::OutOfBound);
    }
    let mut lfsr: u16 = seed;
    let mut registers: Vec<u32> = Vec::new();
    let mut i: usize = 0;
    while i < SEQ_SIZE
        invariant
            i <= SEQ_SIZE,
            registers@.len() == i,
            lfsr == lfsr_iter(seed, (32 * i) as nat),
            forall|k: int, j: usize|
                0 <= k < i && j < 32 ==> #[trigger] bit_of_u32(registers@[k], j) == feedback(
                    lfsr_iter(seed, (32 * k + j) as nat),
                ),
        decreases SEQ_SIZE - i,
    {
        let mut elem: u32 = 0;
        let mut j: usize = 0;
        while j < 32
            invariant
                i < SEQ_SIZE,
                j <= 32,
                lfsr == lfsr_iter(seed, (32 * i + j) as nat),
                forall|k: usize|
                    k < j ==> #[trigger] bit_of_u32(elem, k) == feedback(
                        lfsr_iter(seed, (32 * i + k) as nat),
                    ),
            decreases 32 - j,
        {
            let bits: u16 = lfsr ^ (lfsr >> 2u16) ^ (lfsr >> 3u16) ^ (lfsr >> 5u16);
            let b = get_bit_u16(bits, 0);
            let ghost before = elem;
            proof {
                assert(lfsr_iter(seed, (32 * i + j + 1) as nat) == lfsr_next(
                    lfsr_iter(seed, (32 * i + j) as nat),
                ));
                assert forall|k: usize| k <= j implies #[trigger] bit_of_u32(
                    crate::bits::with_bit_u32(before, j, b),
                    k,
                ) == feedback(lfsr_iter(seed, (32 * i + k) as nat)) by {
                    lemma_u32_bit_write(before, j, b, k);
                }
            }
            lfsr = set_bit_u16(lfsr >> 1u16, 15, b);
            elem = set_bit_u32(elem, j, b);
            j = j + 1;
        }
        registers.push(elem);
        i = i + 1;
    }
    lfsr_fibonacci.registers = registers;
    lfsr_fibonacci.stored_seed = Some(seed);
    Ok(())
}

/// The seed the table was built from.
pub fn lfsr16_get_seed(lfsr_fibonacci: &LfsrFibonnaci) -> (r: MathResult<u16>)
    ensures
        r == match lfsr_fibonacci.seed() {
            Some(s) => Ok::<u16, MathError>(s),
            None => Err(MathError::NotInitialized),
        },
{
    match lfsr_fibonacci.stored_seed {
        Some(s) => Ok(s),
        None => Err(MathError::NotInitialized),
    }
}

/// The offset after `offset`, wrapping at the end of the table.
pub fn move_offset(offset: usize) -> (r: usize)
    requires
        offset < SEQ_SIZE,
    ensures
        r == next_offset(offset),
        r < SEQ_SIZE,
{
    if offset == SEQ_SIZE - 1 {
        0
    } else {
        offset + 1
    }
}

/// The next word of the table, which must be seeded; the offset moves on.
pub fn lfsr16_get_pseudo_number(lfsr_fibonacci: &mut LfsrFibonnaci) -> (r: MathResult<u32>)
    requires
        old(lfsr_fibonacci).wf(),
    ensures
        final(lfsr_fibonacci).wf(),
        final(lfsr_fibonacci).seed() == old(lfsr_fibonacci).seed(),
        final(lfsr_fibonacci).registers_view() == old(lfsr_fibonacci).registers_view(),
        old(lfsr_fibonacci).seed() is None ==> r == Err::<u32, MathError>(MathError::NotInitialized)
            && final(lfsr_fibonacci).offset() == old(lfsr_fibonacci).offset(),
        old(lfsr_fibonacci).seed() is Some ==> r == Ok::<u32, MathError>(
            old(lfsr_fibonacci).registers_view()[old(lfsr_fibonacci).offset() as int],
        ) && final(lfsr_fibonacci).offset() == next_offset(old(lfsr_fibonacci).offset()),
{
    match lfsr_fibonacci.stored_seed {
        Some(_) => {
            let result = lfsr_fibonacci.registers[lfsr_fibonacci.current_offset];
            lfsr_fibonacci.current_offset = move_offset(lfsr_fibonacci.current_offset);
            Ok(result)
        },
        None => Err(MathError::NotInitialized),
    }
}


/// The offset after `k` reads from `offset`.
pub open spec fn offset_after(offset: usize, k: nat) -> usize
    decreases k,
{
    if k == 0 {
        offset
    } else {
        next_offset(offset_after(offset, (k - 1) as nat))
    }
}

/// The table is read in a circle: after `k` reads from `offset`, the
/// next word read is the one at `(offset + k) % 2048`, so that the reads
/// `k` and `k + 2048` give the same word.
pub proof fn lemma_reads_cycle(offset: usize, k: nat)
    requires
        offset < SEQ_SIZE,
    ensures
        offset_after(offset, k) == (offset + k) % (SEQ_SIZE as int),
        offset_after(offset, k + SEQ_SIZE as nat) == offset_after(offset, k),
{
    lemma_offset_after(offset, k);
    lemma_offset_after(offset, k + SEQ_SIZE as nat);
    assert((offset + k + SEQ_SIZE) % (SEQ_SIZE as int) == (offset + k) % (SEQ_SIZE as int)) by {
        vstd::arithmetic::div_mod::lemma_mod_add_multiples_vanish((offset + k) as int, SEQ_SIZE as int);
    }
}

/// After `k` reads from `offset`, the offset is `(offset + k) % 2048`.
proof fn lemma_offset_after(offset: usize, k: nat)
    requires
        offset < SEQ_SIZE,
    ensures
        offset_after(offset, k) == (offset + k) % (SEQ_SIZE as int),
    decreases k,
{
    if k == 0 {
        vstd::arithmetic::div_mod::lemma_small_mod(offset as nat, SEQ_SIZE as nat);
    } else {
        lemma_offset_after(offset, (k - 1) as nat);
        let m = (offset + k - 1) % (SEQ_SIZE as int);
        vstd::arithmetic::div_mod::lemma_fundamental_div_mod(offset + k - 1, SEQ_SIZE as int);
        vstd::arithmetic::div_mod::lemma_fundamental_div_mod(offset + k, SEQ_SIZE as int);
        if m == SEQ_SIZE - 1 {
            vstd::arithmetic::div_mod::lemma_mod_add_multiples_vanish(0, SEQ_SIZE as int);
            assert((offset + k) % (SEQ_SIZE as int) == 0) by {
                vstd::arithmetic::div_mod::lemma_add_mod_noop(offset + k - 1, 1, SEQ_SIZE as int);
            }
        } else {
            assert((offset + k) % (SEQ_SIZE as int) == m + 1) by {
                vstd::arithmetic::div_mod::lemma_add_mod_noop(offset + k - 1, 1, SEQ_SIZE as int);
                vstd::arithmetic::div_mod::lemma_small_mod((m + 1) as nat, SEQ_SIZE as nat);
            }
        }
    }
}

} // verus!
