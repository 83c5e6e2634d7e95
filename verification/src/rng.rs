//! The seeded pseudo-random source of the plantation: a 64-bit linear
//! congruential generator whose upper half picks an index.
use vstd::prelude::*;
use vstd::arithmetic::div_mod::{lemma_add_mod_noop, lemma_mod_twice, lemma_small_mod};

verus! {

pub const LCG_MULTIPLIER: u64 = 6364136223846793005;
pub const LCG_INCREMENT: u64 = 1442695040888963407;
pub const DEFAULT_SEED: u64 = 0xC1FE_CAFE_BA5E_BA11;

/// The seed after one step: `seed * MULTIPLIER + INCREMENT` modulo 2^64.
pub open spec fn next_seed(seed: u64) -> u64 {
    ((seed as int * LCG_MULTIPLIER as int + LCG_INCREMENT as int) % 0x1_0000_0000_0000_0000int) as u64
}

/// The index drawn from a seed that has just been advanced.
pub open spec fn index_of(seed: u64, max: usize) -> usize {
    ((seed as int / 0x1_0000_0000int) % max as int) as usize
}

/// Advances the seed one step.
pub fn advance(seed: u64) -> (next: u64)
    ensures
        next == next_seed(seed),
{
    let m = seed.wrapping_mul(LCG_MULTIPLIER);
    let next = m.wrapping_add(LCG_INCREMENT);
    proof {
        let r = 0x1_0000_0000_0000_0000int;
        let p = seed as int * LCG_MULTIPLIER as int;
        assert(m as int == p % r);
        lemma_small_mod(LCG_INCREMENT as nat, r as nat);
        lemma_add_mod_noop(p, LCG_INCREMENT as int, r);
        if m as int + LCG_INCREMENT as int > u64::MAX as int {
            assert(next as int == m as int + LCG_INCREMENT as int - r);
            lemma_small_mod((m as int + LCG_INCREMENT as int - r) as nat, r as nat);
            assert((m as int + LCG_INCREMENT as int) % r == (m as int + LCG_INCREMENT as int - r) % r)
                by {
                vstd::arithmetic::div_mod::lemma_mod_sub_multiples_vanish(
                    m as int + LCG_INCREMENT as int,
                    r,
                );
            }
        } else {
            lemma_small_mod((m as int + LCG_INCREMENT as int) as nat, r as nat);
        }
        lemma_mod_twice(p, r);
    }
    next
}

/// Advances `seed` and draws an index below `max` from its upper 32 bits.
pub fn rand_index(seed: &mut u64, max: usize) -> (index: usize)
    requires
        max > 0,
    ensures
        *final(seed) == next_seed(*old(seed)),
        index == index_of(*final(seed), max),
        index < max,
{
    *seed = advance(*seed);
    let high: u64 = *seed >> 32;
    assert(high as int == *seed as int / 0x1_0000_0000int) by (bit_vector)
        requires
            high == *seed >> 32,
    ;
    assert(high <= u32::MAX) by (bit_vector)
        requires
            high == *seed >> 32,
    ;
    let index = (high as usize) % max;
    index
}

} // verus!
