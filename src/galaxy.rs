use vstd::prelude::*;

use vstd::arithmetic::div_mod::{lemma_add_mod_noop, lemma_mod_mod, lemma_mul_mod_noop_left};

verus! {

/// Multiplier of the jitter generator.
pub const JITTER_MULTIPLIER: u64 = 1103515245;

/// Increment of the jitter generator.
pub const JITTER_INCREMENT: u64 = 12345;

/// Largest jitter value; dividing by it maps the jitter onto `[0, 1]`.
pub const JITTER_MAX: u32 = 32767;

/// The jitter of particle `index`: bits 16 to 30 of one linear congruential
/// step from the index. Those bits are the same whether the step wraps at 32
/// or at 64 bits, so the value depends on the index alone.
pub open spec fn jitter(index: int) -> int {
    ((index * JITTER_MULTIPLIER + JITTER_INCREMENT) % 0x8000_0000) / 0x10000
}

/// The jitter does not depend on the machine's word size: taking bits 16 to
/// 30 of the generator step wrapped at 64 bits, or at 32 bits, gives the
/// same value, so every platform generates the same population.
pub proof fn lemma_jitter_word_size(index: int)
    requires
        index >= 0,
    ensures
        jitter(index) == ((((index * JITTER_MULTIPLIER + JITTER_INCREMENT) % 0x1_0000_0000_0000_0000)
            as u64 >> 16u64) & 0x7fffu64),
        jitter(index) == ((((index * JITTER_MULTIPLIER + JITTER_INCREMENT) % 0x1_0000_0000) as u32
            >> 16u32) & 0x7fffu32),
{
    let y: int = index * JITTER_MULTIPLIER + JITTER_INCREMENT;
    assert(y >= 0) by (nonlinear_arith)
        requires
            index >= 0,
            y == index * JITTER_MULTIPLIER + JITTER_INCREMENT,
    ;
    let y64: u64 = (y % 0x1_0000_0000_0000_0000) as u64;
    let y32: u32 = (y % 0x1_0000_0000) as u32;
    assert(((y64 >> 16u64) & 0x7fffu64) == (y64 % 0x8000_0000) / 0x10000) by (bit_vector);
    assert(((y32 >> 16u32) & 0x7fffu32) == (y32 % 0x8000_0000) / 0x10000) by (bit_vector);
    lemma_mod_mod(y, 0x8000_0000, 0x2_0000_0000);
    lemma_mod_mod(y, 0x8000_0000, 2);
}

/// Generator of the initial particle population: two counter-rotating
/// spiral disks whose colours and thickness are jittered by a function of
/// the particle index only, so that every reset gives the same particles.
pub struct GalaxyGenerator;

impl GalaxyGenerator {
    pub fn new() -> (r: GalaxyGenerator) {
        GalaxyGenerator
    }

    /// The jitter of particle `index`, between 0 and `JITTER_MAX`.
    pub fn pseudo_random(&self, index: usize) -> (r: u32)
        ensures
            r as int == jitter(index as int),
            r <= JITTER_MAX,
    {
        let s: u64 = (index % 0x8000_0000) as u64;
        assert(s * JITTER_MULTIPLIER < 0x8000_0000 * 0x8000_0000) by (nonlinear_arith)
            requires
                s < 0x8000_0000,
                JITTER_MULTIPLIER < 0x8000_0000,
        ;
        let x: u64 = (s * JITTER_MULTIPLIER + JITTER_INCREMENT) % 0x8000_0000;
        proof {
            let m: int = 0x8000_0000;
            let a: int = JITTER_MULTIPLIER as int;
            let c: int = JITTER_INCREMENT as int;
            lemma_mul_mod_noop_left(index as int, a, m);
            lemma_add_mod_noop(s * a, c, m);
            lemma_add_mod_noop(index * a, c, m);
            assert((s as int) == (index as int) % m);
        }
        (x / 0x10000) as u32
    }

    /// Sizes of the two disks of a population of `total` particles: half of
    /// it each, so an odd total leaves one particle out.
    pub fn disk_sizes(&self, total: usize) -> (r: (usize, usize))
        ensures
            r.0 == total / 2,
            r.1 == total / 2,
            r.0 + r.1 <= total,
    {
        (total / 2, total / 2)
    }
}

} // verus!
