//! Sampling the square aperture of a thin lens.
//!
//! A uniform sample in [0, 1) is taken from the upper 24 bits of a random
//! word, `k / 2^24`. Remapped to [-1, 1) by `(u - 1/2) * 2` it is
//! `(k - 2^23) / 2^23`: an integer numerator over a fixed power of two.
//! The numerators are what this module computes; multiplying by the
//! aperture's half-width is left to the caller's arithmetic.

use vstd::prelude::*;
use rand_xorshift::XorShiftRng;

verus! {

/// The denominator of a lens offset: 2^23.
pub const LATTICE: i32 = 8_388_608;

/// The number of values a uniform sample can take: 2^24.
pub const UNIT_STEPS: u32 = 16_777_216;

/// The xorshift generator whose words select the lens position.
#[verifier::external_type_specification]
#[verifier::external_body]
pub struct ExXorShiftRng(XorShiftRng);

/// Numerator over `UNIT_STEPS` of the uniform sample in [0, 1) that a word gives.
pub open spec fn spec_unit(word: u32) -> int {
    word as int / 256
}

/// Numerator over `LATTICE` of the offset in [-1, 1) that a word gives:
/// the uniform sample `u`, remapped by `(u - 1/2) * 2`.
pub open spec fn spec_offset(word: u32) -> int {
    spec_unit(word) - LATTICE as int
}

/// A point of the square [-1, 1) x [-1, 1), both coordinates over `LATTICE`.
#[derive(Clone, Copy, Debug, PartialEq, Eq)]
pub struct LensSample {
    pub x: i32,
    pub y: i32,
}

impl LensSample {
    /// Both coordinates lie in [-1, 1).
    pub open spec fn in_square(&self) -> bool {
        &&& -(LATTICE as int) <= self.x < LATTICE as int
        &&& -(LATTICE as int) <= self.y < LATTICE as int
    }

    /// The sample that two random words select, the first for x and the
    /// second for y.
    pub fn from_words(first: u32, second: u32) -> (s: LensSample)
        ensures
            s.x == spec_offset(first),
            s.y == spec_offset(second),
            s.in_square(),
    {
        LensSample { x: offset_of_word(first), y: offset_of_word(second) }
    }
}

/// The uniform sample that a word gives, as a numerator over `UNIT_STEPS`:
/// the word's upper 24 bits.
pub fn unit_of_word(word: u32) -> (k: u32)
    ensures
        k == spec_unit(word),
        k < UNIT_STEPS,
{
    let k: u32 = word >> 8;
    assert(k == word / 256 && k < 16_777_216) by (bit_vector)
        requires
            k == word >> 8,
    ;
    k
}

/// The offset in [-1, 1) that a word gives, as a numerator over `LATTICE`.
pub fn offset_of_word(word: u32) -> (n: i32)
    ensures
        n == spec_offset(word),
        -(LATTICE as int) <= n < LATTICE as int,
{
    let k: u32 = unit_of_word(word);
    k as i32 - LATTICE
}

/// The words that a generator will yield, by position: position 0 holds
/// the word that the next draw returns. `XorShiftRng` is deterministic:
/// its state fixes every word that follows.
pub uninterp spec fn upcoming(rng: XorShiftRng) -> Map<nat, u32>;

/// The word that the generator yields after `position` earlier draws.
pub open spec fn word_at(rng: XorShiftRng, position: nat) -> u32 {
    upcoming(rng)[position]
}

/// `after` is `before` moved on by `draws` words: what `before` would yield
/// from position `draws` on, `after` yields from position 0 on.
pub open spec fn advanced_by(before: XorShiftRng, after: XorShiftRng, draws: nat) -> bool {
    forall|position: nat| #[trigger]
        word_at(after, position) == word_at(before, (position + draws) as nat)
}

/// Draws the next word of the generator: `RngCore::next_u32` of
/// `XorShiftRng`, which computes the word from the four words of state
/// alone and replaces the state. The contract claims that much and no
/// more: the word is the first of those the generator had to come, and
/// the generator goes on with the rest. Which word that is, is not said.
#[verifier::external_body]
fn next_word(rng: &mut XorShiftRng) -> (word: u32)
    ensures
        word == upcoming(*old(rng))[0],
        advanced_by(*old(rng), *final(rng), 1),
{
    rand_core::RngCore::next_u32(rng)
}

/// Draws exactly two words from the generator and returns the lens sample
/// they select: the first word gives x, the second gives y. The generator
/// is left two words on. Whatever it yields, the sample lies in the square.
pub fn sample_lens(rng: &mut XorShiftRng) -> (s: LensSample)
    ensures
        s.x == spec_offset(word_at(*old(rng), 0)),
        s.y == spec_offset(word_at(*old(rng), 1)),
        advanced_by(*old(rng), *final(rng), 2),
        s.in_square(),
{
    let first: u32 = next_word(rng);
    let ghost between: XorShiftRng = *rng;
    let second: u32 = next_word(rng);
    proof {
        assert(second == word_at(between, 0));
    }
    LensSample::from_words(first, second)
}

/// The offset is the remapped uniform sample: with `u = k / 2^24`,
/// `n / 2^23 == (u - 1/2) * 2`, cleared of denominators.
pub proof fn lemma_offset_is_remapped_unit(word: u32)
    ensures
        0 <= spec_unit(word) < UNIT_STEPS as int,
        2 * spec_offset(word) == (2 * spec_unit(word) - UNIT_STEPS as int),
        -(LATTICE as int) <= spec_offset(word) < LATTICE as int,
{
    assert(word / 256 < 16_777_216) by (bit_vector);
}

/// A lens offset scaled by an aperture of half-width `aperture >= 0` stays
/// within the aperture: `|aperture * n / 2^23| <= aperture`, whatever was
/// drawn. With an aperture of zero the lens position is the origin for
/// every draw.
pub proof fn lemma_scaled_offset_within_aperture(aperture: int, word: u32)
    requires
        aperture >= 0,
    ensures
        -(aperture * LATTICE as int) <= aperture * spec_offset(word),
        aperture * spec_offset(word) <= aperture * LATTICE as int,
        aperture == 0 ==> aperture * spec_offset(word) == 0,
{
    lemma_offset_is_remapped_unit(word);
    let n: int = spec_offset(word);
    assert(-(aperture * 8_388_608) <= aperture * n <= aperture * 8_388_608) by (nonlinear_arith)
        requires
            aperture >= 0,
            -8_388_608 <= n < 8_388_608,
    ;
}

} // verus!
