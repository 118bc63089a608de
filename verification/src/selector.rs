//! The pseudorandom selector of answers.
//!
//! The selector owns a small generator from the `rand` crate, seeded once at
//! boot. Each selection draws one raw output and reduces it into the table.
//! The generator is documented as deterministic for a given platform and
//! library version only, so nothing is claimed here of the numbers it draws:
//! what is proved holds for every number it could draw.

use vstd::prelude::*;
use rand::rngs::SmallRng;
use rand::{RngCore, SeedableRng};
use crate::index::{AnswerIndex, ANSWER_COUNT};

verus! {

/// The seed used when no entropy reading is available.
pub const DEFAULT_SEED: u64 = 0x0101030308080909;

/// The generator `SmallRng` of `rand`, carried through as an opaque value.
#[verifier::external_type_specification]
#[verifier::external_body]
pub struct ExSmallRng(SmallRng);

/// Calls `SmallRng::seed_from_u64` of `rand`, which accepts every seed and
/// returns a generator. The generator is opaque, so nothing is claimed of it.
#[verifier::external_body]
fn seeded_generator(seed: u64) -> (rng: SmallRng) {
    SmallRng::seed_from_u64(seed)
}

/// Calls `RngCore::next_u32` on a `SmallRng` of `rand`, which advances the
/// generator and never fails. Nothing is claimed of the number drawn, nor of
/// the generator afterwards.
#[verifier::external_body]
fn draw_raw(rng: &mut SmallRng) -> (raw: u32) {
    rng.next_u32()
}

/// The seed made of a temperature sample and a reference-voltage sample:
/// their product in 16-bit two's complement, sign-extended to 64 bits.
pub open spec fn entropy_seed(temperature: i16, reference: u16) -> u64 {
    temperature.wrapping_mul(reference as i16) as i64 as u64
}

/// The seed to boot with: made of the entropy readings where there are any,
/// the fixed default otherwise.
pub open spec fn boot_seed(readings: Option<(i16, u16)>) -> u64 {
    match readings {
        Some((temperature, reference)) => entropy_seed(temperature, reference),
        None => DEFAULT_SEED,
    }
}

/// Combines a temperature sample and a reference-voltage sample into a seed.
pub fn seed_from_readings(temperature: i16, reference: u16) -> (seed: u64)
    ensures
        seed == entropy_seed(temperature, reference),
{
    let narrowed: i16 = #[verifier::truncate] (reference as i16);
    let product: i16 = temperature.wrapping_mul(narrowed);
    let wide: i64 = product as i64;
    #[verifier::truncate] (wide as u64)
}

/// Chooses the seed to boot with.
pub fn choose_seed(readings: Option<(i16, u16)>) -> (seed: u64)
    ensures
        seed == boot_seed(readings),
{
    match readings {
        Some((temperature, reference)) => seed_from_readings(temperature, reference),
        None => DEFAULT_SEED,
    }
}

/// A seeded generator of answer indices.
pub struct Selector {
    rng: SmallRng,
    seed: Ghost<u64>,
    draws: Ghost<nat>,
}

/// What is known of a selector: the seed that its generator was started
/// from, and how many indices have been drawn from it since.
pub struct SelectorView {
    pub seed: u64,
    pub draws: nat,
}

impl View for Selector {
    type V = SelectorView;

    closed spec fn view(&self) -> SelectorView {
        SelectorView { seed: self.seed@, draws: self.draws@ }
    }
}

impl Selector {
    /// A selector whose generator starts from `seed`.
    pub fn from_seed(seed: u64) -> (selector: Selector)
        ensures
            selector@ == (SelectorView { seed, draws: 0 }),
    {
        Selector { rng: seeded_generator(seed), seed: Ghost(seed), draws: Ghost(0) }
    }

    /// A selector seeded for boot: from the entropy readings where there are
    /// any, from [`DEFAULT_SEED`] otherwise.
    pub fn at_boot(readings: Option<(i16, u16)>) -> (selector: Selector)
        ensures
            selector@ == (SelectorView { seed: boot_seed(readings), draws: 0 }),
    {
        Selector::from_seed(choose_seed(readings))
    }

    /// Draws one raw output from the generator and reduces it into the table.
    /// Whatever the generator draws, the result is an index of the table.
    pub fn next_index(&mut self) -> (idx: AnswerIndex)
        ensures
            idx@ < ANSWER_COUNT,
            idx.in_domain(),
            final(self)@ == (SelectorView { seed: old(self)@.seed, draws: old(self)@.draws + 1 }),
    {
        let raw: u32 = draw_raw(&mut self.rng);
        proof {
            self.draws@ = self.draws@ + 1;
        }
        AnswerIndex::reduce(raw)
    }
}

} // verus!
