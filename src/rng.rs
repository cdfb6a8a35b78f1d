use vstd::prelude::*;
use rand::{RngCore, SeedableRng};
use rand_wyrand::WyRand;

verus! {

/// The first word that a WyRand generator started from `state` gives.
pub uninterp spec fn wyrand_word(state: u64) -> u64;

/// Relies on `WyRand::seed_from_u64` and `RngCore::next_u64` of rand-wyrand:
/// the generator's whole state is the seed, and its first output depends on
/// that state alone.
#[verifier::external_body]
pub(crate) fn first_word(state: u64) -> (r: u64)
    ensures
        r == wyrand_word(state),
{
    WyRand::seed_from_u64(state).next_u64()
}

pub const WORD_SPAN: u128 = 0x1_0000_0000_0000_0000;

/// Spacing between the states of consecutive draws of one sample.
pub const STREAM_STEP: u128 = 0x2545_F491_4F6C_DD1D;

/// Number of draws set aside for each bounce.
pub const DRAWS_PER_BOUNCE: u32 = 8;

/// The state of draw `k` at bounce `depth` of the sample keyed by `key`.
pub open spec fn stream_state(key: u64, depth: int, k: int) -> u64 {
    ((key as int + (depth * DRAWS_PER_BOUNCE + k + 1) * STREAM_STEP) % (WORD_SPAN as int)) as u64
}

/// A uniform fraction in `[0, ONE)` made of a word's top sixteen bits.
pub open spec fn unit_of(w: u64) -> i64 {
    (w / 0x1_0000_0000_0000) as i64
}

pub open spec fn draw_spec(key: u64, depth: int, k: int) -> i64 {
    unit_of(wyrand_word(stream_state(key, depth, k)))
}

/// Draw `k` of bounce `depth` for the sample keyed by `key`, in `[0, ONE)`.
pub fn draw(key: u64, depth: u32, k: u32) -> (r: i64)
    requires
        depth < 64,
        k < DRAWS_PER_BOUNCE,
    ensures
        r == draw_spec(key, depth as int, k as int),
        0 <= r < 65536,
{
    let st: u128 = (key as u128 + ((depth * DRAWS_PER_BOUNCE + k + 1) as u128) * STREAM_STEP)
        % WORD_SPAN;
    let w = first_word(st as u64);
    (w / 0x1_0000_0000_0000) as i64
}

} // verus!
