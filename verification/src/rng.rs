use vstd::prelude::*;

verus! {

/// Declares smrng's generator state so that contracts can speak of its
/// fields: the current 16-bit seed, the byte-swap flag, and the number of
/// generator calls made per simulated frame.
#[verifier::external_type_specification]
pub struct ExRng(smrng::Rng);

/// The seed-update permutation of the generator, stated exactly as
/// smrng::rng::rng1 computes it: each byte of the seed is multiplied by 5,
/// a carry constant is added, and the 16-bit overflow is folded back in.
pub open spec fn spec_rng1(seed: u16) -> u16 {
    let lo = ((seed & 0xFF) * 5) as u32;
    let hi = ((((seed >> 8) * 5) as u16) & 0xFF) as u32;
    let sum = (lo + (hi << 8) + 0x100) as u32;
    ((((sum >> 16) + sum + 0x11) as u32) & 0xFFFF) as u16
}

/// Relies on smrng::rng::rng1: a pure function of the 16-bit seed.
pub assume_specification[ smrng::rng::rng1 ](seed: u16) -> (r: u16)
    ensures
        r == spec_rng1(seed),
;

/// Relies on smrng::Rng::roll: replaces the seed by rng1 of it and
/// returns the new seed; the other fields are untouched.
pub assume_specification[ smrng::Rng::roll ](rng: &mut smrng::Rng) -> (r: u16)
    ensures
        final(rng).seed == spec_rng1(old(rng).seed),
        r == final(rng).seed,
        final(rng).xba == old(rng).xba,
        final(rng).calls_per_frame == old(rng).calls_per_frame,
;

/// Relies on smrng::Rng::read: returns the current seed without advancing.
pub assume_specification[ smrng::Rng::read ](rng: &smrng::Rng) -> (r: u16)
    ensures
        r == rng.seed,
;

/// How the seed looks after `n` generator calls in a row.
pub open spec fn seed_after_calls(seed: u16, n: nat) -> u16
    decreases n,
{
    if n == 0 {
        seed
    } else {
        spec_rng1(seed_after_calls(seed, (n - 1) as nat))
    }
}

/// The per-frame seed update: `calls_per_frame` generator calls, then a
/// byte swap when the room swaps seed bytes each frame.
pub open spec fn spec_frame_advance(seed: u16, calls_per_frame: nat, xba: bool) -> u16 {
    let s = seed_after_calls(seed, calls_per_frame);
    if xba {
        ((s >> 8) | ((s & 0xFF) << 8)) as u16
    } else {
        s
    }
}

/// Relies on smrng::Rng::frame_advance: rolls `calls_per_frame` times and
/// swaps the seed's bytes when `xba` is set.
pub assume_specification[ smrng::Rng::frame_advance ](rng: &mut smrng::Rng)
    ensures
        final(rng).seed == spec_frame_advance(
            old(rng).seed,
            old(rng).calls_per_frame as nat,
            old(rng).xba,
        ),
        final(rng).xba == old(rng).xba,
        final(rng).calls_per_frame == old(rng).calls_per_frame,
;

/// Relies on smrng::Rng::with_seed: a copy of the configuration with a
/// fresh seed.
pub assume_specification[ smrng::Rng::with_seed ](rng: &smrng::Rng, seed: u16) -> (r: smrng::Rng)
    ensures
        r.seed == seed,
        r.xba == rng.xba,
        r.calls_per_frame == rng.calls_per_frame,
;

/// The seed-update permutation, executable: the same function of the seed
/// that the generator applies on every roll, for callers that need the
/// next seed as a plain value.
pub fn seed_update(seed: u16) -> (r: u16)
    ensures
        r == spec_rng1(seed),
{
    proof {
        assert(seed & 0xFF <= 0xFF) by (bit_vector);
        assert(seed >> 8 <= 0xFF) by (bit_vector);
    }
    let lo: u32 = ((seed & 0xFF) * 5) as u32;
    let hi: u32 = (((seed >> 8) * 5) & 0xFF) as u32;
    proof {
        assert((((seed >> 8) * 5) as u16) & 0xFF <= 0xFF) by (bit_vector);
        assert(hi <= 0xFF ==> hi << 8 <= 0xFF00) by (bit_vector);
    }
    let sum: u32 = lo + (hi << 8) + 0x100;
    proof {
        assert(sum <= 0x10500 ==> sum >> 16 <= 1) by (bit_vector);
    }
    let folded: u32 = (sum >> 16) + sum + 0x11;
    proof {
        assert(folded & 0xFFFF <= 0xFFFF) by (bit_vector);
    }
    (folded & 0xFFFF) as u16
}

/// Relies on smrng::Rng::RESET: the post-reset configuration — seed 0x61,
/// no per-frame byte swap, one generator call per frame.
#[verifier::external_body]
pub fn rng_reset() -> (r: smrng::Rng)
    ensures
        r.seed == 0x61,
        !r.xba,
        r.calls_per_frame == 1,
{
    smrng::Rng::RESET
}

} // verus!
