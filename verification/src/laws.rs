//! What holds of the draws for every seed and every pair of bounds.

use vstd::prelude::*;
use crate::generator::Rand;
use crate::mix::{
    drawn_bool, drawn_i32, drawn_i64, drawn_ranged_u32, drawn_ranged_u64, drawn_u32, drawn_u64,
    fold_into, high_of, low_of, mix32, mix_bool, next_seed_of, signed32, signed64, with_sign,
};

verus! {

/// The seed that a generator started from `seed` carries after `draws`
/// draws, of whatever kinds.
pub open spec fn seed_after(seed: u32, draws: nat) -> u32
    decreases draws,
{
    if draws == 0 {
        seed
    } else {
        next_seed_of(seed_after(seed, (draws - 1) as nat))
    }
}

/// Folding into a range lands inside it, both ends included, whatever the raw
/// number and whichever bound is the larger.
pub proof fn lemma_fold_into_contained(from: int, to: int, raw: int)
    ensures
        low_of(from, to) <= fold_into(from, to, raw) <= high_of(from, to),
{
    let count = high_of(from, to) - low_of(from, to) + 1;
    assert(0 <= raw % count < count) by (nonlinear_arith)
        requires
            count > 0,
    ;
}

/// Folding does not depend on the order in which the two bounds are given.
pub proof fn lemma_fold_into_symmetric(from: int, to: int, raw: int)
    ensures
        fold_into(from, to, raw) == fold_into(to, from, raw),
{
}

/// Folding into a range of one value gives that value.
pub proof fn lemma_fold_into_single(bound: int, raw: int)
    ensures
        fold_into(bound, bound, raw) == bound,
{
}

/// Folding a raw number that is smaller than the count of values in the range
/// adds it to the lower bound unchanged. In particular a draw over the full
/// range of its type is the raw draw itself.
pub proof fn lemma_fold_into_small(from: int, to: int, raw: int)
    requires
        0 <= raw <= high_of(from, to) - low_of(from, to),
    ensures
        fold_into(from, to, raw) == low_of(from, to) + raw,
{
    let count = high_of(from, to) - low_of(from, to) + 1;
    assert(raw % count == raw) by (nonlinear_arith)
        requires
            0 <= raw < count,
    ;
}

/// A ranged `u32` draw lies in the inclusive range between its bounds.
pub proof fn lemma_ranged_u32_contained(seed: u32, from: u32, to: u32)
    ensures
        low_of(from as int, to as int) <= drawn_ranged_u32(seed, from, to) <= high_of(
            from as int,
            to as int,
        ),
        0 <= drawn_ranged_u32(seed, from, to) <= u32::MAX,
{
    lemma_fold_into_contained(from as int, to as int, drawn_u32(seed) as int);
}

/// A ranged `u64` draw lies in the inclusive range between its bounds.
pub proof fn lemma_ranged_u64_contained(seed: u32, from: u64, to: u64)
    ensures
        low_of(from as int, to as int) <= drawn_ranged_u64(seed, from, to) <= high_of(
            from as int,
            to as int,
        ),
        0 <= drawn_ranged_u64(seed, from, to) <= u64::MAX,
{
    lemma_fold_into_contained(from as int, to as int, drawn_u64(seed) as int);
}

/// A ranged draw with its bounds exchanged gives the same value.
pub proof fn lemma_ranged_swap(seed: u32, from32: u32, to32: u32, from64: u64, to64: u64)
    ensures
        drawn_ranged_u32(seed, from32, to32) == drawn_ranged_u32(seed, to32, from32),
        drawn_ranged_u64(seed, from64, to64) == drawn_ranged_u64(seed, to64, from64),
{
}

/// A ranged draw between a bound and itself gives that bound.
pub proof fn lemma_ranged_single(seed: u32, bound32: u32, bound64: u64)
    ensures
        drawn_ranged_u32(seed, bound32, bound32) == bound32,
        drawn_ranged_u64(seed, bound64, bound64) == bound64,
{
}

/// A signed value made of a flag and a reading of some width stays in that
/// width: between `lowest` and `-lowest - 1`. It is never positive where the
/// flag is set, and where the flag is clear it is negative only for the
/// reading `lowest`, which the wrapping absolute value leaves as it is.
pub proof fn lemma_with_sign_bounds(negative: bool, reading: int, lowest: int)
    requires
        lowest < 0,
        lowest <= reading < -lowest,
    ensures
        lowest <= with_sign(negative, reading, lowest) < -lowest,
        negative ==> with_sign(negative, reading, lowest) <= 0,
        !negative && reading != lowest ==> with_sign(negative, reading, lowest) >= 0,
        reading == lowest ==> with_sign(negative, reading, lowest) == lowest,
        reading != lowest ==> with_sign(negative, reading, lowest) == reading || with_sign(
            negative,
            reading,
            lowest,
        ) == -reading,
{
}

/// Every seed gives an `i32` draw and an `i64` draw that fit their types, with
/// the sign that the flag of the seed asks for; the one exception is a raw
/// reading of the most negative value, which is drawn as it is.
pub proof fn lemma_signed_draws_defined(seed: u32)
    ensures
        i32::MIN <= drawn_i32(seed) <= i32::MAX,
        i64::MIN <= drawn_i64(seed) <= i64::MAX,
        mix_bool(seed) ==> drawn_i32(seed) <= 0 && drawn_i64(seed) <= 0,
        !mix_bool(seed) ==> drawn_i32(seed) >= 0 || drawn_i32(seed) == i32::MIN,
        !mix_bool(seed) ==> drawn_i64(seed) >= 0 || drawn_i64(seed) == i64::MIN,
{
    lemma_with_sign_bounds(mix_bool(seed), signed32(drawn_u32(seed)), i32::MIN as int);
    lemma_with_sign_bounds(mix_bool(seed), signed64(drawn_u64(seed)), i64::MIN as int);
}

/// One more draw moves the seed one mix further.
pub proof fn lemma_seed_after_step(seed: u32, draws: nat)
    ensures
        seed_after(seed, draws + 1) == mix32(seed_after(seed, draws)),
        seed_after(seed, draws + 1) == seed_after(mix32(seed), draws),
    decreases draws,
{
    if draws > 0 {
        lemma_seed_after_step(seed, (draws - 1) as nat);
    }
}

/// Two generators with the same seed are the same generator, and stay in step:
/// after the same number of draws of any kinds they carry the same seed, and
/// so give the same value to a draw of any kind.
pub proof fn lemma_same_seed_same_draws(a: Rand, b: Rand, draws: nat)
    requires
        a.wf(),
        b.wf(),
        a@ == b@,
    ensures
        a == b,
        seed_after(a@, draws) == seed_after(b@, draws),
        drawn_bool(seed_after(a@, draws)) == drawn_bool(seed_after(b@, draws)),
        drawn_u32(seed_after(a@, draws)) == drawn_u32(seed_after(b@, draws)),
        drawn_u64(seed_after(a@, draws)) == drawn_u64(seed_after(b@, draws)),
        drawn_i32(seed_after(a@, draws)) == drawn_i32(seed_after(b@, draws)),
        drawn_i64(seed_after(a@, draws)) == drawn_i64(seed_after(b@, draws)),
{
    Rand::lemma_seed_fixes_generator(a, b);
}

} // verus!
