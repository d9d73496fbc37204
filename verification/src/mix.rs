//! The integer mixing function that drives the generator, and the value of
//! every kind of draw, as mathematics.
//!
//! The mix scrambles a 32-bit seed in five steps. Additions and
//! multiplications are taken modulo two to the power of the working width, so
//! nothing ever overflows. A draw from a generator with seed `s` moves the
//! generator to seed `mix32(s)` and reads its value off the mix of that new
//! seed.

use vstd::prelude::*;

verus! {

/// The odd constant that the mix multiplies by.
pub const MIX_FACTOR: u32 = 0x27d4eb2d;

/// Two to the power 32.
pub open spec fn span32() -> int {
    0x1_0000_0000
}

/// Two to the power 64.
pub open spec fn span64() -> int {
    0x1_0000_0000_0000_0000
}

/// The 32-bit mix of `seed`.
pub open spec fn mix32(seed: u32) -> u32 {
    let a: u32 = (seed ^ 61) ^ (seed >> 16);
    let b: u32 = ((a + (a << 3)) % span32()) as u32;
    let c: u32 = b ^ (b >> 4);
    let d: u32 = ((c * MIX_FACTOR) % span32()) as u32;
    d ^ (d >> 15)
}

/// The 64-bit mix of `seed`: the same five steps on the seed widened to 64 bits.
pub open spec fn mix64(seed: u32) -> u64 {
    let n: u64 = seed as u64;
    let a: u64 = (n ^ 61) ^ (n >> 16);
    let b: u64 = ((a + (a << 3)) % span64()) as u64;
    let c: u64 = b ^ (b >> 4);
    let d: u64 = ((c * MIX_FACTOR) % span64()) as u64;
    d ^ (d >> 15)
}

/// The boolean read off `seed`: whether its 32-bit mix lies strictly below
/// `u32::MAX / 2`.
///
/// `u32::MAX` is odd, so the threshold is one short of the midpoint: of the
/// 2^32 values that a mix can take, 2^31 - 1 give `true` and 2^31 + 1 give
/// `false`.
pub open spec fn mix_bool(seed: u32) -> bool {
    mix32(seed) < u32::MAX / 2
}

/// `n` read as a 32-bit two's-complement number.
pub open spec fn signed32(n: u32) -> int {
    if n <= i32::MAX {
        n as int
    } else {
        n - span32()
    }
}

/// `n` read as a 64-bit two's-complement number.
pub open spec fn signed64(n: u64) -> int {
    if n <= i64::MAX {
        n as int
    } else {
        n - span64()
    }
}

/// The absolute value of `x`, except that `lowest`, which has no positive
/// counterpart in its width, is its own absolute value.
pub open spec fn wrapping_abs(x: int, lowest: int) -> int {
    if x == lowest {
        lowest
    } else if x < 0 {
        -x
    } else {
        x
    }
}

/// The negation of `x`, except that `lowest` is its own negation.
pub open spec fn wrapping_neg(x: int, lowest: int) -> int {
    if x == lowest {
        lowest
    } else {
        -x
    }
}

/// The signed value made of a sign flag and a raw two's-complement reading:
/// the wrapping absolute value of `reading`, negated where `negative` is set.
pub open spec fn with_sign(negative: bool, reading: int, lowest: int) -> int {
    let magnitude = wrapping_abs(reading, lowest);
    if negative {
        wrapping_neg(magnitude, lowest)
    } else {
        magnitude
    }
}

/// The smaller of two bounds.
pub open spec fn low_of(from: int, to: int) -> int {
    if from > to {
        to
    } else {
        from
    }
}

/// The larger of two bounds.
pub open spec fn high_of(from: int, to: int) -> int {
    if from > to {
        from
    } else {
        to
    }
}

/// `raw` folded into the inclusive range between `from` and `to`, whichever
/// of the two is the larger: the lower bound plus `raw` modulo the number of
/// values in the range.
pub open spec fn fold_into(from: int, to: int, raw: int) -> int {
    let low = low_of(from, to);
    let high = high_of(from, to);
    low + raw % (high - low + 1)
}

/// The seed of the generator that any draw returns for a generator with
/// seed `seed`.
pub open spec fn next_seed_of(seed: u32) -> u32 {
    mix32(seed)
}

/// The `u32` drawn from a generator with seed `seed`.
pub open spec fn drawn_u32(seed: u32) -> u32 {
    mix32(next_seed_of(seed))
}

/// The `u64` drawn from a generator with seed `seed`.
pub open spec fn drawn_u64(seed: u32) -> u64 {
    mix64(next_seed_of(seed))
}

/// The `bool` drawn from a generator with seed `seed`.
pub open spec fn drawn_bool(seed: u32) -> bool {
    mix_bool(next_seed_of(seed))
}

/// The `i32` drawn from a generator with seed `seed`. The sign flag is read
/// off the seed before the step, the magnitude off the seed after it.
pub open spec fn drawn_i32(seed: u32) -> int {
    with_sign(mix_bool(seed), signed32(drawn_u32(seed)), i32::MIN as int)
}

/// The `i64` drawn from a generator with seed `seed`. The sign flag is read
/// off the seed before the step, the magnitude off the seed after it.
pub open spec fn drawn_i64(seed: u32) -> int {
    with_sign(mix_bool(seed), signed64(drawn_u64(seed)), i64::MIN as int)
}

/// The `u32` drawn from a generator with seed `seed` for the inclusive range
/// between `from` and `to`.
pub open spec fn drawn_ranged_u32(seed: u32, from: u32, to: u32) -> int {
    fold_into(from as int, to as int, drawn_u32(seed) as int)
}

/// The `u64` drawn from a generator with seed `seed` for the inclusive range
/// between `from` and `to`.
pub open spec fn drawn_ranged_u64(seed: u32, from: u64, to: u64) -> int {
    fold_into(from as int, to as int, drawn_u64(seed) as int)
}

} // verus!
