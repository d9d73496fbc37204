//! The generator value and its draws.

use vstd::prelude::*;
use crate::mix::{
    drawn_bool, drawn_i32, drawn_i64, drawn_ranged_u32, drawn_ranged_u64, drawn_u32, drawn_u64,
    high_of, low_of, mix32, mix64, mix_bool, next_seed_of, signed32, signed64, MIX_FACTOR,
};

verus! {

/// The state of a generator. No operation changes a `Rand`; each draw returns
/// a new one.
///
/// Besides its seed a `Rand` keeps the mix of that seed, which is the seed of
/// the generator that the next draw returns.
#[derive(Clone, Copy, Debug, PartialEq, Eq, Structural)]
pub struct Rand {
    curr_seed: u32,
    next_seed: u32,
}

impl View for Rand {
    type V = u32;

    /// A generator is modelled by its seed.
    closed spec fn view(&self) -> u32 {
        self.curr_seed
    }
}

impl Rand {
    /// The cached second field really is the mix of the seed.
    #[verifier::type_invariant]
    pub closed spec fn wf(self) -> bool {
        self.next_seed == mix32(self.curr_seed)
    }

    /// A well-formed generator is fixed by its seed: two of them with the same
    /// seed are the same value.
    pub proof fn lemma_seed_fixes_generator(a: Rand, b: Rand)
        requires
            a.wf(),
            b.wf(),
            a@ == b@,
        ensures
            a == b,
    {
    }

    /// Scrambles `seed` into a 32-bit value.
    pub fn secret_u32(seed: u32) -> (n: u32)
        ensures
            n == mix32(seed),
    {
        let n: u32 = (seed ^ 61) ^ (seed >> 16);
        let n: u32 = n.wrapping_add(n << 3);
        let n: u32 = n ^ (n >> 4);
        let n: u32 = n.wrapping_mul(MIX_FACTOR);
        n ^ (n >> 15)
    }

    /// Scrambles `seed` into a 64-bit value.
    pub fn secret_u64(seed: u32) -> (n: u64)
        ensures
            n == mix64(seed),
    {
        let n: u64 = seed as u64;
        let n: u64 = (n ^ 61) ^ (n >> 16);
        let n: u64 = n.wrapping_add(n << 3);
        let n: u64 = n ^ (n >> 4);
        let n: u64 = n.wrapping_mul(MIX_FACTOR as u64);
        n ^ (n >> 15)
    }

    /// Scrambles `seed` into a boolean: `true` when the 32-bit mix is strictly
    /// below `u32::MAX / 2`.
    pub fn secret_bool(seed: u32) -> (b: bool)
        ensures
            b == mix_bool(seed),
    {
        Rand::secret_u32(seed) < u32::MAX / 2
    }

    /// A generator with the given seed.
    pub fn new(seed: u32) -> (r: Rand)
        ensures
            r@ == seed,
            r.wf(),
    {
        Rand { curr_seed: seed, next_seed: Rand::secret_u32(seed) }
    }

    /// The seed of this generator.
    pub fn seed(&self) -> (s: u32)
        ensures
            s == self@,
    {
        self.curr_seed
    }

    /// The next generator and a `u32`.
    pub fn next_u32(&self) -> (res: (Rand, u32))
        ensures
            res.0@ == next_seed_of(self@),
            res.0.wf(),
            res.1 == drawn_u32(self@),
    {
        proof {
            use_type_invariant(self);
        }
        (Rand::new(self.next_seed), Rand::secret_u32(self.next_seed))
    }

    /// The next generator and a `u64`.
    pub fn next_u64(&self) -> (res: (Rand, u64))
        ensures
            res.0@ == next_seed_of(self@),
            res.0.wf(),
            res.1 == drawn_u64(self@),
    {
        proof {
            use_type_invariant(self);
        }
        (Rand::new(self.next_seed), Rand::secret_u64(self.next_seed))
    }

    /// The next generator and a `bool`: `true` when the freshly mixed 32-bit
    /// value is strictly below `u32::MAX / 2`, which is one short of the
    /// midpoint.
    pub fn next_bool(&self) -> (res: (Rand, bool))
        ensures
            res.0@ == next_seed_of(self@),
            res.0.wf(),
            res.1 == drawn_bool(self@),
    {
        proof {
            use_type_invariant(self);
        }
        (Rand::new(self.next_seed), Rand::secret_bool(self.next_seed))
    }

    /// The next generator and an `i32`.
    ///
    /// The sign flag comes from this generator's own seed, the magnitude from
    /// the next one's. The magnitude is a wrapping absolute value, so where
    /// the raw reading is `i32::MIN` the drawn value is `i32::MIN` whatever
    /// the sign flag says.
    pub fn next_i32(&self) -> (res: (Rand, i32))
        ensures
            res.0@ == next_seed_of(self@),
            res.0.wf(),
            res.1 == drawn_i32(self@),
    {
        proof {
            use_type_invariant(self);
        }
        let is_negative = Rand::secret_bool(self.curr_seed);
        let raw: u32 = Rand::secret_u32(self.next_seed);
        let reading: i32 = #[verifier::truncate] (raw as i32);
        assert(reading == signed32(raw)) by (bit_vector)
            requires
                reading == raw as i32,
        ;
        let magnitude: i32 = if reading == i32::MIN {
            reading
        } else if reading < 0 {
            -reading
        } else {
            reading
        };
        let result: i32 = if is_negative && magnitude != i32::MIN {
            -magnitude
        } else {
            magnitude
        };
        (Rand::new(self.next_seed), result)
    }

    /// The next generator and an `i64`.
    ///
    /// The sign flag comes from this generator's own seed, the magnitude from
    /// the next one's. The magnitude is a wrapping absolute value, so where
    /// the raw reading is `i64::MIN` the drawn value is `i64::MIN` whatever
    /// the sign flag says.
    pub fn next_i64(&self) -> (res: (Rand, i64))
        ensures
            res.0@ == next_seed_of(self@),
            res.0.wf(),
            res.1 == drawn_i64(self@),
    {
        proof {
            use_type_invariant(self);
        }
        let is_negative = Rand::secret_bool(self.curr_seed);
        let raw: u64 = Rand::secret_u64(self.next_seed);
        let reading: i64 = #[verifier::truncate] (raw as i64);
        assert(reading == signed64(raw)) by (bit_vector)
            requires
                reading == raw as i64,
        ;
        let magnitude: i64 = if reading == i64::MIN {
            reading
        } else if reading < 0 {
            -reading
        } else {
            reading
        };
        let result: i64 = if is_negative && magnitude != i64::MIN {
            -magnitude
        } else {
            magnitude
        };
        (Rand::new(self.next_seed), result)
    }

    /// The next generator and a `u32` in the inclusive range between `from`
    /// and `to`.
    ///
    /// The bounds may come in either order: the smaller one is taken as the
    /// lower end. The value is the lower end plus the drawn `u32` modulo the
    /// number of values in the range, so it is not perfectly uniform where
    /// that number does not divide 2^32. Over the full range of `u32` the
    /// drawn number is returned as it is.
    pub fn next_ranged_u32(&self, from: u32, to: u32) -> (res: (Rand, u32))
        ensures
            res.0@ == next_seed_of(self@),
            res.0.wf(),
            res.1 == drawn_ranged_u32(self@, from, to),
            low_of(from as int, to as int) <= res.1 <= high_of(from as int, to as int),
    {
        let (r, n) = self.next_u32();
        let (low, high) = if from > to {
            (to, from)
        } else {
            (from, to)
        };
        let width: u32 = high - low;
        let result: u32 = if width == u32::MAX {
            assert(n as int % (width + 1) == n) by (nonlinear_arith)
                requires
                    0 <= n <= width,
            ;
            n
        } else {
            assert(0 <= n as int % (width + 1) <= width) by (nonlinear_arith)
                requires
                    0 <= width,
            ;
            low + n % (width + 1)
        };
        (r, result)
    }

    /// The next generator and a `u64` in the inclusive range between `from`
    /// and `to`.
    ///
    /// The bounds may come in either order: the smaller one is taken as the
    /// lower end. The value is the lower end plus the drawn `u64` modulo the
    /// number of values in the range, so it is not perfectly uniform where
    /// that number does not divide 2^64. Over the full range of `u64` the
    /// drawn number is returned as it is.
    pub fn next_ranged_u64(&self, from: u64, to: u64) -> (res: (Rand, u64))
        ensures
            res.0@ == next_seed_of(self@),
            res.0.wf(),
            res.1 == drawn_ranged_u64(self@, from, to),
            low_of(from as int, to as int) <= res.1 <= high_of(from as int, to as int),
    {
        let (r, n) = self.next_u64();
        let (low, high) = if from > to {
            (to, from)
        } else {
            (from, to)
        };
        let width: u64 = high - low;
        let result: u64 = if width == u64::MAX {
            assert(n as int % (width + 1) == n) by (nonlinear_arith)
                requires
                    0 <= n <= width,
            ;
            n
        } else {
            assert(0 <= n as int % (width + 1) <= width) by (nonlinear_arith)
                requires
                    0 <= width,
            ;
            low + n % (width + 1)
        };
        (r, result)
    }

    /// The warning for a ranged draw whose `from` was greater than its `to`.
    pub fn err_switch() -> (msg: String)
        ensures
            msg@ == "Function next_ranged_* had parameter `from` greater than parameter\n `to`. So to not panic, the parameters have been switched.\n  Do fix this."@,
    {
        "Function next_ranged_* had parameter `from` greater than parameter\n `to`. So to not panic, the parameters have been switched.\n  Do fix this.".to_owned()
    }
}

} // verus!
