//! Identifier generation from a per-owner pseudo-random generator.
use vstd::prelude::*;

use crate::span::{next_id, TraceId};

verus! {

pub open spec fn rotl55(x: u64) -> u64 {
    (x << 55u64) | (x >> 9u64)
}

pub open spec fn rotl36(x: u64) -> u64 {
    (x << 36u64) | (x >> 28u64)
}

/// The output of xoroshiro128+ in state `s`: the sum of its two words,
/// modulo 2^64.
pub open spec fn xoroshiro_output(s: (u64, u64)) -> u64 {
    ((s.0 as int + s.1 as int) % 0x1_0000_0000_0000_0000) as u64
}

/// The state of xoroshiro128+ after one step from `s`.
pub open spec fn xoroshiro_step(s: (u64, u64)) -> (u64, u64) {
    let x = s.1 ^ s.0;
    (rotl55(s.0) ^ x ^ (x << 14u64), rotl36(x))
}

/// A source of random identifiers: a xoroshiro128+ generator (the one of
/// the `xoroshiro128` crate, written out here, since a step is a few
/// word operations). Each owner seeds its own once, so drawing ids takes
/// no lock and reseeds nothing, and equal seeds give equal sequences.
pub struct IdGenerator {
    s0: u64,
    s1: u64,
}

impl IdGenerator {
    /// The generator's state.
    pub closed spec fn state(&self) -> (u64, u64) {
        (self.s0, self.s1)
    }

    /// A generator seeded from the thread-local generator of `rand`.
    pub fn new() -> (r: IdGenerator)
        ensures
            r.state() != (0u64, 0u64),
    {
        let s0 = next_id();
        let s1 = next_id();
        IdGenerator::from_seed(s0, s1)
    }

    /// A generator with a fixed seed, for reproducible identifiers. An
    /// all-zero seed, from which the generator would only give zeros, is
    /// taken as `[0, 1]`.
    pub fn from_seed(s0: u64, s1: u64) -> (r: IdGenerator)
        ensures
            r.state() == (if s0 == 0 && s1 == 0 {
                (0u64, 1u64)
            } else {
                (s0, s1)
            }),
    {
        let s1 = if s0 == 0 && s1 == 0 { 1 } else { s1 };
        IdGenerator { s0, s1 }
    }

    /// The next output of the generator, which steps once.
    pub fn next_id(&mut self) -> (r: u64)
        ensures
            r == xoroshiro_output(old(self).state()),
            final(self).state() == xoroshiro_step(old(self).state()),
    {
        let s0 = self.s0;
        let s1 = self.s1;
        let result: u64 = if s0 <= u64::MAX - s1 {
            s0 + s1
        } else {
            (s0 as u128 + s1 as u128 - 0x1_0000_0000_0000_0000) as u64
        };
        let x = s1 ^ s0;
        self.s0 = ((s0 << 55u64) | (s0 >> 9u64)) ^ x ^ (x << 14u64);
        self.s1 = (x << 36u64) | (x >> 28u64);
        result
    }

    /// A fresh 128-bit trace id: the next two outputs, low half first.
    pub fn trace_id(&mut self) -> (r: TraceId)
        ensures
            r.lo == xoroshiro_output(old(self).state()),
            r.hi == Some(xoroshiro_output(xoroshiro_step(old(self).state()))),
            final(self).state() == xoroshiro_step(xoroshiro_step(old(self).state())),
    {
        let lo = self.next_id();
        let hi = self.next_id();
        TraceId { lo, hi: Some(hi) }
    }
}

} // verus!
