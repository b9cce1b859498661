//! Random message payloads.
//!
//! Replies to unrecognized commands and every broadcast message carry a
//! randomized payload.  A payload is a plain byte buffer: its bytes are
//! drawn uniformly and it is *not* guaranteed to be well-formed text
//! under any encoding, so only its length is ever specified.  One
//! pseudorandom source is cached across calls for performance.

use vstd::prelude::*;

verus! {

/// Exclusive upper bound on the length of a generated payload, in bytes.
pub const MAX_MESSAGE_LEN: usize = 1372;

/// Declares `rand::rngs::ThreadRng` so a handle to the generator can be
/// held in a field; the value is opaque to the verifier.
#[verifier::external_type_specification]
#[verifier::external_body]
pub struct ExThreadRng(rand::rngs::ThreadRng);

/// Relies on `rand::thread_rng`: returns a handle to the thread-local
/// pseudorandom generator.
#[verifier::external_body]
fn fresh_rng() -> rand::rngs::ThreadRng {
    rand::thread_rng()
}

/// Relies on `rand::Rng::gen_range`: a value drawn uniformly from the
/// half-open range `[0, bound)`.  The call panics on an empty range, so a
/// positive bound is required.
#[verifier::external_body]
fn rand_below(rng: &mut rand::rngs::ThreadRng, bound: usize) -> (r: usize)
    requires
        bound > 0,
    ensures
        r < bound,
{
    rand::Rng::gen_range(rng, 0..bound)
}

/// Relies on `rand::Rng::gen::<u8>`: one byte drawn from the full byte
/// range.
#[verifier::external_body]
fn rand_byte(rng: &mut rand::rngs::ThreadRng) -> u8 {
    rand::Rng::gen(rng)
}

/// The source of randomized payloads, holding the cached pseudorandom
/// generator.
pub struct RandomTextGenerator {
    rng: rand::rngs::ThreadRng,
}

impl RandomTextGenerator {
    /// A generator backed by the thread-local pseudorandom source.
    pub fn new() -> Self {
        RandomTextGenerator { rng: fresh_rng() }
    }

    /// Draw the length for one payload: uniform in `[0, MAX_MESSAGE_LEN)`.
    pub fn draw_len(&mut self) -> (n: usize)
        ensures
            n < MAX_MESSAGE_LEN,
    {
        rand_below(&mut self.rng, MAX_MESSAGE_LEN)
    }

    /// A buffer of exactly `len` bytes, each drawn independently and
    /// uniformly from the full byte range.
    pub fn payload(&mut self, len: usize) -> (v: Vec<u8>)
        ensures
            v@.len() == len,
    {
        let mut v: Vec<u8> = Vec::new();
        let mut i: usize = 0;
        while i < len
            invariant
                i <= len,
                v@.len() == i,
            decreases len - i,
        {
            v.push(rand_byte(&mut self.rng));
            i = i + 1;
        }
        v
    }

    /// One complete random message: a payload whose length is drawn
    /// independently for this call, always shorter than
    /// `MAX_MESSAGE_LEN` bytes.
    pub fn random_message(&mut self) -> (v: Vec<u8>)
        ensures
            v@.len() < MAX_MESSAGE_LEN,
    {
        let len = self.draw_len();
        self.payload(len)
    }
}

} // verus!
