//! The private pseudorandom stream of a worker and the order parameters drawn
//! from it.
use vstd::prelude::*;
use rand::rngs::StdRng;

verus! {

#[verifier::external_type_specification]
#[verifier::external_body]
pub struct ExStdRng(StdRng);

/// The `index`-th 64-bit word of the stream seeded with `seed`.
pub uninterp spec fn seeded_word(seed: u64, index: nat) -> u64;

/// The seed that a generator was created with.
pub uninterp spec fn rng_seed(r: StdRng) -> u64;

/// How many 64-bit words a generator has handed out.
pub uninterp spec fn rng_drawn(r: StdRng) -> nat;

/// Relies on `rand::SeedableRng::seed_from_u64`: a generator seeded from
/// `seed`, positioned at the start of its stream.
#[verifier::external_body]
fn new_seeded_rng(seed: u64) -> (r: StdRng)
    ensures
        rng_seed(r) == seed,
        rng_drawn(r) == 0,
{
    <StdRng as rand::SeedableRng>::seed_from_u64(seed)
}

/// Relies on `rand::Rng::gen::<u64>`, which is the generator's `next_u64`:
/// the next word of the seeded stream.
#[verifier::external_body]
fn next_word(r: &mut StdRng) -> (x: u64)
    ensures
        rng_seed(*final(r)) == rng_seed(*old(r)),
        rng_drawn(*final(r)) == rng_drawn(*old(r)) + 1,
        x == seeded_word(rng_seed(*old(r)), rng_drawn(*old(r))),
{
    <StdRng as rand::Rng>::gen::<u64>(r)
}

/// Remainder of `x` by `m` with the sign of `x`, the quotient rounded toward
/// zero (Rust's `%` on signed integers).
pub open spec fn trunc_rem(x: int, m: int) -> int {
    if x >= 0 {
        x % m
    } else {
        -((-x) % m)
    }
}

/// A raw word read as a signed 64-bit integer (two's complement).
pub open spec fn word_as_signed(w: u64) -> int {
    if w < 0x8000_0000_0000_0000 {
        w as int
    } else {
        w as int - 0x1_0000_0000_0000_0000
    }
}

/// Price offset from a raw word: the signed sample reduced modulo 100, sign
/// kept, so it lies in [-99, 99].
pub open spec fn offset_of(w: u64) -> int {
    trunc_rem(word_as_signed(w), 100)
}

/// Order size from a raw word: reduced modulo 1000, plus 10.
pub open spec fn size_of(w: u64) -> int {
    (w % 1000) as int + 10
}

/// The price offset drawn from the word `w`; see `offset_of`.
pub fn offset_from_word(w: u64) -> (r: i64)
    ensures
        r == offset_of(w),
        -99 <= r <= 99,
{
    if w < 0x8000_0000_0000_0000 {
        (w % 100) as i64
    } else {
        let magnitude: u64 = 0xFFFF_FFFF_FFFF_FFFF - w + 1;
        assert(word_as_signed(w) == -(magnitude as int));
        -((magnitude % 100) as i64)
    }
}

/// The order size drawn from the word `w`; see `size_of`.
pub fn size_from_word(w: u64) -> (r: u64)
    ensures
        r == size_of(w),
        10 <= r <= 1009,
{
    w % 1000 + 10
}

/// A worker's private stream of order parameters.
pub struct ParamStream {
    rng: StdRng,
}

impl ParamStream {
    /// The seed the stream was created with.
    pub closed spec fn seed(&self) -> u64 {
        rng_seed(self.rng)
    }

    /// How many words the stream has used.
    pub closed spec fn drawn(&self) -> nat {
        rng_drawn(self.rng)
    }

    /// A stream seeded with `seed`, at its start.
    pub fn new(seed: u64) -> (s: ParamStream)
        ensures
            s.seed() == seed,
            s.drawn() == 0,
    {
        ParamStream { rng: new_seeded_rng(seed) }
    }

    /// Draws one (offset, size) pair: the offset from the next word, then the
    /// size from the word after it.
    pub fn next_params(&mut self) -> (r: (i64, u64))
        ensures
            final(self).seed() == old(self).seed(),
            final(self).drawn() == old(self).drawn() + 2,
            r.0 == offset_of(seeded_word(old(self).seed(), old(self).drawn())),
            r.1 == size_of(seeded_word(old(self).seed(), old(self).drawn() + 1)),
    {
        let a = next_word(&mut self.rng);
        let b = next_word(&mut self.rng);
        (offset_from_word(a), size_from_word(b))
    }
}

} // verus!
