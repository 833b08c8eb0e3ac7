//! The deterministic stream: a ChaCha20 generator addressed by a seed and a
//! word cursor.
//!
//! The stream is held as those two values. A draw builds the generator at that
//! place, takes one uniform sample and notes where the generator then stands, so
//! the pair says everything about what the stream will yield.

use vstd::prelude::*;
use rand::Rng;
use rand::SeedableRng;
use rand_chacha::ChaCha20Rng;
use crate::seed::Seed;

verus! {

/// The stream has 2^68 words: a cursor is always below this number.
pub const CURSOR_LIMIT: u128 = 0x10_0000_0000_0000_0000;

/// What one inclusive uniform integer draw gives on the stream of `seed` at
/// `cursor`: the value, and the cursor after the draw.
pub uninterp spec fn integer_draw(seed: Seq<u8>, cursor: u128, minimum: i64, maximum: i64) -> (
    i64,
    u128,
);

/// Builds the generator with `ChaCha20Rng::from_seed`, places it with
/// `set_word_pos`, draws with `Rng::gen_range` on the inclusive range and
/// reads the new place with `get_word_pos`.
///
/// The outcome depends on the four arguments alone, which is all that the name
/// [`integer_draw`] says. Besides, `gen_range` returns a value of the range it
/// is given and panics on an empty one, and `get_word_pos` returns a number of
/// 68 bits. `gen_range` takes words from the stream until it accepts one, and
/// accepts each with a probability of at least one half.
#[verifier::external_body]
fn draw_integer_at(seed: [u8; 32], cursor: u128, minimum: i64, maximum: i64) -> (drawn: (i64, u128))
    requires
        minimum <= maximum,
    ensures
        drawn == integer_draw(seed@, cursor, minimum, maximum),
        minimum <= drawn.0 <= maximum,
        drawn.1 < CURSOR_LIMIT,
{
    let mut rng = ChaCha20Rng::from_seed(seed);
    rng.set_word_pos(cursor);
    let value = rng.gen_range(minimum..=maximum);
    (value, rng.get_word_pos())
}

/// A pseudorandom stream and the place in it where the next draw starts.
#[derive(Clone, Copy, Debug, PartialEq, Eq)]
pub struct DeterministicStream {
    seed: Seed,
    cursor: u128,
}

impl DeterministicStream {
    /// The bytes of the seed that the stream was built from.
    pub closed spec fn seed_bytes(&self) -> Seq<u8> {
        self.seed@
    }

    /// The word at which the next draw starts.
    pub closed spec fn position(&self) -> u128 {
        self.cursor
    }

    /// What holds of every stream: its seed has 32 bytes and its cursor lies
    /// within the stream.
    #[verifier::type_invariant]
    pub open spec fn inv(self) -> bool {
        &&& self.seed_bytes().len() == 32
        &&& self.position() < CURSOR_LIMIT
    }

    /// The stream of `seed`, at its start.
    pub fn construct(seed: Seed) -> (stream: DeterministicStream)
        ensures
            stream.seed_bytes() == seed@,
            stream.position() == 0,
    {
        proof {
            seed.lemma_len();
        }
        DeterministicStream { seed, cursor: 0 }
    }

    /// The seed that the stream was built from.
    pub fn seed(&self) -> (seed: Seed)
        ensures
            seed@ == self.seed_bytes(),
    {
        self.seed
    }

    /// The word at which the next draw starts.
    pub fn cursor(&self) -> (cursor: u128)
        ensures
            cursor == self.position(),
    {
        self.cursor
    }

    /// Moves the cursor to `position`, in one step. The stream cycles after
    /// 2^68 words, so only the low 68 bits of `position` count.
    pub fn advance_to(&mut self, position: u128)
        ensures
            final(self).seed_bytes() == old(self).seed_bytes(),
            final(self).position() == position % CURSOR_LIMIT,
    {
        proof {
            self.seed.lemma_len();
        }
        self.cursor = position % CURSOR_LIMIT;
    }

    /// Draws an integer from `minimum` to `maximum`, both included, and moves
    /// the cursor past the words that the draw used.
    pub fn draw_uniform_integer(&mut self, minimum: i64, maximum: i64) -> (value: i64)
        requires
            minimum <= maximum,
        ensures
            value == integer_draw(old(self).seed_bytes(), old(self).position(), minimum, maximum).0,
            final(self).position() == integer_draw(
                old(self).seed_bytes(),
                old(self).position(),
                minimum,
                maximum,
            ).1,
            final(self).seed_bytes() == old(self).seed_bytes(),
            minimum <= value <= maximum,
    {
        proof {
            self.seed.lemma_len();
        }
        let drawn = draw_integer_at(self.seed.bytes(), self.cursor, minimum, maximum);
        self.cursor = drawn.1;
        drawn.0
    }
}

} // verus!
