//! The 256-bit seed from which a random stream is built.

use vstd::prelude::*;

verus! {

/// A 256-bit value that determines a whole random stream.
///
/// A seed is never changed in place: an agent that is reseeded gets a new one.
#[derive(Clone, Copy, Debug, PartialEq, Eq)]
pub struct Seed {
    bytes: [u8; 32],
}

impl View for Seed {
    type V = Seq<u8>;

    /// The 32 bytes of the seed, in order.
    closed spec fn view(&self) -> Seq<u8> {
        self.bytes@
    }
}

/// The bytes that stand for `value`: its eight bytes, least significant first,
/// followed by 24 zero bytes.
pub open spec fn seed_bytes_of(value: u64) -> Seq<u8> {
    Seq::new(32, |i: int| if i < 8 { byte_of(value, i) } else { 0u8 })
}

/// Byte `index` of `value`, counting from the least significant one.
pub open spec fn byte_of(value: u64, index: int) -> u8 {
    ((value >> ((8 * index) as u64)) & 0xff) as u8
}

/// Draws 32 bytes with `rand::random`, which reads the thread-local generator
/// that `rand` seeds from the operating system. Nothing is claimed of the
/// bytes: two calls may give any two values.
#[verifier::external_body]
fn entropy_bytes() -> (bytes: [u8; 32]) {
    rand::random()
}

impl Seed {
    /// A seed drawn from the entropy of the operating system.
    pub fn new_random() -> (seed: Seed)
        ensures
            seed@.len() == 32,
    {
        Seed { bytes: entropy_bytes() }
    }

    /// The seed with exactly the given bytes.
    pub fn from_bytes(bytes: [u8; 32]) -> (seed: Seed)
        ensures
            seed@ == bytes@,
    {
        Seed { bytes }
    }

    /// The seed that stands for an integer.
    pub fn from_u64(value: u64) -> (seed: Seed)
        ensures
            seed@ == seed_bytes_of(value),
    {
        let mut bytes: [u8; 32] = [0u8; 32];
        let mut i: usize = 0;
        while i < 8
            invariant
                i <= 8,
                forall|j: int| 0 <= j < i ==> bytes@[j] == byte_of(value, j),
                forall|j: int| i <= j < 32 ==> bytes@[j] == 0u8,
            decreases 8 - i,
        {
            let shift: u64 = 8 * (i as u64);
            bytes[i] = #[verifier::truncate] (((value >> shift) & 0xff) as u8);
            i += 1;
        }
        assert(bytes@ =~= seed_bytes_of(value));
        Seed { bytes }
    }

    /// The 32 bytes of the seed.
    pub fn bytes(&self) -> (bytes: [u8; 32])
        ensures
            bytes@ == self@,
    {
        self.bytes
    }

    /// A seed always has 32 bytes.
    pub proof fn lemma_len(self)
        ensures
            self@.len() == 32,
    {
    }
}

/// The seed whose bytes are `bytes`.
pub closed spec fn seed_of(bytes: Seq<u8>) -> Seed {
    choose|seed: Seed| seed@ == bytes
}

/// Two seeds with the same bytes are the same seed.
pub proof fn lemma_seed_of(seed: Seed)
    ensures
        seed_of(seed@) == seed,
{
    let other = seed_of(seed@);
    assert(other@ == seed@);
    assert(other.bytes =~= seed.bytes);
}

impl From<u64> for Seed {
    fn from(value: u64) -> (seed: Seed) {
        let seed = Seed::from_u64(value);
        proof {
            lemma_seed_of(seed);
        }
        seed
    }
}

impl vstd::std_specs::convert::FromSpecImpl<u64> for Seed {
    open spec fn obeys_from_spec() -> bool {
        true
    }

    open spec fn from_spec(value: u64) -> Seed {
        seed_of(seed_bytes_of(value))
    }
}

/// Every sequence of 32 bytes is the bytes of a seed.
pub proof fn lemma_seed_of_bytes(b: Seq<u8>)
    requires
        b.len() == 32,
    ensures
        seed_of(b)@ == b,
{
    let witness = Seed {
        bytes: [
            b[0], b[1], b[2], b[3], b[4], b[5], b[6], b[7],
            b[8], b[9], b[10], b[11], b[12], b[13], b[14], b[15],
            b[16], b[17], b[18], b[19], b[20], b[21], b[22], b[23],
            b[24], b[25], b[26], b[27], b[28], b[29], b[30], b[31],
        ],
    };
    assert(witness@ =~= b);
}

} // verus!
