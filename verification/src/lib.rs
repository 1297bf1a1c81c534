//! Encodes binary data as pronounceable gibberish, somewhat resembling
//! latin, and decodes it back.
//!
//! Every byte value is carried by one syllable of a fixed table of 256
//! syllables.  The decoder re-segments a string greedily with a trie over
//! the table; the encoder inserts word breaks wherever a greedy re-parse
//! could misread a syllable boundary.  An entropy transform hides visible
//! patterns of the input, and an optional checksum of up to four bytes
//! guards data integrity.

use vstd::prelude::*;

pub mod tables;
pub mod syllables;
pub mod table_facts;
pub mod encode;
pub mod decode;

pub use encode::Settings;
pub use encode::encode;
pub use encode::encode_with_settings;
pub use encode::encode_mono;
pub use encode::spec_encode;
pub use decode::InvalidData;
pub use decode::decode;
pub use decode::decode_with_settings;
pub use decode::decode_mono;
pub use decode::spec_decode;

verus! {

/// Specifies the number of checksum bytes used when encoding.
///
/// Default: one byte.
#[derive(Clone, Copy, Debug, Hash, PartialEq, Eq, PartialOrd, Ord)]
pub enum Checksum {
    /// No bytes used; the encoded data will not contain a checksum.
    Disabled,
    /// One byte used.
    Length1,
    /// Two bytes used.
    Length2,
    /// Three bytes used.
    Length3,
    /// Four bytes used.
    Length4,
}

/// The number of checksum bytes a setting asks for, 0 through 4.
pub open spec fn spec_checksum_len(c: Checksum) -> int {
    match c {
        Checksum::Disabled => 0,
        Checksum::Length1 => 1,
        Checksum::Length2 => 2,
        Checksum::Length3 => 3,
        Checksum::Length4 => 4,
    }
}

impl Checksum {
    /// Returns the number of checksum bytes to be included in encoded data.
    pub fn len(self) -> (r: usize)
        ensures
            r == spec_checksum_len(self),
    {
        match self {
            Checksum::Disabled => 0,
            Checksum::Length1 => 1,
            Checksum::Length2 => 2,
            Checksum::Length3 => 3,
            Checksum::Length4 => 4,
        }
    }
}

impl Default for Checksum {
    fn default() -> (r: Self)
        ensures
            r == Checksum::Length1,
    {
        Checksum::Length1
    }
}

/// The entropy table: a fixed permutation of the byte values, read at the
/// index reduced modulo 256.  Index 0 maps to 0, so a single decoded
/// syllable carries its table byte unchanged.
pub open spec fn spec_entropy(i: int) -> u8 {
    (((i % 256) * 167) % 256) as u8
}

/// The entropy transform: a byte XOR-ed with the table entry of its index.
/// Applying it twice with the same index gives the byte back.
pub open spec fn spec_running_code(b: u8, i: int) -> u8 {
    b ^ spec_entropy(i)
}

/// Increases apparent entropy in input data.
///
/// Before getting the syllable corresponding to a byte, it along with its
/// index is run through this function to reduce visible patterns in the
/// input data, so that long runs of one byte value do not encode as one
/// repeated syllable.  The transformation repeats every 256 indices, is
/// completely transparent, and undoes itself when applied twice with the
/// same index.
pub fn running_code(byte: u8, index: usize) -> (r: u8)
    ensures
        r == spec_running_code(byte, index as int),
{
    let t = ((index % 256) * 167 % 256) as u8;
    byte ^ t
}

/// Applying the entropy transform twice with the same index gives the
/// original byte back, whatever the byte and the index.
pub proof fn lemma_running_code_self_inverse(b: u8, i: int)
    ensures
        spec_running_code(spec_running_code(b, i), i) == b,
{
    let t = spec_entropy(i);
    assert((b ^ t) ^ t == b) by (bit_vector);
}

/// The offset basis that a fresh FNV-1a accumulator holds.
pub const FNV_OFFSET_BASIS: u32 = 0x811c9dc5;

/// One step of the FNV-1a hash: XOR the byte in, multiply by the FNV
/// prime with wraparound.
pub open spec fn spec_fnv_update(h: u32, b: u8) -> u32 {
    ((((h ^ (b as u32)) as int) * 0x01000193) % 0x1_0000_0000) as u32
}

/// The FNV-1a hash of a byte sequence, fed left to right into a fresh
/// accumulator.
pub open spec fn spec_fnv(s: Seq<u8>) -> u32
    decreases s.len(),
{
    if s.len() == 0 {
        FNV_OFFSET_BASIS
    } else {
        spec_fnv_update(spec_fnv(s.drop_last()), s.last())
    }
}

/// The four bytes of a 32-bit value, least significant first.
pub open spec fn spec_le_bytes(h: u32) -> Seq<u8> {
    seq![
        (h % 256) as u8,
        ((h / 256) % 256) as u8,
        ((h / 65536) % 256) as u8,
        ((h / 16777216) % 256) as u8,
    ]
}

/// The number of set bits in the binary expansion of a value.
pub open spec fn spec_ones(x: int) -> int
    decreases x when x >= 0
{
    if x <= 0 {
        0
    } else {
        x % 2 + spec_ones(x / 2)
    }
}

/// The bit count of a value is between 0 and the value itself.
pub proof fn lemma_ones_bounds(x: int)
    requires
        x >= 0,
    ensures
        0 <= spec_ones(x) <= x,
    decreases x,
{
    if x > 0 {
        lemma_ones_bounds(x / 2);
    }
}

/// Counts the set bits of a 32-bit value.
pub fn count_ones(x: u32) -> (r: u32)
    ensures
        r == spec_ones(x as int),
{
    let mut cur = x;
    let mut r: u32 = 0;
    proof {
        lemma_ones_bounds(x as int);
    }
    while cur > 0
        invariant
            r + spec_ones(cur as int) == spec_ones(x as int),
            spec_ones(x as int) <= x,
            0 <= r <= spec_ones(x as int),
        decreases cur,
    {
        proof {
            lemma_ones_bounds(cur as int);
            lemma_ones_bounds(cur as int / 2);
        }
        r = r + cur % 2;
        cur = cur / 2;
    }
    r
}

/// The FNV-1a hashing algorithm, used for the checksum and as the seed of
/// the decoration choices.
#[derive(Clone, Copy)]
pub struct Fnv1a(pub u32);

impl Fnv1a {
    /// Creates a hasher initialised with the FNV offset basis.
    pub fn new() -> (r: Fnv1a)
        ensures
            r.0 == FNV_OFFSET_BASIS,
    {
        Fnv1a(0x811c9dc5)
    }

    /// Digests one byte.
    pub fn update(&mut self, byte: u8)
        ensures
            final(self).0 == spec_fnv_update(old(self).0, byte),
    {
        let x = self.0 ^ (byte as u32);
        let prod = (x as u64) * 0x01000193u64;
        self.0 = (prod % 0x1_0000_0000u64) as u32;
    }

    /// Returns the bytes to be used as checksum, least significant first.
    pub fn bytes(&self) -> (r: Vec<u8>)
        ensures
            r@ == spec_le_bytes(self.0),
    {
        let mut v: Vec<u8> = Vec::new();
        v.push((self.0 % 256) as u8);
        v.push((self.0 / 256 % 256) as u8);
        v.push((self.0 / 65536 % 256) as u8);
        v.push((self.0 / 16777216 % 256) as u8);
        proof {
            assert(v@ =~= spec_le_bytes(self.0));
        }
        v
    }
}

} // verus!
