//! The update descriptor and its little-endian wire format.
use vstd::prelude::*;

verus! {

/// Number of bytes in an encoded update descriptor.
pub const CONFIG_LEN: usize = 16;

/// What the bootloader needs to know to install a firmware image.
#[derive(Clone, Copy, Debug, PartialEq, Eq, Structural)]
pub struct UpdateRequest {
    /// Address the image is copied from.
    pub source: u32,
    /// Address the image is installed at.
    pub destination: u32,
    /// Length of the image in bytes.
    pub length: u32,
    /// Checksum the bootloader expects of the image.
    pub crc: u32,
}

/// The number that four bytes stand for, lowest byte first.
pub open spec fn le_value(b0: u8, b1: u8, b2: u8, b3: u8) -> int {
    b0 + 0x100 * b1 + 0x1_0000 * b2 + 0x100_0000 * b3
}

/// Byte `i` (0 is the lowest) of `x`.
pub open spec fn le_byte(x: u32, i: int) -> u8
    recommends
        0 <= i < 4,
{
    if i == 0 {
        (x % 0x100) as u8
    } else if i == 1 {
        (x / 0x100 % 0x100) as u8
    } else if i == 2 {
        (x / 0x1_0000 % 0x100) as u8
    } else {
        (x / 0x100_0000 % 0x100) as u8
    }
}

/// The four bytes of `x`, lowest byte first.
pub open spec fn le_bytes(x: u32) -> Seq<u8> {
    seq![le_byte(x, 0), le_byte(x, 1), le_byte(x, 2), le_byte(x, 3)]
}

/// The 32-bit word that starts at `offset` in `bytes`, read lowest byte first. Four
/// bytes never stand for more than `u32::MAX`, so the conversion loses nothing.
pub open spec fn le_word_at(bytes: Seq<u8>, offset: int) -> u32
    recommends
        0 <= offset,
        offset + 4 <= bytes.len(),
{
    le_value(bytes[offset], bytes[offset + 1], bytes[offset + 2], bytes[offset + 3]) as u32
}

/// The bit operations that assemble a word compute `le_value`.
proof fn lemma_assemble(b0: u8, b1: u8, b2: u8, b3: u8)
    ensures
        ((b0 as u32) | (b1 as u32) << 8 | (b2 as u32) << 16 | (b3 as u32) << 24)
            == le_value(b0, b1, b2, b3),
{
    assert(((b0 as u32) | (b1 as u32) << 8 | (b2 as u32) << 16 | (b3 as u32) << 24) == (b0 as u32)
        + 0x100 * (b1 as u32) + 0x1_0000 * (b2 as u32) + 0x100_0000 * (b3 as u32))
        by (bit_vector);
}

/// The bit operations that take a word apart compute `le_byte`.
proof fn lemma_split(x: u32)
    ensures
        ((x >> 0) & 0xFF) == le_byte(x, 0),
        ((x >> 8) & 0xFF) == le_byte(x, 1),
        ((x >> 16) & 0xFF) == le_byte(x, 2),
        ((x >> 24) & 0xFF) == le_byte(x, 3),
{
    assert(((x >> 0) & 0xFF) == x % 0x100) by (bit_vector);
    assert(((x >> 8) & 0xFF) == x / 0x100 % 0x100) by (bit_vector);
    assert(((x >> 16) & 0xFF) == x / 0x1_0000 % 0x100) by (bit_vector);
    assert(((x >> 24) & 0xFF) == x / 0x100_0000 % 0x100) by (bit_vector);
}

impl UpdateRequest {
    /// The descriptor that sixteen bytes stand for: four little-endian words in the
    /// order source, destination, length, checksum.
    pub open spec fn spec_decode(bytes: Seq<u8>) -> UpdateRequest
        recommends
            bytes.len() == CONFIG_LEN,
    {
        UpdateRequest {
            source: le_word_at(bytes, 0),
            destination: le_word_at(bytes, 4),
            length: le_word_at(bytes, 8),
            crc: le_word_at(bytes, 12),
        }
    }

    /// The sixteen bytes that stand for this descriptor.
    pub open spec fn spec_encode(self) -> Seq<u8> {
        le_bytes(self.source) + le_bytes(self.destination) + le_bytes(self.length)
            + le_bytes(self.crc)
    }

    /// Reads a descriptor from a buffer of exactly sixteen bytes.
    pub fn decode(bytes: &[u8]) -> (r: Option<UpdateRequest>)
        ensures
            bytes@.len() == CONFIG_LEN ==> r == Some(Self::spec_decode(bytes@)),
            bytes@.len() != CONFIG_LEN ==> r is None,
    {
        if bytes.len() == CONFIG_LEN {
            Some(Self::parse(bytes))
        } else {
            None
        }
    }

    /// Reads a descriptor from a buffer known to hold sixteen bytes.
    pub(crate) fn parse(bytes: &[u8]) -> (r: UpdateRequest)
        requires
            bytes@.len() == CONFIG_LEN,
        ensures
            r == Self::spec_decode(bytes@),
    {
        UpdateRequest {
            source: read_le_word(bytes, 0),
            destination: read_le_word(bytes, 4),
            length: read_le_word(bytes, 8),
            crc: read_le_word(bytes, 12),
        }
    }

    /// Writes the descriptor out as sixteen bytes.
    pub fn encode(&self) -> (r: [u8; CONFIG_LEN])
        ensures
            r@ == self.spec_encode(),
    {
        [
            byte_of(self.source, 0),
            byte_of(self.source, 1),
            byte_of(self.source, 2),
            byte_of(self.source, 3),
            byte_of(self.destination, 0),
            byte_of(self.destination, 1),
            byte_of(self.destination, 2),
            byte_of(self.destination, 3),
            byte_of(self.length, 0),
            byte_of(self.length, 1),
            byte_of(self.length, 2),
            byte_of(self.length, 3),
            byte_of(self.crc, 0),
            byte_of(self.crc, 1),
            byte_of(self.crc, 2),
            byte_of(self.crc, 3),
        ]
    }
}

/// Reads the little-endian word that starts at `offset`.
pub(crate) fn read_le_word(bytes: &[u8], offset: usize) -> (r: u32)
    requires
        offset + 4 <= bytes@.len(),
    ensures
        r == le_word_at(bytes@, offset as int),
{
    let b0: u8 = bytes[offset];
    let b1: u8 = bytes[offset + 1];
    let b2: u8 = bytes[offset + 2];
    let b3: u8 = bytes[offset + 3];
    proof {
        lemma_assemble(b0, b1, b2, b3);
    }
    (b0 as u32) | (b1 as u32) << 8 | (b2 as u32) << 16 | (b3 as u32) << 24
}

/// Byte `i` (0 is the lowest) of `x`.
pub(crate) fn byte_of(x: u32, i: u32) -> (r: u8)
    requires
        i < 4,
    ensures
        r == le_byte(x, i as int),
{
    proof {
        lemma_split(x);
    }
    if i == 0 {
        ((x >> 0) & 0xFF) as u8
    } else if i == 1 {
        ((x >> 8) & 0xFF) as u8
    } else if i == 2 {
        ((x >> 16) & 0xFF) as u8
    } else {
        ((x >> 24) & 0xFF) as u8
    }
}

/// A word taken apart and read again is the same word.
pub proof fn lemma_word_round_trip(x: u32)
    ensures
        le_bytes(x).len() == 4,
        le_word_at(le_bytes(x), 0) == x,
{
    assert(x % 0x100 + 0x100 * (x / 0x100 % 0x100) + 0x1_0000 * (x / 0x1_0000 % 0x100) + 0x100_0000
        * (x / 0x100_0000 % 0x100) == x) by (bit_vector);
}

/// Four bytes read as a word and taken apart again are the same bytes.
pub proof fn lemma_bytes_round_trip(b0: u8, b1: u8, b2: u8, b3: u8)
    ensures
        le_bytes(le_value(b0, b1, b2, b3) as u32) == seq![b0, b1, b2, b3],
{
    let x: u32 = le_value(b0, b1, b2, b3) as u32;
    assert(x == b0 + 0x100 * b1 + 0x1_0000 * b2 + 0x100_0000 * b3 ==> {
        &&& x % 0x100 == b0
        &&& x / 0x100 % 0x100 == b1
        &&& x / 0x1_0000 % 0x100 == b2
        &&& x / 0x100_0000 % 0x100 == b3
    }) by (bit_vector);
}

/// Decoding a sixteen-byte buffer and encoding the result gives the buffer back.
pub proof fn lemma_decode_then_encode(bytes: Seq<u8>)
    requires
        bytes.len() == CONFIG_LEN,
    ensures
        UpdateRequest::spec_decode(bytes).spec_encode() == bytes,
{
    lemma_bytes_round_trip(bytes[0], bytes[1], bytes[2], bytes[3]);
    lemma_bytes_round_trip(bytes[4], bytes[5], bytes[6], bytes[7]);
    lemma_bytes_round_trip(bytes[8], bytes[9], bytes[10], bytes[11]);
    lemma_bytes_round_trip(bytes[12], bytes[13], bytes[14], bytes[15]);
}

/// Encoding a descriptor gives sixteen bytes that decode to the same descriptor.
pub proof fn lemma_encode_then_decode(request: UpdateRequest)
    ensures
        request.spec_encode().len() == CONFIG_LEN,
        UpdateRequest::spec_decode(request.spec_encode()) == request,
{
    lemma_word_round_trip(request.source);
    lemma_word_round_trip(request.destination);
    lemma_word_round_trip(request.length);
    lemma_word_round_trip(request.crc);
}

} // verus!
