//! Little-endian fields of the 12-byte PTP container header.
use vstd::prelude::*;

verus! {

/// Size of every PTP container header in bytes.
pub const HEADER_SIZE: usize = 12;
/// Container type of a command container.
pub const KIND_COMMAND: u16 = 1;
/// Container type of a data container.
pub const KIND_DATA: u16 = 2;
/// Container type of a response container.
pub const KIND_RESPONSE: u16 = 3;
/// Container type of an event container.
pub const KIND_EVENT: u16 = 4;
/// Response code that reports success.
pub const RESPONSE_OK: u16 = 0x2001;

/// Unsigned 16-bit little-endian value at byte offset `i`.
pub open spec fn le16(b: Seq<u8>, i: int) -> nat {
    (b[i] + 256 * b[i + 1]) as nat
}

/// Unsigned 32-bit little-endian value at byte offset `i`.
pub open spec fn le32(b: Seq<u8>, i: int) -> nat {
    (b[i] + 256 * b[i + 1] + 65536 * b[i + 2] + 16777216 * b[i + 3]) as nat
}

/// The container length field (offset 0).
pub open spec fn header_length(b: Seq<u8>) -> nat {
    le32(b, 0)
}

/// The container type field (offset 4).
pub open spec fn header_kind(b: Seq<u8>) -> nat {
    le16(b, 4)
}

/// The operation/response code field (offset 6).
pub open spec fn header_code(b: Seq<u8>) -> nat {
    le16(b, 6)
}

/// The transaction id field (offset 8).
pub open spec fn header_transaction(b: Seq<u8>) -> nat {
    le32(b, 8)
}

/// Reads a little-endian `u16` at offset `i`.
pub fn read_le16(b: &Vec<u8>, i: usize) -> (r: u16)
    requires
        i + 2 <= b.len(),
    ensures
        r == le16(b@, i as int),
{
    let lo: u8 = b[i];
    let hi: u8 = b[i + 1];
    lo as u16 + 256 * (hi as u16)
}

/// Reads a little-endian `u32` at offset `i`.
pub fn read_le32(b: &Vec<u8>, i: usize) -> (r: u32)
    requires
        i + 4 <= b.len(),
    ensures
        r == le32(b@, i as int),
{
    let b0: u8 = b[i];
    let b1: u8 = b[i + 1];
    let b2: u8 = b[i + 2];
    let b3: u8 = b[i + 3];
    b0 as u32 + 256 * (b1 as u32) + 65536 * (b2 as u32) + 16777216 * (b3 as u32)
}

/// Appends the little-endian bytes of a `u16`.
pub fn push_le16(out: &mut Vec<u8>, v: u16)
    ensures
        final(out)@.len() == old(out)@.len() + 2,
        final(out)@.subrange(0, old(out)@.len() as int) == old(out)@,
        le16(final(out)@, old(out)@.len() as int) == v,
{
    out.push((v % 256) as u8);
    out.push((v / 256) as u8);
}

/// Appends the little-endian bytes of a `u32`.
pub fn push_le32(out: &mut Vec<u8>, v: u32)
    ensures
        final(out)@.len() == old(out)@.len() + 4,
        final(out)@.subrange(0, old(out)@.len() as int) == old(out)@,
        le32(final(out)@, old(out)@.len() as int) == v,
{
    out.push((v % 256) as u8);
    out.push(((v / 256) % 256) as u8);
    out.push(((v / 65536) % 256) as u8);
    out.push((v / 16777216) as u8);
}

} // verus!
