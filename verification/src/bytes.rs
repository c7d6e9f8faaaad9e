use vstd::prelude::*;
use vstd::utf8::{decode_utf8, valid_utf8};

verus! {

/// The unsigned 16-bit number stored big-endian at `off`.
pub open spec fn be16(b: Seq<u8>, off: int) -> int {
    b[off] as int * 256 + b[off + 1] as int
}

/// The unsigned 32-bit number stored big-endian at `off`.
pub open spec fn be32(b: Seq<u8>, off: int) -> int {
    be16(b, off) * 65536 + be16(b, off + 2)
}

/// The unsigned 64-bit number stored big-endian at `off`.
pub open spec fn be64(b: Seq<u8>, off: int) -> int {
    be32(b, off) * 4294967296 + be32(b, off + 4)
}

/// Whether `n` bytes can be read at `off`.
pub open spec fn fits(b: Seq<u8>, off: int, n: int) -> bool {
    0 <= off && 0 <= n && off + n <= b.len()
}

/// Reads one byte at `off`, if there is one.
pub fn read_u8(bytes: &[u8], off: usize) -> (r: Option<u8>)
    ensures
        r == (if fits(bytes@, off as int, 1) {
            Some(bytes@[off as int])
        } else {
            None
        }),
{
    if off < bytes.len() {
        Some(bytes[off])
    } else {
        None
    }
}

/// Reads a big-endian `u16` at `off`, if two bytes are there.
pub fn read_u16(bytes: &[u8], off: usize) -> (r: Option<u16>)
    ensures
        r == (if fits(bytes@, off as int, 2) {
            Some(be16(bytes@, off as int) as u16)
        } else {
            None
        }),
        r matches Some(v) ==> v as int == be16(bytes@, off as int),
        bytes@.len() <= usize::MAX,
{
    if bytes.len() >= 2 && off <= bytes.len() - 2 {
        let hi: u16 = bytes[off] as u16;
        let lo: u16 = bytes[off + 1] as u16;
        Some(hi * 256 + lo)
    } else {
        None
    }
}

/// Reads a big-endian `u32` at `off`, if four bytes are there.
pub fn read_u32(bytes: &[u8], off: usize) -> (r: Option<u32>)
    ensures
        r == (if fits(bytes@, off as int, 4) {
            Some(be32(bytes@, off as int) as u32)
        } else {
            None
        }),
        r matches Some(v) ==> v as int == be32(bytes@, off as int),
        bytes@.len() <= usize::MAX,
{
    if bytes.len() >= 4 && off <= bytes.len() - 4 {
        let hi: u32 = bytes[off] as u32 * 256 + bytes[off + 1] as u32;
        let lo: u32 = bytes[off + 2] as u32 * 256 + bytes[off + 3] as u32;
        Some(hi * 65536 + lo)
    } else {
        None
    }
}

/// Reads a big-endian `u64` at `off`, if eight bytes are there.
pub fn read_u64(bytes: &[u8], off: usize) -> (r: Option<u64>)
    ensures
        r == (if fits(bytes@, off as int, 8) {
            Some(be64(bytes@, off as int) as u64)
        } else {
            None
        }),
        r matches Some(v) ==> v as int == be64(bytes@, off as int),
        bytes@.len() <= usize::MAX,
{
    if bytes.len() >= 8 && off <= bytes.len() - 8 {
        let a: u64 = bytes[off] as u64 * 256 + bytes[off + 1] as u64;
        let b: u64 = bytes[off + 2] as u64 * 256 + bytes[off + 3] as u64;
        let c: u64 = bytes[off + 4] as u64 * 256 + bytes[off + 5] as u64;
        let d: u64 = bytes[off + 6] as u64 * 256 + bytes[off + 7] as u64;
        Some((a * 65536 + b) * 4294967296 + (c * 65536 + d))
    } else {
        None
    }
}

/// The text that a run of bytes stands for: its UTF-8 decoding, or the empty
/// text where the bytes are not valid UTF-8.
pub open spec fn text_of(b: Seq<u8>) -> Seq<char> {
    if valid_utf8(b) {
        decode_utf8(b)
    } else {
        Seq::empty()
    }
}

/// `core::str::from_utf8`: the bytes as a string slice exactly when they are
/// valid UTF-8, and then the slice's characters are the decoding of the bytes.
#[verifier::external_body]
fn checked_utf8<'a>(bytes: &'a [u8]) -> (r: Option<&'a str>)
    ensures
        r is Some <==> valid_utf8(bytes@),
        r matches Some(s) ==> s@ == decode_utf8(bytes@),
{
    match core::str::from_utf8(bytes) {
        Ok(s) => Some(s),
        Err(_) => None,
    }
}

/// The bytes `bytes[from..to]` as an owned string, when they are valid UTF-8.
pub fn utf8_string(bytes: &[u8], from: usize, to: usize) -> (r: Option<String>)
    requires
        from <= to <= bytes@.len(),
    ensures
        r is Some <==> valid_utf8(bytes@.subrange(from as int, to as int)),
        r matches Some(s) ==> s@ == decode_utf8(bytes@.subrange(from as int, to as int)),
{
    let part = vstd::slice::slice_subrange(bytes, from, to);
    match checked_utf8(part) {
        Some(s) => Some(s.to_owned()),
        None => None,
    }
}

/// The bytes `bytes[from..to]` as text, empty where they are not valid UTF-8.
pub fn text_string(bytes: &[u8], from: usize, to: usize) -> (r: String)
    requires
        from <= to <= bytes@.len(),
    ensures
        r@ == text_of(bytes@.subrange(from as int, to as int)),
{
    match utf8_string(bytes, from, to) {
        Some(s) => s,
        None => String::new(),
    }
}

} // verus!
