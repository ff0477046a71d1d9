//! Little-endian fields of a byte buffer, as mathematics and as code.

use vstd::prelude::*;

verus! {

/// The 16-bit little-endian number at `at`.
pub open spec fn u16_le(s: Seq<u8>, at: int) -> int {
    s[at] + 256 * s[at + 1]
}

/// The 24-bit little-endian number at `at`.
pub open spec fn u24_le(s: Seq<u8>, at: int) -> int {
    s[at] + 256 * s[at + 1] + 65536 * s[at + 2]
}

/// The 32-bit little-endian number at `at`.
pub open spec fn u32_le(s: Seq<u8>, at: int) -> int {
    s[at] + 256 * s[at + 1] + 65536 * s[at + 2] + 16777216 * s[at + 3]
}

/// The 64-bit little-endian number at `at`.
pub open spec fn u64_le(s: Seq<u8>, at: int) -> int {
    u32_le(s, at) + 4294967296 * u32_le(s, at + 4)
}

/// Every byte of `s` in `[from, to)` equals `byte`.
pub open spec fn all_bytes_are(s: Seq<u8>, from: int, to: int, byte: u8) -> bool {
    forall|i: int| from <= i < to ==> s[i] == byte
}

/// Reads the 16-bit little-endian number at `at`.
pub fn read_u16(buffer: &[u8], at: usize) -> (value: u16)
    requires
        at + 2 <= buffer.len(),
    ensures
        value == u16_le(buffer@, at as int),
{
    buffer[at] as u16 + 256 * (buffer[at + 1] as u16)
}

/// Reads the 24-bit little-endian number at `at`.
pub fn read_u24(buffer: &[u8], at: usize) -> (value: u32)
    requires
        at + 3 <= buffer.len(),
    ensures
        value == u24_le(buffer@, at as int),
        value < 0x100_0000,
{
    buffer[at] as u32 + 256 * (buffer[at + 1] as u32) + 65536 * (buffer[at + 2] as u32)
}

/// Reads the 32-bit little-endian number at `at`.
pub fn read_u32(buffer: &[u8], at: usize) -> (value: u32)
    requires
        at + 4 <= buffer.len(),
    ensures
        value == u32_le(buffer@, at as int),
{
    buffer[at] as u32 + 256 * (buffer[at + 1] as u32) + 65536 * (buffer[at + 2] as u32) + 16777216
        * (buffer[at + 3] as u32)
}

/// Reads the 64-bit little-endian number at `at`.
pub fn read_u64(buffer: &[u8], at: usize) -> (value: u64)
    requires
        at + 8 <= buffer.len(),
    ensures
        value == u64_le(buffer@, at as int),
{
    let low: u32 = read_u32(buffer, at);
    let high: u32 = read_u32(buffer, at + 4);
    low as u64 + 4294967296 * (high as u64)
}

/// Copies the sixteen bytes at `at`.
pub fn read_bytes16(buffer: &[u8], at: usize) -> (value: [u8; 16])
    requires
        at + 16 <= buffer.len(),
    ensures
        value@ == buffer@.subrange(at as int, at + 16),
{
    let value: [u8; 16] = [
        buffer[at],
        buffer[at + 1],
        buffer[at + 2],
        buffer[at + 3],
        buffer[at + 4],
        buffer[at + 5],
        buffer[at + 6],
        buffer[at + 7],
        buffer[at + 8],
        buffer[at + 9],
        buffer[at + 10],
        buffer[at + 11],
        buffer[at + 12],
        buffer[at + 13],
        buffer[at + 14],
        buffer[at + 15],
    ];
    assert(value@ =~= buffer@.subrange(at as int, at + 16));
    value
}

/// Tells whether the bytes at `at` are those of `pattern`.
pub fn range_equals(buffer: &[u8], at: usize, pattern: &[u8; 16]) -> (equal: bool)
    requires
        at + 16 <= buffer.len(),
    ensures
        equal == (buffer@.subrange(at as int, at + 16) == pattern@),
{
    let mut i: usize = 0;
    while i < 16
        invariant
            i <= 16,
            at + 16 <= buffer.len(),
            forall|j: int| 0 <= j < i ==> buffer@[at + j] == pattern@[j],
        decreases 16 - i,
    {
        if buffer[at + i] != pattern[i] {
            assert(buffer@.subrange(at as int, at + 16)[i as int] != pattern@[i as int]);
            return false;
        }
        i += 1;
    }
    assert(buffer@.subrange(at as int, at + 16) =~= pattern@);
    true
}

/// Tells whether every byte in `[from, to)` equals `byte`.
pub fn bytes_all_equal(buffer: &[u8], from: usize, to: usize, byte: u8) -> (uniform: bool)
    requires
        from <= to <= buffer.len(),
    ensures
        uniform == all_bytes_are(buffer@, from as int, to as int, byte),
{
    let mut i: usize = from;
    while i < to
        invariant
            from <= i <= to <= buffer@.len(),
            all_bytes_are(buffer@, from as int, i as int, byte),
        decreases to - i,
    {
        if buffer[i] != byte {
            return false;
        }
        i += 1;
    }
    true
}

} // verus!
