//! Little-endian fields of byte sequences.

use vstd::prelude::*;

pub mod laws;

verus! {

/// The 16-bit little-endian number that starts at `offset`.
pub open spec fn u16_at(bytes: Seq<u8>, offset: int) -> int {
    bytes[offset] + 0x100 * bytes[offset + 1]
}

/// The 32-bit little-endian number that starts at `offset`.
pub open spec fn u32_at(bytes: Seq<u8>, offset: int) -> int {
    u16_at(bytes, offset) + 0x1_0000 * u16_at(bytes, offset + 2)
}

/// The 64-bit little-endian number that starts at `offset`.
pub open spec fn u64_at(bytes: Seq<u8>, offset: int) -> int {
    u32_at(bytes, offset) + 0x1_0000_0000 * u32_at(bytes, offset + 4)
}

/// The `width` lowest bytes of `value`, the lowest first.
pub open spec fn le_bytes(value: nat, width: nat) -> Seq<u8>
    decreases width,
{
    if width == 0 {
        Seq::empty()
    } else {
        seq![(value % 0x100) as u8] + le_bytes(value / 0x100, (width - 1) as nat)
    }
}

pub fn read_u16(bytes: &[u8], offset: usize) -> (value: u16)
    requires
        offset + 2 <= bytes.len(),
    ensures
        value == u16_at(bytes@, offset as int),
{
    bytes[offset] as u16 + 0x100 * (bytes[offset + 1] as u16)
}

pub fn read_u32(bytes: &[u8], offset: usize) -> (value: u32)
    requires
        offset + 4 <= bytes.len(),
    ensures
        value == u32_at(bytes@, offset as int),
{
    read_u16(bytes, offset) as u32 + 0x1_0000 * (read_u16(bytes, offset + 2) as u32)
}

pub fn read_u64(bytes: &[u8], offset: usize) -> (value: u64)
    requires
        offset + 8 <= bytes.len(),
    ensures
        value == u64_at(bytes@, offset as int),
{
    read_u32(bytes, offset) as u64 + 0x1_0000_0000 * (read_u32(bytes, offset + 4) as u64)
}

/// A number takes the bytes that it is given, however large it is.
pub proof fn le_bytes_width(value: nat, width: nat)
    ensures
        le_bytes(value, width).len() == width,
    decreases width,
{
    if width > 0 {
        le_bytes_width(value / 0x100, (width - 1) as nat);
    }
}

/// A number survives being written to eight bytes and read back.
pub proof fn u64_round_trip(value: u64)
    ensures
        le_bytes(value as nat, 8).len() == 8,
        u64_at(le_bytes(value as nat, 8), 0) == value,
{
    reveal_with_fuel(le_bytes, 9);
    let v = value as nat;
    let b = le_bytes(v, 8);
    assert(b.len() == 8) by {
        le_bytes_width(v, 8);
    }
    assert(b[0] == v % 0x100);
    assert(b[1] == (v / 0x100) % 0x100);
    assert(b[2] == (v / 0x100 / 0x100) % 0x100);
    assert(b[3] == (v / 0x100 / 0x100 / 0x100) % 0x100);
    assert(b[4] == (v / 0x100 / 0x100 / 0x100 / 0x100) % 0x100);
    assert(b[5] == (v / 0x100 / 0x100 / 0x100 / 0x100 / 0x100) % 0x100);
    assert(b[6] == (v / 0x100 / 0x100 / 0x100 / 0x100 / 0x100 / 0x100) % 0x100);
    assert(b[7] == (v / 0x100 / 0x100 / 0x100 / 0x100 / 0x100 / 0x100 / 0x100) % 0x100);
}

} // verus!
