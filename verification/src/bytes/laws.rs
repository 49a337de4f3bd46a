//! What fields of bytes promise.

use vstd::prelude::*;

use crate::bytes::read_u16;
use crate::bytes::read_u32;
use crate::bytes::read_u64;

verus! {

/// A field is made up of its bytes, the lowest first.
pub proof fn fields_are_made_up_of_their_bytes(
    bytes: &[u8],
    offset: usize,
    short: u16,
    word: u32,
    long: u64,
)
    requires
        offset + 8 <= bytes@.len(),
        call_ensures(read_u16, (bytes, offset), short),
        call_ensures(read_u32, (bytes, offset), word),
        call_ensures(read_u64, (bytes, offset), long),
    ensures
        short == bytes@[offset as int] + 0x100 * bytes@[offset + 1],
        word == short + 0x1_0000 * bytes@[offset + 2] + 0x100_0000 * bytes@[offset + 3],
        long == word + 0x1_0000_0000 * bytes@[offset + 4] + 0x100_0000_0000 * bytes@[offset + 5]
            + 0x1_0000_0000_0000 * bytes@[offset + 6] + 0x100_0000_0000_0000 * bytes@[offset + 7],
{
}

} // verus!
