use vstd::prelude::*;

verus! {

/// A 16-bit word assembled little-endian from a low and a high byte.
pub open spec fn word_from_bytes(lo: u8, hi: u8) -> u16 {
    (lo as u16) | ((hi as u16) << 8)
}

/// Reads a little-endian 16-bit word out of a byte buffer.
pub fn read_word_from_buffer(buf: &[u8], offset: usize) -> (r: u16)
    requires
        offset + 1 < buf@.len(),
    ensures
        r == word_from_bytes(buf@[offset as int], buf@[offset + 1]),
{
    (buf[offset] as u16) | ((buf[offset + 1] as u16) << 8)
}

} // verus!
