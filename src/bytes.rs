use byteorder::{ByteOrder, LittleEndian};
use vstd::prelude::*;

verus! {

/// The 16-bit value whose high byte is `hi` and whose low byte is `lo`.
pub open spec fn word(hi: u8, lo: u8) -> int {
    hi as int * 256 + lo as int
}

/// The high byte of a 16-bit value.
pub open spec fn high_byte(v: u16) -> u8 {
    (v as int / 256) as u8
}

/// The low byte of a 16-bit value.
pub open spec fn low_byte(v: u16) -> u8 {
    (v as int % 256) as u8
}

/// Relies on byteorder's `LittleEndian::read_u16`: the first byte of `buf` is the
/// low half of the result and the second the high half. It panics on a buffer
/// of fewer than two bytes, which `requires` leaves out.
#[verifier::external_body]
pub(crate) fn read_le_u16(buf: &[u8]) -> (r: u16)
    requires
        buf@.len() >= 2,
    ensures
        r == word(buf@[1], buf@[0]),
{
    LittleEndian::read_u16(buf)
}

/// Relies on byteorder's `LittleEndian::write_u16`: the low half of `n` goes to
/// the first byte and the high half to the second.
#[verifier::external_body]
pub(crate) fn write_le_u16(n: u16) -> (r: [u8; 2])
    ensures
        r@[0] == low_byte(n),
        r@[1] == high_byte(n),
{
    let mut buf = [0u8; 2];
    LittleEndian::write_u16(&mut buf, n);
    buf
}

} // verus!
