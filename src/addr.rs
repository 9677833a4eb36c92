use vstd::prelude::*;

verus! {

/// The value of a lower-case hexadecimal digit; any other character counts
/// as zero.
pub open spec fn hex_value(c: char) -> u8 {
    if '0' <= c && c <= '9' {
        (c as u32 - '0' as u32) as u8
    } else if 'a' <= c && c <= 'f' {
        (c as u32 - 'a' as u32 + 10) as u8
    } else {
        0
    }
}

/// The value of a lower-case hexadecimal digit, zero for any other character.
pub fn cvt(c: char) -> (r: u8)
    ensures
        r == hex_value(c),
        r < 16,
{
    if '0' <= c && c <= '9' {
        (c as u32 - '0' as u32) as u8
    } else if 'a' <= c && c <= 'f' {
        (c as u32 - 'a' as u32 + 10) as u8
    } else {
        0
    }
}

} // verus!
