use vstd::prelude::*;

verus! {

/// The upper-case ASCII hexadecimal digit of a value below 16.
pub open spec fn hex_digit(n: u8) -> u8 {
    if n < 10 {
        (48 + n) as u8
    } else {
        (55 + n) as u8
    }
}

/// The text of the byte at position `idx` of a dump: two digits and a
/// space, then one more space after the sixth byte of a line, or a line
/// break after the twelfth.
pub open spec fn dump_entry(idx: int, b: u8) -> Seq<u8> {
    let digits = seq![hex_digit(b / 16), hex_digit(b % 16), 32u8];
    if idx % 12 == 5 {
        digits.push(32u8)
    } else if idx % 12 == 11 {
        digits.push(10u8)
    } else {
        digits
    }
}

/// The hex dump of a byte sequence, as ASCII text: twelve bytes a line,
/// with a gap after the sixth.
pub open spec fn hex_dump_text(s: Seq<u8>) -> Seq<u8>
    decreases s.len(),
{
    if s.len() == 0 {
        Seq::empty()
    } else {
        hex_dump_text(s.drop_last()) + dump_entry(s.len() - 1, s.last())
    }
}

fn digit(n: u8) -> (r: u8)
    requires
        n < 16,
    ensures
        r == hex_digit(n),
{
    if n < 10 {
        48 + n
    } else {
        55 + n
    }
}

/// Writes the hex dump of `bytes` as ASCII text.
pub fn hex_dump(bytes: &[u8]) -> (r: Vec<u8>)
    ensures
        r@ == hex_dump_text(bytes@),
{
    let mut out: Vec<u8> = Vec::new();
    let mut i: usize = 0;
    while i < bytes.len()
        invariant
            0 <= i <= bytes@.len(),
            out@ == hex_dump_text(bytes@.subrange(0, i as int)),
        decreases bytes@.len() - i,
    {
        let b = bytes[i];
        let ghost before = out@;
        out.push(digit(b / 16));
        out.push(digit(b % 16));
        out.push(32u8);
        if i % 12 == 5 {
            out.push(32u8);
        } else if i % 12 == 11 {
            out.push(10u8);
        }
        assert(out@ =~= before + dump_entry(i as int, b));
        assert(bytes@.subrange(0, i + 1).drop_last() =~= bytes@.subrange(0, i as int));
        i = i + 1;
    }
    assert(bytes@.subrange(0, bytes@.len() as int) =~= bytes@);
    out
}

/// A hardware address as text: two upper-case hexadecimal digits a byte,
/// the bytes separated by colons.
pub open spec fn addr_text_of(a: Seq<u8>) -> Seq<u8>
    decreases a.len(),
{
    if a.len() == 0 {
        Seq::empty()
    } else {
        let sep = if a.len() > 1 {
            seq![58u8]
        } else {
            Seq::empty()
        };
        addr_text_of(a.drop_last()) + sep + seq![hex_digit(a.last() / 16), hex_digit(a.last() % 16)]
    }
}

/// Writes a hardware address as `11:22:33:AA:BB:CC`, in ASCII.
pub fn addr_text(a: [u8; 6]) -> (r: Vec<u8>)
    ensures
        r@ == addr_text_of(a@),
{
    let mut out: Vec<u8> = Vec::new();
    let mut i: usize = 0;
    while i < 6
        invariant
            0 <= i <= 6,
            a@.len() == 6,
            out@ == addr_text_of(a@.subrange(0, i as int)),
        decreases 6 - i,
    {
        let b = a[i];
        let ghost before = out@;
        if i > 0 {
            out.push(58u8);
        }
        out.push(digit(b / 16));
        out.push(digit(b % 16));
        assert(a@.subrange(0, i + 1).drop_last() =~= a@.subrange(0, i as int));
        assert(out@ =~= addr_text_of(a@.subrange(0, i + 1)));
        i = i + 1;
    }
    assert(a@.subrange(0, 6) =~= a@);
    out
}

} // verus!
