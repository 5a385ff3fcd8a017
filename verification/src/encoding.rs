//! Little-endian byte encoding shared by the binary file writers.
use vstd::prelude::*;

verus! {

/// The four bytes of `x` in little-endian order.
pub open spec fn le_u32(x: u32) -> Seq<u8> {
    seq![
        (x % 0x100) as u8,
        ((x / 0x100) % 0x100) as u8,
        ((x / 0x10000) % 0x100) as u8,
        ((x / 0x1000000) % 0x100) as u8,
    ]
}

/// `count` copies of `byte`.
pub open spec fn repeat_byte(byte: u8, count: nat) -> Seq<u8> {
    Seq::new(count, |_i: int| byte)
}

/// The UTF-8 bytes of a string.
pub open spec fn utf8_bytes(s: &String) -> Seq<u8> {
    vstd::utf8::encode_utf8(s@)
}

/// Append the little-endian bytes of `x`.
pub fn push_u32_le(out: &mut Vec<u8>, x: u32)
    ensures
        final(out)@ == old(out)@ + le_u32(x),
{
    out.push((x % 0x100) as u8);
    out.push(((x / 0x100) % 0x100) as u8);
    out.push(((x / 0x10000) % 0x100) as u8);
    out.push(((x / 0x1000000) % 0x100) as u8);
    assert(final(out)@ =~= old(out)@ + le_u32(x));
}

/// Append a slice of bytes.
pub fn push_bytes(out: &mut Vec<u8>, bytes: &[u8])
    ensures
        final(out)@ == old(out)@ + bytes@,
{
    let ghost start = out@;
    let mut i: usize = 0;
    while i < bytes.len()
        invariant
            i <= bytes@.len(),
            out@ == start + bytes@.subrange(0, i as int),
        decreases bytes@.len() - i,
    {
        out.push(bytes[i]);
        i = i + 1;
        assert(out@ =~= start + bytes@.subrange(0, i as int));
    }
    assert(bytes@.subrange(0, i as int) =~= bytes@);
}

/// Append `count` copies of `byte`.
pub fn push_repeated(out: &mut Vec<u8>, byte: u8, count: u32)
    ensures
        final(out)@ == old(out)@ + repeat_byte(byte, count as nat),
{
    let ghost start = out@;
    let mut i: u32 = 0;
    while i < count
        invariant
            i <= count,
            out@ == start + repeat_byte(byte, i as nat),
        decreases count - i,
    {
        out.push(byte);
        i = i + 1;
        assert(out@ =~= start + repeat_byte(byte, i as nat));
    }
}

/// The UTF-8 bytes of a string, copied into a vector.
pub fn string_bytes(s: &String) -> (bytes: Vec<u8>)
    ensures
        bytes@ == utf8_bytes(s),
{
    let mut bytes: Vec<u8> = Vec::new();
    push_bytes(&mut bytes, s.as_str().as_bytes());
    bytes
}

} // verus!
