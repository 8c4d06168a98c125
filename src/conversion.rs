use vstd::arithmetic::power2::{lemma2_to64_rest, lemma_pow2_pos, lemma_pow2_strictly_increases, lemma_pow2_unfold, pow2};
use vstd::prelude::*;
use vstd::string::*;

use crate::error::DecodeError;

verus! {

/// The bit at position `i` of `s`, counting from the most significant bit of
/// byte 0 (bit 0 is `s[0] & 0x80`).
pub open spec fn bit_at(s: Seq<u8>, i: nat) -> nat {
    ((s[(i / 8) as int] >> ((7 - i % 8) as u8)) & 1u8) as nat
}

/// The unsigned number that the `len` bits of `s` starting at bit `off`
/// spell, most significant bit first.
pub open spec fn bits_value(s: Seq<u8>, off: nat, len: nat) -> nat
    decreases len,
{
    if len == 0 {
        0
    } else {
        bits_value(s, off, (len - 1) as nat) * 2 + bit_at(s, (off + len - 1) as nat)
    }
}

/// Whether the window of `len` bits at `off` lies inside `s`.
pub open spec fn window_fits(s: Seq<u8>, off: nat, len: nat) -> bool {
    off + len <= s.len() * 8
}

/// Each bit is 0 or 1.
pub proof fn lemma_bit_at_is_bit(s: Seq<u8>, i: nat)
    ensures
        bit_at(s, i) <= 1,
{
    let b = s[(i / 8) as int];
    let k = (7 - i % 8) as u8;
    assert((b >> k) & 1u8 <= 1u8) by (bit_vector);
}

/// A window of `len` bits holds a number below `2^len`.
pub proof fn lemma_bits_value_bound(s: Seq<u8>, off: nat, len: nat)
    ensures
        bits_value(s, off, len) < pow2(len),
    decreases len,
{
    if len > 0 {
        lemma_bits_value_bound(s, off, (len - 1) as nat);
        lemma_pow2_unfold(len);
        lemma_bit_at_is_bit(s, (off + len - 1) as nat);
        assert(bits_value(s, off, len) == bits_value(s, off, (len - 1) as nat) * 2 + bit_at(
            s,
            (off + len - 1) as nat,
        ));
    } else {
        lemma_pow2_pos(0);
    }
}

/// Extracts the `bit_length` bits of `bytes` that start at bit
/// `bit_offset`, most significant bit first, as a right-aligned number.
pub fn get_bits_as_u64(bytes: &[u8], bit_offset: usize, bit_length: usize) -> (r: Result<u64, DecodeError>)
    requires
        1 <= bit_length <= 64,
    ensures
        r is Ok <==> window_fits(bytes@, bit_offset as nat, bit_length as nat),
        r matches Ok(v) ==> v as nat == bits_value(bytes@, bit_offset as nat, bit_length as nat),
        r matches Err(e) ==> e == DecodeError::OutOfRange,
{
    // The window ends `lead + bit_length` bits after the start of byte `first`.
    let first = bit_offset / 8;
    let lead = bit_offset % 8;
    let span = lead + bit_length;
    let span_bytes = if span % 8 != 0 { span / 8 + 1 } else { span / 8 };
    if first > bytes.len() || span_bytes > bytes.len() - first {
        return Err(DecodeError::OutOfRange);
    }
    proof {
        lemma2_to64_rest();
    }
    let mut acc: u64 = 0;
    let mut k: usize = 0;
    while k < bit_length
        invariant
            0 <= k <= bit_length <= 64,
            first == bit_offset / 8,
            lead == bit_offset % 8,
            bit_offset + bit_length <= bytes@.len() * 8,
            acc as nat == bits_value(bytes@, bit_offset as nat, k as nat),
            pow2(64) == 0x1_0000_0000_0000_0000,
        decreases bit_length - k,
    {
        let pos = lead + k;
        let byte = bytes[first + pos / 8];
        let shift = (7 - pos % 8) as u8;
        let bit = (byte >> shift) & 1u8;
        proof {
            lemma_bits_value_bound(bytes@, bit_offset as nat, k as nat);
            if k < 63 {
                lemma_pow2_strictly_increases(k as nat, 63);
            }
            lemma_pow2_unfold(64);
            assert(bit <= 1u8) by (bit_vector)
                requires
                    bit == (byte >> shift) & 1u8,
            ;
        }
        acc = acc * 2 + bit as u64;
        k = k + 1;
    }
    Ok(acc)
}

/// Like `get_bits_as_u64`, keeping the low bits that fit in a `u8`.
pub fn get_bits_as_u8(bytes: &[u8], bit_offset: usize, bit_length: usize) -> (r: Result<u8, DecodeError>)
    requires
        1 <= bit_length <= 64,
    ensures
        r is Ok <==> window_fits(bytes@, bit_offset as nat, bit_length as nat),
        r matches Ok(v) ==> v == bits_value(bytes@, bit_offset as nat, bit_length as nat) as u8,
        r matches Err(e) ==> e == DecodeError::OutOfRange,
{
    match get_bits_as_u64(bytes, bit_offset, bit_length) {
        Ok(v) => Ok(v as u8),
        Err(e) => Err(e),
    }
}

/// Like `get_bits_as_u64`, keeping the low bits that fit in a `u16`.
pub fn get_bits_as_u16(bytes: &[u8], bit_offset: usize, bit_length: usize) -> (r: Result<u16, DecodeError>)
    requires
        1 <= bit_length <= 64,
    ensures
        r is Ok <==> window_fits(bytes@, bit_offset as nat, bit_length as nat),
        r matches Ok(v) ==> v == bits_value(bytes@, bit_offset as nat, bit_length as nat) as u16,
        r matches Err(e) ==> e == DecodeError::OutOfRange,
{
    match get_bits_as_u64(bytes, bit_offset, bit_length) {
        Ok(v) => Ok(v as u16),
        Err(e) => Err(e),
    }
}

/// Like `get_bits_as_u64`, keeping the low bits that fit in a `u32`.
pub fn get_bits_as_u32(bytes: &[u8], bit_offset: usize, bit_length: usize) -> (r: Result<u32, DecodeError>)
    requires
        1 <= bit_length <= 64,
    ensures
        r is Ok <==> window_fits(bytes@, bit_offset as nat, bit_length as nat),
        r matches Ok(v) ==> v == bits_value(bytes@, bit_offset as nat, bit_length as nat) as u32,
        r matches Err(e) ==> e == DecodeError::OutOfRange,
{
    match get_bits_as_u64(bytes, bit_offset, bit_length) {
        Ok(v) => Ok(v as u32),
        Err(e) => Err(e),
    }
}

/// The field of `len` bits at `off`, cut to 8 bits.
pub open spec fn bits_u8(s: Seq<u8>, off: nat, len: nat) -> u8 {
    bits_value(s, off, len) as u8
}

/// The field of `len` bits at `off`, cut to 16 bits.
pub open spec fn bits_u16(s: Seq<u8>, off: nat, len: nat) -> u16 {
    bits_value(s, off, len) as u16
}

/// The field of `len` bits at `off`, cut to 32 bits.
pub open spec fn bits_u32(s: Seq<u8>, off: nat, len: nat) -> u32 {
    bits_value(s, off, len) as u32
}

/// Reads a field that is known to lie inside the buffer.
pub(crate) fn read_u8(bytes: &[u8], off: usize, len: usize) -> (r: u8)
    requires
        1 <= len <= 64,
        window_fits(bytes@, off as nat, len as nat),
    ensures
        r == bits_u8(bytes@, off as nat, len as nat),
{
    match get_bits_as_u8(bytes, off, len) {
        Ok(v) => v,
        Err(_) => 0,
    }
}

/// Reads a field that is known to lie inside the buffer.
pub(crate) fn read_u16(bytes: &[u8], off: usize, len: usize) -> (r: u16)
    requires
        1 <= len <= 64,
        window_fits(bytes@, off as nat, len as nat),
    ensures
        r == bits_u16(bytes@, off as nat, len as nat),
{
    match get_bits_as_u16(bytes, off, len) {
        Ok(v) => v,
        Err(_) => 0,
    }
}

/// Reads a field that is known to lie inside the buffer.
pub(crate) fn read_u32(bytes: &[u8], off: usize, len: usize) -> (r: u32)
    requires
        1 <= len <= 64,
        window_fits(bytes@, off as nat, len as nat),
    ensures
        r == bits_u32(bytes@, off as nat, len as nat),
{
    match get_bits_as_u32(bytes, off, len) {
        Ok(v) => v,
        Err(_) => 0,
    }
}

/// Reads a 1-bit flag that is known to lie inside the buffer.
pub(crate) fn read_flag(bytes: &[u8], off: usize) -> (r: bool)
    requires
        window_fits(bytes@, off as nat, 1),
    ensures
        r == (bits_u8(bytes@, off as nat, 1) != 0),
{
    read_u8(bytes, off, 1) != 0
}

/// The lowercase hexadecimal digit for `d < 16`.
pub open spec fn hex_digit(d: u8) -> char {
    match d {
        0 => '0',
        1 => '1',
        2 => '2',
        3 => '3',
        4 => '4',
        5 => '5',
        6 => '6',
        7 => '7',
        8 => '8',
        9 => '9',
        10 => 'a',
        11 => 'b',
        12 => 'c',
        13 => 'd',
        14 => 'e',
        _ => 'f',
    }
}

/// A byte in lowercase hexadecimal, without a leading zero.
pub open spec fn byte_hex(b: u8) -> Seq<char> {
    if b < 16 {
        seq![hex_digit(b)]
    } else {
        seq![hex_digit(b / 16), hex_digit(b % 16)]
    }
}

/// The bytes of `s` in lowercase hexadecimal, one after the other, each
/// without a leading zero.
pub open spec fn hex_of(s: Seq<u8>) -> Seq<char>
    decreases s.len(),
{
    if s.len() == 0 {
        Seq::empty()
    } else {
        hex_of(s.drop_last()) + byte_hex(s.last())
    }
}

fn hex_digit_str(d: u8) -> (r: &'static str)
    requires
        d < 16,
    ensures
        r@ == seq![hex_digit(d)],
{
    proof {
        reveal_strlit("0");
        reveal_strlit("1");
        reveal_strlit("2");
        reveal_strlit("3");
        reveal_strlit("4");
        reveal_strlit("5");
        reveal_strlit("6");
        reveal_strlit("7");
        reveal_strlit("8");
        reveal_strlit("9");
        reveal_strlit("a");
        reveal_strlit("b");
        reveal_strlit("c");
        reveal_strlit("d");
        reveal_strlit("e");
        reveal_strlit("f");
    }
    match d {
        0 => "0",
        1 => "1",
        2 => "2",
        3 => "3",
        4 => "4",
        5 => "5",
        6 => "6",
        7 => "7",
        8 => "8",
        9 => "9",
        10 => "a",
        11 => "b",
        12 => "c",
        13 => "d",
        14 => "e",
        _ => "f",
    }
}

/// Renders bytes as a lowercase hex string, each byte without a leading
/// zero (`[0x0a, 0xbc]` gives `"abc"`).
pub fn as_hex_string(bytes: &[u8]) -> (r: String)
    ensures
        r@ == hex_of(bytes@),
{
    let mut out = String::new();
    let mut i: usize = 0;
    while i < bytes.len()
        invariant
            0 <= i <= bytes@.len(),
            out@ == hex_of(bytes@.subrange(0, i as int)),
        decreases bytes@.len() - i,
    {
        let b = bytes[i];
        if b >= 16 {
            out.append(hex_digit_str(b / 16));
        }
        out.append(hex_digit_str(b % 16));
        proof {
            let next = bytes@.subrange(0, i + 1);
            assert(next.drop_last() =~= bytes@.subrange(0, i as int));
            assert(next.last() == b);
        }
        i = i + 1;
    }
    assert(bytes@.subrange(0, bytes@.len() as int) =~= bytes@);
    out
}

} // verus!
