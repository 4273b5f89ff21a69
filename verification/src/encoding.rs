//! Consensus byte encodings of integers and length-prefixed byte strings.

use vstd::prelude::*;

verus! {

/// The four bytes of `x`, least significant first.
pub open spec fn u32_le(x: u32) -> Seq<u8> {
    seq![
        (x % 256) as u8,
        (x / 256 % 256) as u8,
        (x / 65536 % 256) as u8,
        (x / 16777216) as u8,
    ]
}

/// The eight bytes of `x`, least significant first.
pub open spec fn u64_le(x: u64) -> Seq<u8> {
    u32_le((x % 0x1_0000_0000) as u32) + u32_le((x / 0x1_0000_0000) as u32)
}

/// The unsigned 32-bit number with the same bits as `x` in two's complement.
pub open spec fn i32_bits(x: i32) -> u32 {
    if x >= 0 {
        x as u32
    } else {
        (x + 0x1_0000_0000) as u32
    }
}

/// The four bytes of `x` in two's complement, least significant first.
pub open spec fn i32_le(x: i32) -> Seq<u8> {
    u32_le(i32_bits(x))
}

/// The low 32 bits of a count, as the consensus encoding of a count keeps them.
pub open spec fn count_u32(n: nat) -> u32 {
    (n % 0x1_0000_0000) as u32
}

/// The variable-length encoding of a length: one byte below 0xfd, otherwise a
/// marker byte followed by two, four or eight bytes, least significant first.
pub open spec fn compact_size(n: nat) -> Seq<u8> {
    if n < 0xfd {
        seq![n as u8]
    } else if n <= 0xffff {
        seq![0xfdu8, (n % 256) as u8, (n / 256) as u8]
    } else if n <= 0xffff_ffff {
        seq![0xfeu8] + u32_le(n as u32)
    } else {
        seq![0xffu8] + u64_le(n as u64)
    }
}

/// A byte string behind its length.
pub open spec fn var_bytes(bytes: Seq<u8>) -> Seq<u8> {
    compact_size(bytes.len()) + bytes
}

/// The mathematical value of bytes that may be missing.
pub open spec fn bytes_option(o: Option<Vec<u8>>) -> Option<Seq<u8>> {
    match o {
        Some(bytes) => Some(bytes@),
        None => None,
    }
}

/// The hexadecimal digit, in lower case, for a number below sixteen.
pub open spec fn hex_digit(n: int) -> char {
    seq!['0', '1', '2', '3', '4', '5', '6', '7', '8', '9', 'a', 'b', 'c', 'd', 'e', 'f'][n]
}

/// A byte string written in hexadecimal: two lower-case digits for each
/// byte, the high half first.
pub open spec fn hex_text(bytes: Seq<u8>) -> Seq<char> {
    Seq::new(
        2 * bytes.len(),
        |i: int|
            if i % 2 == 0 {
                hex_digit(bytes[i / 2] as int / 16)
            } else {
                hex_digit(bytes[i / 2] as int % 16)
            },
    )
}

/// Writes a byte string in hexadecimal.
///
/// Calls `hex::encode`, which writes each byte as two lower-case hexadecimal
/// digits.
#[verifier::external_body]
pub(crate) fn hex_encode(bytes: &Vec<u8>) -> (text: String)
    ensures
        text@ == hex_text(bytes@),
{
    hex::encode(bytes)
}

/// A number is made up of its four bytes.
proof fn lemma_u32_from_its_bytes(x: u32)
    ensures
        x == (x % 256) + 256 * (x / 256 % 256) + 65536 * (x / 65536 % 256) + 16777216 * (x
            / 16777216),
        x / 16777216 < 256,
{
}

/// Two numbers with the same four bytes are the same.
pub proof fn lemma_u32_le_injective(a: u32, b: u32)
    requires
        u32_le(a) == u32_le(b),
    ensures
        a == b,
{
    lemma_u32_from_its_bytes(a);
    lemma_u32_from_its_bytes(b);
    let x = u32_le(a);
    let y = u32_le(b);
    assert(x[0] == y[0] && x[1] == y[1] && x[2] == y[2] && x[3] == y[3]);
    assert(a % 256 == b % 256);
    assert(a / 256 % 256 == b / 256 % 256);
    assert(a / 65536 % 256 == b / 65536 % 256);
    assert(a / 16777216 == b / 16777216);
}

/// Two numbers with the same eight bytes are the same.
pub proof fn lemma_u64_le_injective(a: u64, b: u64)
    requires
        u64_le(a) == u64_le(b),
    ensures
        a == b,
{
    let al = (a % 0x1_0000_0000) as u32;
    let ah = (a / 0x1_0000_0000) as u32;
    let bl = (b % 0x1_0000_0000) as u32;
    let bh = (b / 0x1_0000_0000) as u32;
    assert(u32_le(al) =~= u64_le(a).subrange(0, 4));
    assert(u32_le(ah) =~= u64_le(a).subrange(4, 8));
    assert(u32_le(bl) =~= u64_le(b).subrange(0, 4));
    assert(u32_le(bh) =~= u64_le(b).subrange(4, 8));
    lemma_u32_le_injective(al, bl);
    lemma_u32_le_injective(ah, bh);
}

/// Two byte strings with the same length-prefixed encoding are the same.
pub proof fn lemma_var_bytes_injective(a: Seq<u8>, b: Seq<u8>)
    requires
        var_bytes(a) == var_bytes(b),
    ensures
        a == b,
{
    let x = var_bytes(a);
    let y = var_bytes(b);
    let n = a.len();
    let m = b.len();
    assert(x[0] == y[0]);
    assert(x.len() == y.len());
    if n < 0xfd {
        assert(x[0] == n as u8);
        assert(m < 0xfd);
        assert(y[0] == m as u8);
        assert(n == m);
        assert(a =~= x.subrange(1, x.len() as int));
        assert(b =~= y.subrange(1, y.len() as int));
    } else if n <= 0xffff {
        assert(x[0] == 0xfdu8);
        assert(0xfd <= m <= 0xffff);
        assert(x.len() == 3 + n);
        assert(y.len() == 3 + m);
        assert(a =~= x.subrange(3, x.len() as int));
        assert(b =~= y.subrange(3, y.len() as int));
    } else if n <= 0xffff_ffff {
        assert(x[0] == 0xfeu8);
        assert(0xffff < m <= 0xffff_ffff);
        assert(x.len() == 5 + n);
        assert(y.len() == 5 + m);
        assert(a =~= x.subrange(5, x.len() as int));
        assert(b =~= y.subrange(5, y.len() as int));
    } else {
        assert(x[0] == 0xffu8);
        assert(m > 0xffff_ffff);
        assert(x.len() == 9 + n);
        assert(y.len() == 9 + m);
        assert(a =~= x.subrange(9, x.len() as int));
        assert(b =~= y.subrange(9, y.len() as int));
    }
}

/// Appends the little-endian bytes of `x` to `buf`.
pub fn put_u32_le(buf: &mut Vec<u8>, x: u32)
    ensures
        final(buf)@ == old(buf)@ + u32_le(x),
{
    buf.push((x % 256) as u8);
    buf.push((x / 256 % 256) as u8);
    buf.push((x / 65536 % 256) as u8);
    buf.push((x / 16777216) as u8);
    assert(buf@ =~= old(buf)@ + u32_le(x));
}

/// Appends the little-endian bytes of `x` to `buf`.
pub fn put_u64_le(buf: &mut Vec<u8>, x: u64)
    ensures
        final(buf)@ == old(buf)@ + u64_le(x),
{
    put_u32_le(buf, (x % 0x1_0000_0000) as u32);
    put_u32_le(buf, (x / 0x1_0000_0000) as u32);
    assert(buf@ =~= old(buf)@ + u64_le(x));
}

/// Appends the two's complement little-endian bytes of `x` to `buf`.
pub fn put_i32_le(buf: &mut Vec<u8>, x: i32)
    ensures
        final(buf)@ == old(buf)@ + i32_le(x),
{
    let bits: u32 = if x >= 0 {
        x as u32
    } else {
        ((x + i32::MAX) + 1) as u32 + 0x8000_0000u32
    };
    put_u32_le(buf, bits);
}

/// Appends the low 32 bits of `n`, little-endian, to `buf`.
pub fn put_count(buf: &mut Vec<u8>, n: usize)
    ensures
        final(buf)@ == old(buf)@ + u32_le(count_u32(n as nat)),
{
    let wide: u64 = n as u64;
    put_u32_le(buf, (wide % 0x1_0000_0000) as u32);
}

/// Appends the variable-length encoding of `n` to `buf`.
pub fn put_compact_size(buf: &mut Vec<u8>, n: usize)
    ensures
        final(buf)@ == old(buf)@ + compact_size(n as nat),
{
    let wide: u64 = n as u64;
    if wide < 0xfd {
        buf.push(wide as u8);
        assert(buf@ =~= old(buf)@ + compact_size(n as nat));
    } else if wide <= 0xffff {
        buf.push(0xfd);
        buf.push((wide % 256) as u8);
        buf.push((wide / 256) as u8);
        assert(buf@ =~= old(buf)@ + compact_size(n as nat));
    } else if wide <= 0xffff_ffff {
        buf.push(0xfe);
        put_u32_le(buf, wide as u32);
        assert(buf@ =~= old(buf)@ + compact_size(n as nat));
    } else {
        buf.push(0xff);
        put_u64_le(buf, wide);
        assert(buf@ =~= old(buf)@ + compact_size(n as nat));
    }
}

/// Appends `bytes` to `buf`.
pub fn put_bytes(buf: &mut Vec<u8>, bytes: &Vec<u8>)
    ensures
        final(buf)@ == old(buf)@ + bytes@,
{
    let mut i: usize = 0;
    while i < bytes.len()
        invariant
            i <= bytes.len(),
            buf@ == old(buf)@ + bytes@.subrange(0, i as int),
        decreases bytes.len() - i,
    {
        buf.push(bytes[i]);
        i += 1;
        assert(buf@ =~= old(buf)@ + bytes@.subrange(0, i as int));
    }
    assert(bytes@.subrange(0, i as int) =~= bytes@);
}

/// Appends `bytes` behind its length to `buf`.
pub fn put_var_bytes(buf: &mut Vec<u8>, bytes: &Vec<u8>)
    ensures
        final(buf)@ == old(buf)@ + var_bytes(bytes@),
{
    put_compact_size(buf, bytes.len());
    put_bytes(buf, bytes);
    assert(buf@ =~= old(buf)@ + var_bytes(bytes@));
}

} // verus!
