//! Little-endian integer layouts and digit strings used on the wire.

use vstd::prelude::*;

verus! {

/// The four little-endian bytes of a 32-bit unsigned value.
pub open spec fn u32_le_bytes(v: u32) -> Seq<u8> {
    seq![(v % 256) as u8, ((v / 256) % 256) as u8, ((v / 65536) % 256) as u8, (v / 16777216) as u8]
}

/// The unsigned value of four little-endian bytes.
pub open spec fn u32_from_le(s: Seq<u8>) -> int {
    s[0] + 256 * s[1] + 65536 * s[2] + 16777216 * s[3]
}

/// The two's-complement bit pattern of a signed 32-bit value.
pub open spec fn i32_bits(v: i32) -> u32 {
    (if v < 0 { v + 0x1_0000_0000 } else { v as int }) as u32
}

/// The four little-endian bytes of a signed 32-bit value.
pub open spec fn i32_le_bytes(v: i32) -> Seq<u8> {
    u32_le_bytes(i32_bits(v))
}

/// The signed value of four little-endian two's-complement bytes.
pub open spec fn i32_from_le(s: Seq<u8>) -> int {
    let u = u32_from_le(s);
    if u < 0x8000_0000 { u } else { u - 0x1_0000_0000 }
}

/// The two little-endian bytes of a 16-bit unsigned value.
pub open spec fn u16_le_bytes(v: u16) -> Seq<u8> {
    seq![(v % 256) as u8, (v / 256) as u8]
}

/// The unsigned value of two little-endian bytes.
pub open spec fn u16_from_le(s: Seq<u8>) -> int {
    s[0] + 256 * s[1]
}

/// Appends the little-endian bytes of `v`.
pub fn push_u32_le(out: &mut Vec<u8>, v: u32)
    ensures
        final(out)@ == old(out)@ + u32_le_bytes(v),
{
    out.push((v % 256) as u8);
    out.push(((v / 256) % 256) as u8);
    out.push(((v / 65536) % 256) as u8);
    out.push((v / 16777216) as u8);
}

/// The two's-complement bit pattern of `v`.
pub fn i32_to_bits(v: i32) -> (r: u32)
    ensures
        r == i32_bits(v),
{
    if v < 0 {
        ((v as i64) + 0x1_0000_0000i64) as u32
    } else {
        v as u32
    }
}

/// Appends the little-endian two's-complement bytes of `v`.
pub fn push_i32_le(out: &mut Vec<u8>, v: i32)
    ensures
        final(out)@ == old(out)@ + i32_le_bytes(v),
{
    push_u32_le(out, i32_to_bits(v));
}

/// Reads the unsigned little-endian value stored at `data[off..off + 4]`.
pub fn read_u32_le(data: &[u8], off: usize) -> (r: u32)
    requires
        off + 4 <= data@.len(),
    ensures
        r == u32_from_le(data@.subrange(off as int, off + 4)),
{
    let b0 = data[off] as u32;
    let b1 = data[off + 1] as u32;
    let b2 = data[off + 2] as u32;
    let b3 = data[off + 3] as u32;
    b0 + b1 * 256 + b2 * 65536 + b3 * 16777216
}

/// Reads the signed little-endian value stored at `data[off..off + 4]`.
pub fn read_i32_le(data: &[u8], off: usize) -> (r: i32)
    requires
        off + 4 <= data@.len(),
    ensures
        r == i32_from_le(data@.subrange(off as int, off + 4)),
{
    let u = read_u32_le(data, off);
    if u < 0x8000_0000 {
        u as i32
    } else {
        ((u as i64) - 0x1_0000_0000i64) as i32
    }
}

/// Encoding then decoding a 32-bit signed value gives it back.
pub proof fn lemma_i32_le_roundtrip(v: i32)
    ensures
        i32_le_bytes(v).len() == 4,
        i32_from_le(i32_le_bytes(v)) == v,
{
    let u = i32_bits(v);
    assert(u32_from_le(u32_le_bytes(u)) == u) by {
        lemma_u32_le_roundtrip(u);
    }
}

/// Encoding then decoding a 32-bit unsigned value gives it back.
pub proof fn lemma_u32_le_roundtrip(v: u32)
    ensures
        u32_le_bytes(v).len() == 4,
        u32_from_le(u32_le_bytes(v)) == v,
{
    let s = u32_le_bytes(v);
    assert(s[0] == v % 256);
    assert(s[1] == (v / 256) % 256);
    assert(s[2] == (v / 65536) % 256);
    assert(s[3] == v / 16777216);
    assert(v % 256 + 256 * ((v / 256) % 256) + 65536 * ((v / 65536) % 256) + 16777216 * (v / 16777216) == v)
        by (nonlinear_arith);
}

/// The ASCII byte of a lowercase hexadecimal digit `d < 16`.
pub open spec fn hex_digit(d: int) -> u8 {
    if d < 10 { (48 + d) as u8 } else { (87 + d) as u8 }
}

/// Lowercase hexadecimal text of `v`, most significant digit first, without leading zeros.
pub open spec fn hex_lower(v: nat) -> Seq<u8>
    decreases v,
{
    if v < 16 {
        seq![hex_digit(v as int)]
    } else {
        hex_lower(v / 16).push(hex_digit((v % 16) as int))
    }
}

/// Decimal text of `v`, most significant digit first, without leading zeros.
pub open spec fn decimal(v: nat) -> Seq<u8>
    decreases v,
{
    if v < 10 {
        seq![(48 + v) as u8]
    } else {
        decimal(v / 10).push((48 + v % 10) as u8)
    }
}

/// The value of a string of hexadecimal digits (lowercase letters).
pub open spec fn hex_value(s: Seq<u8>) -> int
    decreases s.len(),
{
    if s.len() == 0 {
        0
    } else {
        let c = s.last();
        16 * hex_value(s.drop_last()) + (if c < 58 { c - 48 } else { c - 87 })
    }
}

/// The value of a string of decimal digits.
pub open spec fn decimal_value(s: Seq<u8>) -> int
    decreases s.len(),
{
    if s.len() == 0 {
        0
    } else {
        10 * decimal_value(s.drop_last()) + (s.last() - 48)
    }
}

/// Appends the lowercase hexadecimal text of `v`.
pub fn push_hex(out: &mut Vec<u8>, v: u32)
    ensures
        final(out)@ == old(out)@ + hex_lower(v as nat),
    decreases v,
{
    if v >= 16 {
        push_hex(out, v / 16);
    }
    let d = v % 16;
    if d < 10 {
        out.push((48 + d) as u8);
    } else {
        out.push((87 + d) as u8);
    }
    proof {
        if v >= 16 {
            assert(hex_lower(v as nat) == hex_lower((v / 16) as nat).push(hex_digit((v % 16) as int)));
        }
    }
}

/// Appends the decimal text of `v`.
pub fn push_decimal(out: &mut Vec<u8>, v: u32)
    ensures
        final(out)@ == old(out)@ + decimal(v as nat),
    decreases v,
{
    if v >= 10 {
        push_decimal(out, v / 10);
    }
    out.push((48 + v % 10) as u8);
    proof {
        if v >= 10 {
            assert(decimal(v as nat) == decimal((v / 10) as nat).push((48 + v % 10) as u8));
        }
    }
}

/// Reading back the hexadecimal text of `v` gives `v`: distinct values have distinct texts.
pub proof fn lemma_hex_roundtrip(v: nat)
    ensures
        hex_value(hex_lower(v)) == v,
        hex_lower(v).len() >= 1,
    decreases v,
{
    if v >= 16 {
        lemma_hex_roundtrip(v / 16);
        let s = hex_lower(v);
        assert(s.drop_last() == hex_lower(v / 16));
        assert(s.last() == hex_digit((v % 16) as int));
        let d = (v % 16) as int;
        assert(s.last() as int == (if d < 10 { 48 + d } else { 87 + d }));
        assert(hex_value(s) == 16 * hex_value(s.drop_last()) + (if s.last() < 58 { s.last() - 48 } else { s.last() - 87 }));
        assert(v == 16 * (v / 16) + v % 16);
    } else {
        let s = hex_lower(v);
        assert(s.drop_last() =~= Seq::<u8>::empty());
        assert(hex_value(s.drop_last()) == 0);
        assert(s.last() as int == (if v < 10 { 48 + v } else { 87 + v }));
    }
}

/// Reading back the decimal text of `v` gives `v`.
pub proof fn lemma_decimal_roundtrip(v: nat)
    ensures
        decimal_value(decimal(v)) == v,
        decimal(v).len() >= 1,
    decreases v,
{
    if v >= 10 {
        lemma_decimal_roundtrip(v / 10);
        let s = decimal(v);
        assert(s.drop_last() == decimal(v / 10));
        assert(s.last() == (48 + v % 10) as u8);
        assert(s.last() as int == 48 + v % 10);
        assert(v == 10 * (v / 10) + v % 10);
    } else {
        let s = decimal(v);
        assert(s.drop_last() =~= Seq::<u8>::empty());
        assert(decimal_value(s.drop_last()) == 0);
        assert(s.last() as int == 48 + v);
    }
}

/// The little-endian bytes of each value of `s`, in order.
pub open spec fn i32s_le_bytes(s: Seq<i32>) -> Seq<u8>
    decreases s.len(),
{
    if s.len() == 0 {
        Seq::empty()
    } else {
        i32s_le_bytes(s.drop_last()) + i32_le_bytes(s.last())
    }
}

/// Appends the little-endian bytes of each value of `v`, in order.
pub fn push_i32s_le(out: &mut Vec<u8>, v: &Vec<i32>)
    ensures
        final(out)@ == old(out)@ + i32s_le_bytes(v@),
{
    let ghost start = out@;
    let n = v.len();
    let mut i: usize = 0;
    while i < n
        invariant
            i <= n,
            n == v@.len(),
            out@ == start + i32s_le_bytes(v@.take(i as int)),
        decreases n - i,
    {
        push_i32_le(out, v[i]);
        assert(v@.take(i + 1).drop_last() == v@.take(i as int));
        i = i + 1;
    }
    assert(v@.take(n as int) == v@);
}

/// Each value of `s` sits at four times its index in `i32s_le_bytes(s)`.
pub proof fn lemma_i32s_le_bytes_layout(s: Seq<i32>)
    ensures
        i32s_le_bytes(s).len() == 4 * s.len(),
        forall|i: int| 0 <= i < s.len() ==>
            #[trigger] i32s_le_bytes(s).subrange(4 * i, 4 * i + 4) == i32_le_bytes(s[i]),
    decreases s.len(),
{
    if s.len() > 0 {
        let p = s.drop_last();
        lemma_i32s_le_bytes_layout(p);
        let b = i32s_le_bytes(s);
        assert(b == i32s_le_bytes(p) + i32_le_bytes(s.last()));
        assert forall|i: int| 0 <= i < s.len() implies
            #[trigger] b.subrange(4 * i, 4 * i + 4) == i32_le_bytes(s[i]) by {
            if i < s.len() - 1 {
                assert(b.subrange(4 * i, 4 * i + 4) == i32s_le_bytes(p).subrange(4 * i, 4 * i + 4));
                assert(p[i] == s[i]);
            } else {
                assert(b.subrange(4 * i, 4 * i + 4) == i32_le_bytes(s.last()));
            }
        }
    }
}

} // verus!
