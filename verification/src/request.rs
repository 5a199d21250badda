//! Reading the parameters of a request packet.
//!
//! A request is the 16-bit little-endian endpoint id, followed by 4-byte
//! little-endian parameters, followed by NUL-terminated strings whose start
//! offsets (from the start of the packet) are given as parameters.

use vstd::prelude::*;
use vstd::slice::slice_subrange;
use crate::encoding::{
    i32_from_le, read_i32_le, u16_le_bytes, u16_from_le, i32s_le_bytes, lemma_i32s_le_bytes_layout,
    lemma_i32_le_roundtrip,
};

verus! {

/// Offset where the two bytes of the endpoint id end and the parameters begin.
pub const REQ_PARAMS_OFFSET: usize = 2;

/// Byte offset of the parameter at index `pos`.
pub open spec fn param_offset(pos: int) -> int {
    REQ_PARAMS_OFFSET + 4 * pos
}

/// The signed parameter at index `pos`, or 0 when the packet is too short to hold it.
pub open spec fn spec_get_int(data: Seq<u8>, pos: int) -> int {
    let off = param_offset(pos);
    if off + 4 > data.len() {
        0
    } else {
        i32_from_le(data.subrange(off, off + 4))
    }
}

/// The low 16 bits of `v`, read as a signed value.
pub open spec fn low_i16(v: int) -> int {
    let m = v % 65536;
    if m < 32768 { m } else { m - 65536 }
}

/// Index of the first NUL byte of `s`, or `s.len()` when there is none.
pub open spec fn first_nul(s: Seq<u8>) -> int
    decreases s.len(),
{
    if s.len() == 0 {
        0
    } else if s[0] == 0 {
        0
    } else {
        1 + first_nul(s.drop_first())
    }
}

/// The bytes of `s` up to and including its first NUL, or all of `s` when it has none.
pub open spec fn c_string(s: Seq<u8>) -> Seq<u8> {
    if first_nul(s) < s.len() {
        s.take(first_nul(s) + 1)
    } else {
        s
    }
}

/// The string whose offset is the parameter at `pos`: the NUL-terminated bytes
/// from that offset, or a lone NUL when the offset lies outside the packet.
pub open spec fn spec_get_string(data: Seq<u8>, pos: int) -> Seq<u8> {
    let off = spec_get_int(data, pos);
    if off < 0 || off >= data.len() {
        seq![0u8]
    } else {
        c_string(data.subrange(off, data.len() as int))
    }
}

/// `first_nul` is the index of the first zero, or the length when no byte is zero.
pub proof fn lemma_first_nul(s: Seq<u8>, k: int)
    requires
        0 <= k <= s.len(),
        forall|j: int| 0 <= j < k ==> s[j] != 0,
        k == s.len() || s[k] == 0,
    ensures
        first_nul(s) == k,
    decreases s.len(),
{
    if s.len() > 0 && k > 0 {
        assert forall|j: int| 0 <= j < k - 1 implies s.drop_first()[j] != 0 by {
            assert(s[j + 1] != 0);
        }
        lemma_first_nul(s.drop_first(), k - 1);
    }
}

/// Scans `data[from..]` for the first NUL and returns its index, or `data.len()`.
pub fn find_nul(data: &[u8], from: usize) -> (r: usize)
    requires
        from <= data@.len(),
    ensures
        from <= r <= data@.len(),
        r - from == first_nul(data@.subrange(from as int, data@.len() as int)),
{
    let len = data.len();
    let mut i = from;
    while i < len && data[i] != 0
        invariant
            from <= i <= len,
            len == data@.len(),
            forall|j: int| from <= j < i ==> data@[j] != 0,
        decreases len - i,
    {
        i = i + 1;
    }
    proof {
        let s = data@.subrange(from as int, len as int);
        assert forall|j: int| 0 <= j < i - from implies s[j] != 0 by {
            assert(data@[from + j] != 0);
        }
        lemma_first_nul(s, i - from);
    }
    i
}

/// A read-only view of one request packet.
pub struct RequestContext<'a> {
    data: &'a [u8],
}

impl<'a> View for RequestContext<'a> {
    type V = Seq<u8>;

    closed spec fn view(&self) -> Seq<u8> {
        self.data@
    }
}

/// The one-byte string returned for a string offset outside the packet.
const NUL: [u8; 1] = [0];

impl<'a> RequestContext<'a> {
    /// Wraps the bytes of a request packet.
    pub fn new(data: &'a [u8]) -> (ctx: Self)
        ensures
            ctx@ == data@,
    {
        Self { data }
    }

    /// Reads the 4-byte little-endian signed parameter at index `pos`,
    /// or 0 when the packet ends before it.
    pub fn get_int(&self, pos: usize) -> (r: i32)
        requires
            4 * pos + 6 <= usize::MAX,
        ensures
            r == spec_get_int(self@, pos as int),
    {
        let off = pos * 4 + REQ_PARAMS_OFFSET;
        if off + 4 > self.data.len() {
            return 0;
        }
        read_i32_le(self.data, off)
    }

    /// Reads the parameter at index `pos` and keeps its low 16 bits as a signed value.
    pub fn get_short(&self, pos: usize) -> (r: i16)
        requires
            4 * pos + 6 <= usize::MAX,
        ensures
            r == low_i16(spec_get_int(self@, pos as int)),
    {
        let val = self.get_int(pos);
        let shifted: i64 = (val as i64) + 0x8000_0000i64;
        let m: i64 = shifted % 65536;
        proof {
            let v = val as int;
            assert((v + 0x8000_0000) % 65536 == v % 65536) by (nonlinear_arith)
                requires 0x8000_0000 == 65536 * 32768;
            assert(m == v % 65536);
        }
        if m < 32768 {
            m as i16
        } else {
            (m - 65536) as i16
        }
    }

    /// Reads the parameter at index `pos` as an offset into the packet and returns
    /// the bytes from there up to and including the first NUL (all remaining bytes
    /// when there is none); a lone NUL when the offset lies outside the packet.
    pub fn get_string(&self, pos: usize) -> (r: &'a [u8])
        requires
            4 * pos + 6 <= usize::MAX,
        ensures
            r@ == spec_get_string(self@, pos as int),
    {
        let v = self.get_int(pos);
        if v < 0 {
            return &NUL;
        }
        let off = v as usize;
        let len = self.data.len();
        if off >= len {
            return &NUL;
        }
        let nul = find_nul(self.data, off);
        if nul < len {
            slice_subrange(self.data, off, nul + 1)
        } else {
            slice_subrange(self.data, off, len)
        }
    }

    /// The packet without its two id bytes.
    pub fn get_body(&self) -> (r: &'a [u8])
        requires
            self@.len() >= 2,
        ensures
            r@ == self@.subrange(2, self@.len() as int),
    {
        slice_subrange(self.data, 2, self.data.len())
    }
}

/// A request as a client builds it: the endpoint id, the parameters, then the
/// bytes that hold the strings.
pub open spec fn encode_request(id: u16, params: Seq<i32>, strings: Seq<u8>) -> Seq<u8> {
    u16_le_bytes(id) + i32s_le_bytes(params) + strings
}

/// The host reads back the id and every parameter that the client wrote.
pub proof fn lemma_request_params_roundtrip(id: u16, params: Seq<i32>, strings: Seq<u8>, i: int)
    requires
        0 <= i < params.len(),
    ensures
        u16_from_le(encode_request(id, params, strings).subrange(0, 2)) == id,
        spec_get_int(encode_request(id, params, strings), i) == params[i],
{
    let req = encode_request(id, params, strings);
    lemma_i32s_le_bytes_layout(params);
    assert(req.subrange(0, 2) == u16_le_bytes(id));
    let off = param_offset(i);
    assert(req.subrange(off, off + 4) == i32s_le_bytes(params).subrange(4 * i, 4 * i + 4));
    lemma_i32_le_roundtrip(params[i]);
}

/// A string that the client placed right after the parameters, with its offset in
/// parameter `p`, is read back by the host with its terminating NUL.
pub proof fn lemma_request_string_roundtrip(id: u16, params: Seq<i32>, s: Seq<u8>, rest: Seq<u8>, p: int)
    requires
        0 <= p < params.len(),
        params[p] == param_offset(params.len() as int),
        forall|k: int| 0 <= k < s.len() ==> s[k] != 0,
    ensures
        spec_get_string(encode_request(id, params, s.push(0) + rest), p) == s.push(0),
{
    let strings = s.push(0) + rest;
    let req = encode_request(id, params, strings);
    lemma_request_params_roundtrip(id, params, strings, p);
    lemma_i32s_le_bytes_layout(params);
    let off = param_offset(params.len() as int);
    assert(req.subrange(off, req.len() as int) == strings);
    assert forall|j: int| 0 <= j < s.len() implies strings[j] != 0 by {
        assert(strings[j] == s[j]);
    }
    lemma_first_nul(strings, s.len() as int);
    assert(strings.take(s.len() as int + 1) == s.push(0));
}

/// `first_nul` points at the first zero byte when there is one, and past the end
/// otherwise; no byte before it is zero.
pub proof fn lemma_first_nul_bounds(s: Seq<u8>)
    ensures
        0 <= first_nul(s) <= s.len(),
        forall|j: int| 0 <= j < first_nul(s) ==> s[j] != 0,
        first_nul(s) < s.len() ==> s[first_nul(s)] == 0,
    decreases s.len(),
{
    if s.len() > 0 && s[0] != 0 {
        lemma_first_nul_bounds(s.drop_first());
        assert forall|j: int| 0 <= j < first_nul(s) implies s[j] != 0 by {
            if j > 0 {
                assert(s[j] == s.drop_first()[j - 1]);
            }
        }
        if first_nul(s) < s.len() {
            assert(s[first_nul(s)] == s.drop_first()[first_nul(s) - 1]);
        }
    }
}

} // verus!
