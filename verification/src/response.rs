//! Building response packets: one type byte followed by the payload.

use vstd::prelude::*;
use vstd::string::StringSliceAdditionalSpecFns;
use crate::encoding::{i32_le_bytes, u32_le_bytes, push_i32_le, push_u32_le, i32_from_le, u32_from_le, lemma_i32_le_roundtrip, lemma_u32_le_roundtrip};

verus! {

/// The kind of payload that a response carries, given by its first byte.
#[derive(Debug, Copy, Clone, PartialEq, Eq, Structural)]
pub enum ResponseType {
    SignedInt,
    UnsignedInt,
    ByteString,
    Utf8String,
}

impl ResponseType {
    pub open spec fn spec_code(self) -> u8 {
        match self {
            ResponseType::SignedInt => 0,
            ResponseType::UnsignedInt => 1,
            ResponseType::ByteString => 2,
            ResponseType::Utf8String => 3,
        }
    }

    /// The type byte that opens a response of this kind.
    pub fn code(self) -> (r: u8)
        ensures
            r == self.spec_code(),
    {
        match self {
            ResponseType::SignedInt => 0,
            ResponseType::UnsignedInt => 1,
            ResponseType::ByteString => 2,
            ResponseType::Utf8String => 3,
        }
    }
}

/// A response: the type byte of `t`, then `payload`.
pub open spec fn response(t: ResponseType, payload: Seq<u8>) -> Seq<u8> {
    seq![t.spec_code()] + payload
}

/// The response carrying a signed 32-bit value.
pub open spec fn int_response(v: i32) -> Seq<u8> {
    response(ResponseType::SignedInt, i32_le_bytes(v))
}

/// The response carrying an unsigned 32-bit value.
pub open spec fn uint_response(v: u32) -> Seq<u8> {
    response(ResponseType::UnsignedInt, u32_le_bytes(v))
}

/// The response carrying raw bytes.
pub open spec fn bytes_response(b: Seq<u8>) -> Seq<u8> {
    response(ResponseType::ByteString, b)
}

/// The response carrying UTF-8 text given by its bytes.
pub open spec fn text_response(b: Seq<u8>) -> Seq<u8> {
    response(ResponseType::Utf8String, b)
}

/// The response carrying the UTF-8 encoding of `s`.
pub open spec fn str_response(s: &str) -> Seq<u8> {
    text_response(s.spec_bytes())
}

/// Packs a signed 32-bit integer: type byte 0, then its 4 little-endian bytes.
pub fn pack_int(v: i32) -> (out: Vec<u8>)
    ensures
        out@ == int_response(v),
{
    let mut out = Vec::with_capacity(1 + 4);
    out.push(ResponseType::SignedInt.code());
    push_i32_le(&mut out, v);
    out
}

/// Packs an unsigned 32-bit integer: type byte 1, then its 4 little-endian bytes.
pub fn pack_uint(v: u32) -> (out: Vec<u8>)
    ensures
        out@ == uint_response(v),
{
    let mut out = Vec::with_capacity(1 + 4);
    out.push(ResponseType::UnsignedInt.code());
    push_u32_le(&mut out, v);
    out
}

/// Packs raw bytes: type byte 2, then the bytes unchanged.
pub fn pack_bytes(b: Vec<u8>) -> (out: Vec<u8>)
    ensures
        out@ == bytes_response(b@),
{
    let mut b = b;
    let mut out = Vec::new();
    out.push(ResponseType::ByteString.code());
    out.append(&mut b);
    out
}

/// Packs UTF-8 text given by its bytes: type byte 3, then the bytes unchanged.
pub fn pack_text(b: Vec<u8>) -> (out: Vec<u8>)
    ensures
        out@ == text_response(b@),
{
    let mut b = b;
    let mut out = Vec::new();
    out.push(ResponseType::Utf8String.code());
    out.append(&mut b);
    out
}

/// Packs a UTF-8 string: type byte 3, then the UTF-8 bytes of `s` unchanged.
pub fn pack_utf_string(s: &str) -> (out: Vec<u8>)
    ensures
        out@ == str_response(s),
{
    pack_text(vstd::slice::slice_to_vec(s.as_bytes()))
}

/// The signed value carried by a response of type 0.
pub open spec fn read_int_response(r: Seq<u8>) -> int {
    i32_from_le(r.subrange(1, 5))
}

/// The unsigned value carried by a response of type 1.
pub open spec fn read_uint_response(r: Seq<u8>) -> int {
    u32_from_le(r.subrange(1, 5))
}

/// A client that reads a response gets back what was packed: the type byte tells
/// the kind, and the payload decodes to the packed value.
pub proof fn lemma_response_roundtrip(v: i32, u: u32, b: Seq<u8>)
    ensures
        int_response(v).len() == 5,
        int_response(v)[0] == ResponseType::SignedInt.spec_code(),
        read_int_response(int_response(v)) == v,
        uint_response(u).len() == 5,
        uint_response(u)[0] == ResponseType::UnsignedInt.spec_code(),
        read_uint_response(uint_response(u)) == u,
        bytes_response(b)[0] == ResponseType::ByteString.spec_code(),
        bytes_response(b).subrange(1, bytes_response(b).len() as int) == b,
        text_response(b)[0] == ResponseType::Utf8String.spec_code(),
        text_response(b).subrange(1, text_response(b).len() as int) == b,
{
    lemma_i32_le_roundtrip(v);
    lemma_u32_le_roundtrip(u);
    assert(int_response(v).subrange(1, 5) == i32_le_bytes(v));
    assert(uint_response(u).subrange(1, 5) == u32_le_bytes(u));
    assert(bytes_response(b).subrange(1, bytes_response(b).len() as int) == b);
    assert(text_response(b).subrange(1, text_response(b).len() as int) == b);
}

} // verus!
