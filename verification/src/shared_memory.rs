//! The shared-memory block through which audio and callback messages reach
//! the client: its size, the names of the objects, the 12-byte header written
//! before each notification, and the reading of the client's answer.
//!
//! Layout: bytes 0-3 `h_engine` (the engine handle; the client overwrites it
//! with its result code), bytes 4-7 `msg`, bytes 8-11 `lparam`, all little
//! endian; the 16-bit audio samples start at byte 12.

use vstd::prelude::*;
use vstd::string::StringSliceAdditionalSpecFns;
use vstd::slice::slice_to_vec;
use crate::defs::{ECICallbackReturn, ECIMessage, spec_message_from_value};
use crate::encoding::{
    u32_le_bytes, i32_le_bytes, u32_from_le, i32_from_le, hex_lower, decimal, push_u32_le,
    lemma_hex_roundtrip,
    push_i32_le, push_hex, push_decimal, lemma_u32_le_roundtrip, lemma_i32_le_roundtrip,
};

verus! {

/// Size in bytes of the header that precedes the audio samples.
pub const SHARED_HEADER_SIZE: usize = 12;

/// Status of a wait that ended because the awaited event was signalled.
pub const WAIT_OBJECT_0: u32 = 0;

/// Milliseconds the host waits for the client to process one notification.
pub const CALLBACK_WAIT_MS: u32 = 5000;

/// The header that the host writes at the start of the block before each notification.
pub struct SharedHeader {
    pub h_engine: u32,
    pub msg: u32,
    pub lparam: i32,
}

/// The 12 header bytes for the given fields.
pub open spec fn header_bytes(h_engine: u32, msg: u32, lparam: i32) -> Seq<u8> {
    u32_le_bytes(h_engine) + u32_le_bytes(msg) + i32_le_bytes(lparam)
}

/// The code written at offset 4 for the engine's message code `msg`: the client
/// code of the message it names, or `msg` itself when it names none.
pub open spec fn spec_header_message_code(msg: u32) -> u32 {
    match spec_message_from_value(msg) {
        Some(m) => m.spec_client_code(),
        None => msg,
    }
}

/// The client's code for the engine's message code `msg`.
pub fn header_message_code(msg: u32) -> (r: u32)
    ensures
        r == spec_header_message_code(msg),
{
    match ECIMessage::from_value(msg) {
        Some(m) => m.client_code(),
        None => msg,
    }
}

/// Different engine messages are written with different codes, so the client
/// can always tell them apart.
pub proof fn lemma_header_message_code_injective(a: u32, b: u32)
    ensures
        spec_header_message_code(a) == spec_header_message_code(b) ==> a == b,
{
}

impl SharedHeader {
    /// The header that announces the engine's message `msg` (engine code) with
    /// `lparam` for engine `h_engine`: the message is written with its client code.
    pub fn for_message(h_engine: u32, msg: u32, lparam: i32) -> (r: SharedHeader)
        ensures
            r.h_engine == h_engine,
            r.msg == spec_header_message_code(msg),
            r.lparam == lparam,
    {
        SharedHeader { h_engine, msg: header_message_code(msg), lparam }
    }

    /// The header as it is laid out in shared memory.
    pub fn to_bytes(&self) -> (r: Vec<u8>)
        ensures
            r@ == header_bytes(self.h_engine, self.msg, self.lparam),
    {
        let mut out = Vec::with_capacity(SHARED_HEADER_SIZE);
        push_u32_le(&mut out, self.h_engine);
        push_u32_le(&mut out, self.msg);
        push_i32_le(&mut out, self.lparam);
        out
    }
}

/// What a client reading the header bytes finds in each field is what the host wrote there.
pub proof fn lemma_header_roundtrip(h_engine: u32, msg: u32, lparam: i32)
    ensures
        header_bytes(h_engine, msg, lparam).len() == SHARED_HEADER_SIZE,
        u32_from_le(header_bytes(h_engine, msg, lparam).subrange(0, 4)) == h_engine,
        u32_from_le(header_bytes(h_engine, msg, lparam).subrange(4, 8)) == msg,
        i32_from_le(header_bytes(h_engine, msg, lparam).subrange(8, 12)) == lparam,
{
    lemma_u32_le_roundtrip(h_engine);
    lemma_u32_le_roundtrip(msg);
    lemma_i32_le_roundtrip(lparam);
    let b = header_bytes(h_engine, msg, lparam);
    assert(b.subrange(0, 4) == u32_le_bytes(h_engine));
    assert(b.subrange(4, 8) == u32_le_bytes(msg));
    assert(b.subrange(8, 12) == i32_le_bytes(lparam));
}

/// What the engine is told after the client answered with `code`:
/// 1 continues, 2 aborts, anything else marks the data as not processed.
pub open spec fn spec_result_code_return(code: u32) -> ECICallbackReturn {
    if code == 1 {
        ECICallbackReturn::eciDataProcessed
    } else if code == 2 {
        ECICallbackReturn::eciDataAbort
    } else {
        ECICallbackReturn::eciDataNotProcessed
    }
}

/// The callback's answer to the engine after the wait for the client ended with
/// `wait_status`; `result_code` is the value the client left in bytes 0-3 and is
/// only looked at when the client signalled in time.
pub fn callback_return(wait_status: u32, result_code: u32) -> (r: ECICallbackReturn)
    ensures
        wait_status == WAIT_OBJECT_0 ==> r == spec_result_code_return(result_code),
        wait_status != WAIT_OBJECT_0 ==> r == ECICallbackReturn::eciDataAbort,
{
    if wait_status == WAIT_OBJECT_0 {
        if result_code == 1 {
            ECICallbackReturn::eciDataProcessed
        } else if result_code == 2 {
            ECICallbackReturn::eciDataAbort
        } else {
            ECICallbackReturn::eciDataNotProcessed
        }
    } else {
        ECICallbackReturn::eciDataAbort
    }
}

/// Size of the block for a buffer of `samples` 16-bit samples: two bytes per
/// sample plus the header, saturated at the largest size.
pub fn shared_memory_size(samples: u32) -> (size: usize)
    requires
        2 * samples <= usize::MAX,
    ensures
        size == if 2 * samples + 12 <= usize::MAX { 2 * samples + 12 } else { usize::MAX as int },
{
    let doubled = (samples as usize) * 2;
    doubled.saturating_add(SHARED_HEADER_SIZE)
}

/// Name of the file mapping for engine `id`.
pub open spec fn spec_shm_name(id: u32) -> Seq<u8> {
    "Local\\eci_shm_".spec_bytes() + hex_lower(id as nat)
}

/// Name of the event that tells the client that data is ready, for engine `id`.
pub open spec fn spec_ready_event_name(id: u32) -> Seq<u8> {
    "Local\\eci_ready_".spec_bytes() + hex_lower(id as nat)
}

/// Name of the event that tells the host that the client is done, for engine `id`.
pub open spec fn spec_processed_event_name(id: u32) -> Seq<u8> {
    "Local\\eci_proc_".spec_bytes() + hex_lower(id as nat)
}

/// `prefix` followed by the lowercase hexadecimal text of `id`.
fn name_with_hex(prefix: &str, id: u32) -> (r: Vec<u8>)
    ensures
        r@ == prefix.spec_bytes() + hex_lower(id as nat),
{
    let mut out = slice_to_vec(prefix.as_bytes());
    push_hex(&mut out, id);
    out
}

/// Name of the file mapping for engine `id`: `Local\eci_shm_` and the id in lowercase hex.
pub fn shm_name(id: u32) -> (r: Vec<u8>)
    ensures
        r@ == spec_shm_name(id),
{
    name_with_hex("Local\\eci_shm_", id)
}

/// Name of the ready event for engine `id`: `Local\eci_ready_` and the id in lowercase hex.
pub fn ready_event_name(id: u32) -> (r: Vec<u8>)
    ensures
        r@ == spec_ready_event_name(id),
{
    name_with_hex("Local\\eci_ready_", id)
}

/// Name of the processed event for engine `id`: `Local\eci_proc_` and the id in lowercase hex.
pub fn processed_event_name(id: u32) -> (r: Vec<u8>)
    ensures
        r@ == spec_processed_event_name(id),
{
    name_with_hex("Local\\eci_proc_", id)
}

/// Why the block could not be set up, with the system error code.
#[derive(Debug, Copy, Clone, PartialEq, Eq, Structural)]
pub enum ShmError {
    MappingFailed(u32),
    ViewFailed(u32),
}

impl ShmError {
    pub open spec fn spec_message(self) -> Seq<u8> {
        match self {
            ShmError::MappingFailed(code) => "CreateFileMappingW failed: ".spec_bytes() + decimal(code as nat),
            ShmError::ViewFailed(code) => "MapViewOfFile failed: ".spec_bytes() + decimal(code as nat),
        }
    }

    /// The text that describes the failure: the failing call and the decimal error code.
    pub fn message(&self) -> (r: Vec<u8>)
        ensures
            r@ == self.spec_message(),
    {
        match self {
            ShmError::MappingFailed(code) => {
                let mut out = slice_to_vec("CreateFileMappingW failed: ".as_bytes());
                push_decimal(&mut out, *code);
                out
            },
            ShmError::ViewFailed(code) => {
                let mut out = slice_to_vec("MapViewOfFile failed: ".as_bytes());
                push_decimal(&mut out, *code);
                out
            },
        }
    }
}

/// Distinct engine handles get distinct object names, so two engines never share
/// a block or an event.
pub proof fn lemma_names_identify_handle(a: u32, b: u32)
    ensures
        spec_shm_name(a) == spec_shm_name(b) ==> a == b,
        spec_ready_event_name(a) == spec_ready_event_name(b) ==> a == b,
        spec_processed_event_name(a) == spec_processed_event_name(b) ==> a == b,
{
    lemma_hex_roundtrip(a as nat);
    lemma_hex_roundtrip(b as nat);
    let ha = hex_lower(a as nat);
    let hb = hex_lower(b as nat);
    let p1 = "Local\\eci_shm_".spec_bytes();
    let p2 = "Local\\eci_ready_".spec_bytes();
    let p3 = "Local\\eci_proc_".spec_bytes();
    if spec_shm_name(a) == spec_shm_name(b) {
        assert((p1 + ha).subrange(p1.len() as int, (p1 + ha).len() as int) == ha);
        assert((p1 + hb).subrange(p1.len() as int, (p1 + hb).len() as int) == hb);
    }
    if spec_ready_event_name(a) == spec_ready_event_name(b) {
        assert((p2 + ha).subrange(p2.len() as int, (p2 + ha).len() as int) == ha);
        assert((p2 + hb).subrange(p2.len() as int, (p2 + hb).len() as int) == hb);
    }
    if spec_processed_event_name(a) == spec_processed_event_name(b) {
        assert((p3 + ha).subrange(p3.len() as int, (p3 + ha).len() as int) == ha);
        assert((p3 + hb).subrange(p3.len() as int, (p3 + hb).len() as int) == hb);
    }
}

/// The client finds at offset 4 of the header the documented code of the message
/// the engine sent: 3 for new audio, 4 for an index reply, 0 for phoneme data.
pub proof fn lemma_header_carries_client_codes(h_engine: u32, lparam: i32, m: ECIMessage)
    ensures
        ({
            let code = u32_from_le(header_bytes(h_engine, spec_header_message_code(m.spec_value() as u32), lparam).subrange(4, 8));
            &&& m == ECIMessage::eciWaveformBuffer ==> code == 3
            &&& m == ECIMessage::eciIndexReply ==> code == 4
            &&& m == ECIMessage::eciPhonemeBuffer ==> code == 0
        }),
{
    lemma_header_roundtrip(h_engine, spec_header_message_code(m.spec_value() as u32), lparam);
}

} // verus!
