//! Routing of request packets to the engine endpoints.
//!
//! The host cannot run engine calls itself here: a request is turned into a
//! [`Step`], either the reply to send or the engine call to make; once the
//! caller has made the call, [`complete`] turns its outcome into the next step.

use vstd::prelude::*;
use vstd::string::StringSliceAdditionalSpecFns;
use vstd::slice::slice_to_vec;
use std::collections::HashMap;
use crate::request::{
    RequestContext, spec_get_int, spec_get_string, first_nul, find_nul, encode_request, param_offset,
    lemma_request_params_roundtrip, lemma_request_string_roundtrip, lemma_first_nul_bounds,
};
use crate::response::{
    read_int_response, read_uint_response, lemma_response_roundtrip,
    pack_int, pack_uint, pack_bytes, pack_text, pack_utf_string, int_response, uint_response,
    bytes_response, text_response, str_response,
};
use crate::encoding::{
    i32_bits, i32_to_bits, i32_le_bytes, i32s_le_bytes, push_i32_le, push_i32s_le, u16_from_le,
    u16_le_bytes, i32_from_le, lemma_i32_le_roundtrip, lemma_i32s_le_bytes_layout,
};
use crate::shared_memory::{ShmError, spec_shm_name, spec_ready_event_name, shm_name, ready_event_name};

verus! {

broadcast use vstd::std_specs::hash::group_hash_axioms;

/// Size of the buffer into which the engine writes its version text.
pub const VERSION_BUFFER_SIZE: usize = 256;

/// An endpoint of the host, addressed by its 16-bit id.
#[derive(Debug, Copy, Clone, PartialEq, Eq, Structural)]
pub enum Handler {
    LoadLibrary,
    EciVersion,
    EciNew,
    EciNewEx,
    SetBuffer,
    EciAddText,
    EciInsertIndex,
    EciSynthesize,
    EciGetAvailableLanguages,
    EciStop,
    EciGetParam,
    EciSetParam,
    EciGetVoiceParam,
    EciSetVoiceParam,
    EciCopyVoice,
    EciNewDict,
    EciLoadDict,
    EciSetDict,
    EciDelete,
}

impl Handler {
    pub open spec fn spec_id(self) -> u16 {
        match self {
            Handler::LoadLibrary => 1,
            Handler::EciVersion => 2,
            Handler::EciNew => 3,
            Handler::EciNewEx => 4,
            Handler::SetBuffer => 5,
            Handler::EciAddText => 6,
            Handler::EciInsertIndex => 7,
            Handler::EciSynthesize => 8,
            Handler::EciGetAvailableLanguages => 9,
            Handler::EciStop => 10,
            Handler::EciGetParam => 11,
            Handler::EciSetParam => 12,
            Handler::EciGetVoiceParam => 13,
            Handler::EciSetVoiceParam => 14,
            Handler::EciCopyVoice => 15,
            Handler::EciNewDict => 16,
            Handler::EciLoadDict => 17,
            Handler::EciSetDict => 18,
            Handler::EciDelete => 19,
        }
    }

    /// The id by which clients address this endpoint.
    pub fn id(self) -> (r: u16)
        ensures
            r == self.spec_id(),
    {
        match self {
            Handler::LoadLibrary => 1,
            Handler::EciVersion => 2,
            Handler::EciNew => 3,
            Handler::EciNewEx => 4,
            Handler::SetBuffer => 5,
            Handler::EciAddText => 6,
            Handler::EciInsertIndex => 7,
            Handler::EciSynthesize => 8,
            Handler::EciGetAvailableLanguages => 9,
            Handler::EciStop => 10,
            Handler::EciGetParam => 11,
            Handler::EciSetParam => 12,
            Handler::EciGetVoiceParam => 13,
            Handler::EciSetVoiceParam => 14,
            Handler::EciCopyVoice => 15,
            Handler::EciNewDict => 16,
            Handler::EciLoadDict => 17,
            Handler::EciSetDict => 18,
            Handler::EciDelete => 19,
        }
    }

    /// The endpoint with the given id, if there is one.
    pub fn from_id(id: u16) -> (r: Option<Handler>)
        ensures
            r == spec_handler_for_id(id),
    {
        match id {
            1 => Some(Handler::LoadLibrary),
            2 => Some(Handler::EciVersion),
            3 => Some(Handler::EciNew),
            4 => Some(Handler::EciNewEx),
            5 => Some(Handler::SetBuffer),
            6 => Some(Handler::EciAddText),
            7 => Some(Handler::EciInsertIndex),
            8 => Some(Handler::EciSynthesize),
            9 => Some(Handler::EciGetAvailableLanguages),
            10 => Some(Handler::EciStop),
            11 => Some(Handler::EciGetParam),
            12 => Some(Handler::EciSetParam),
            13 => Some(Handler::EciGetVoiceParam),
            14 => Some(Handler::EciSetVoiceParam),
            15 => Some(Handler::EciCopyVoice),
            16 => Some(Handler::EciNewDict),
            17 => Some(Handler::EciLoadDict),
            18 => Some(Handler::EciSetDict),
            19 => Some(Handler::EciDelete),
            _ => None,
        }
    }
}

/// The endpoint that answers to `id`, if any.
pub open spec fn spec_handler_for_id(id: u16) -> Option<Handler> {
    match id {
        1 => Some(Handler::LoadLibrary),
        2 => Some(Handler::EciVersion),
        3 => Some(Handler::EciNew),
        4 => Some(Handler::EciNewEx),
        5 => Some(Handler::SetBuffer),
        6 => Some(Handler::EciAddText),
        7 => Some(Handler::EciInsertIndex),
        8 => Some(Handler::EciSynthesize),
        9 => Some(Handler::EciGetAvailableLanguages),
        10 => Some(Handler::EciStop),
        11 => Some(Handler::EciGetParam),
        12 => Some(Handler::EciSetParam),
        13 => Some(Handler::EciGetVoiceParam),
        14 => Some(Handler::EciSetVoiceParam),
        15 => Some(Handler::EciCopyVoice),
        16 => Some(Handler::EciNewDict),
        17 => Some(Handler::EciLoadDict),
        18 => Some(Handler::EciSetDict),
        19 => Some(Handler::EciDelete),
        _ => None,
    }
}

/// Ids and endpoints correspond one to one.
pub proof fn lemma_handler_ids(h: Handler, id: u16)
    ensures
        spec_handler_for_id(h.spec_id()) == Some(h),
        spec_handler_for_id(id) == Some(h) ==> h.spec_id() == id,
        1 <= h.spec_id() <= 19,
{
}

/// The table from ids to endpoints that incoming requests are routed by.
pub struct Registry {
    handlers: HashMap<u16, Handler>,
}

impl View for Registry {
    type V = Map<u16, Handler>;

    closed spec fn view(&self) -> Map<u16, Handler> {
        self.handlers@
    }
}

impl Registry {
    /// An empty table.
    pub fn new() -> (r: Self)
        ensures
            r@ == Map::<u16, Handler>::empty(),
    {
        Registry { handlers: HashMap::new() }
    }

    /// The table in which every endpoint is registered under its own id.
    pub fn with_api() -> (r: Self)
        ensures
            forall|id: u16| #[trigger] r@.contains_key(id) <==> spec_handler_for_id(id) is Some,
            forall|id: u16| r@.contains_key(id) ==> Some(#[trigger] r@[id]) == spec_handler_for_id(id),
    {
        let mut r = Registry::new();
        let mut id: u16 = 1;
        while id <= 19
            invariant
                1 <= id <= 20,
                forall|k: u16| #[trigger] r@.contains_key(k) <==> (k < id && spec_handler_for_id(k) is Some),
                forall|k: u16| r@.contains_key(k) ==> Some(#[trigger] r@[k]) == spec_handler_for_id(k),
            decreases 20 - id,
        {
            if let Some(h) = Handler::from_id(id) {
                register_handler(&mut r, id, h);
            }
            id = id + 1;
        }
        r
    }

    /// The endpoint registered under `id`, if any.
    pub fn lookup(&self, id: u16) -> (r: Option<Handler>)
        ensures
            r == (if self@.contains_key(id) { Some(self@[id]) } else { None::<Handler> }),
    {
        match self.handlers.get(&id) {
            Some(h) => Some(*h),
            None => None,
        }
    }
}

/// Registers `h` under `id`, replacing any endpoint that was registered there.
pub fn register_handler(registry: &mut Registry, id: u16, h: Handler)
    ensures
        final(registry)@ == old(registry)@.insert(id, h),
{
    registry.handlers.insert(id, h);
}

/// An engine call that a request asks for, with its decoded arguments.
/// Engine and dictionary handles travel as the 32-bit values of the request; the
/// text and file name always end with a NUL.
#[derive(Debug, PartialEq, Eq)]
pub enum EngineCall {
    LoadLibrary { path: Vec<u8> },
    Version,
    New,
    NewEx { dialect: i32 },
    SetBuffer { handle: u32, samples: u32 },
    AddText { engine: i32, text: Vec<u8> },
    InsertIndex { engine: i32, index: i32 },
    Synthesize { engine: i32 },
    CountLanguages,
    ListLanguages { count: i32 },
    Stop { engine: i32 },
    GetParam { engine: i32, param: i32 },
    SetParam { engine: i32, param: i32, value: i32 },
    GetVoiceParam { engine: i32, voice: i32, param: i32 },
    SetVoiceParam { engine: i32, voice: i32, param: i32, value: i32 },
    CopyVoice { engine: i32, from: i32, to: i32 },
    NewDict { engine: i32 },
    LoadDict { engine: i32, dict: i32, volume: i32, filename: Vec<u8> },
    SetDict { engine: i32, dict: i32 },
    Delete { engine: i32 },
}

/// The mathematical value of an [`EngineCall`], with byte strings as sequences.
pub enum CallSpec {
    LoadLibrary { path: Seq<u8> },
    Version,
    New,
    NewEx { dialect: i32 },
    SetBuffer { handle: u32, samples: u32 },
    AddText { engine: i32, text: Seq<u8> },
    InsertIndex { engine: i32, index: i32 },
    Synthesize { engine: i32 },
    CountLanguages,
    ListLanguages { count: i32 },
    Stop { engine: i32 },
    GetParam { engine: i32, param: i32 },
    SetParam { engine: i32, param: i32, value: i32 },
    GetVoiceParam { engine: i32, voice: i32, param: i32 },
    SetVoiceParam { engine: i32, voice: i32, param: i32, value: i32 },
    CopyVoice { engine: i32, from: i32, to: i32 },
    NewDict { engine: i32 },
    LoadDict { engine: i32, dict: i32, volume: i32, filename: Seq<u8> },
    SetDict { engine: i32, dict: i32 },
    Delete { engine: i32 },
}

impl View for EngineCall {
    type V = CallSpec;

    open spec fn view(&self) -> CallSpec {
        match self {
            EngineCall::LoadLibrary { path } => CallSpec::LoadLibrary { path: path@ },
            EngineCall::Version => CallSpec::Version,
            EngineCall::New => CallSpec::New,
            EngineCall::NewEx { dialect } => CallSpec::NewEx { dialect: *dialect },
            EngineCall::SetBuffer { handle, samples } => CallSpec::SetBuffer { handle: *handle, samples: *samples },
            EngineCall::AddText { engine, text } => CallSpec::AddText { engine: *engine, text: text@ },
            EngineCall::InsertIndex { engine, index } => CallSpec::InsertIndex { engine: *engine, index: *index },
            EngineCall::Synthesize { engine } => CallSpec::Synthesize { engine: *engine },
            EngineCall::CountLanguages => CallSpec::CountLanguages,
            EngineCall::ListLanguages { count } => CallSpec::ListLanguages { count: *count },
            EngineCall::Stop { engine } => CallSpec::Stop { engine: *engine },
            EngineCall::GetParam { engine, param } => CallSpec::GetParam { engine: *engine, param: *param },
            EngineCall::SetParam { engine, param, value } => CallSpec::SetParam { engine: *engine, param: *param, value: *value },
            EngineCall::GetVoiceParam { engine, voice, param } => CallSpec::GetVoiceParam { engine: *engine, voice: *voice, param: *param },
            EngineCall::SetVoiceParam { engine, voice, param, value } => CallSpec::SetVoiceParam { engine: *engine, voice: *voice, param: *param, value: *value },
            EngineCall::CopyVoice { engine, from, to } => CallSpec::CopyVoice { engine: *engine, from: *from, to: *to },
            EngineCall::NewDict { engine } => CallSpec::NewDict { engine: *engine },
            EngineCall::LoadDict { engine, dict, volume, filename } => CallSpec::LoadDict { engine: *engine, dict: *dict, volume: *volume, filename: filename@ },
            EngineCall::SetDict { engine, dict } => CallSpec::SetDict { engine: *engine, dict: *dict },
            EngineCall::Delete { engine } => CallSpec::Delete { engine: *engine },
        }
    }
}

/// What to do next with a request: send a reply, or make an engine call.
#[derive(Debug, PartialEq, Eq)]
pub enum Step {
    Reply(Vec<u8>),
    Call(EngineCall),
}

/// The mathematical value of a [`Step`].
pub enum StepSpec {
    Reply(Seq<u8>),
    Call(CallSpec),
}

impl View for Step {
    type V = StepSpec;

    open spec fn view(&self) -> StepSpec {
        match self {
            Step::Reply(r) => StepSpec::Reply(r@),
            Step::Call(c) => StepSpec::Call(c@),
        }
    }
}

/// `s` without its leading and trailing NUL bytes.
pub open spec fn trim_nul(s: Seq<u8>) -> Seq<u8>
    decreases s.len(),
{
    if s.len() > 0 && s[0] == 0 {
        trim_nul(s.drop_first())
    } else if s.len() > 0 && s.last() == 0 {
        trim_nul(s.drop_last())
    } else {
        s
    }
}

/// Strips the leading and trailing NUL bytes of `s`.
pub fn trim_nul_bytes(s: &[u8]) -> (r: Vec<u8>)
    ensures
        r@ == trim_nul(s@),
{
    let len = s.len();
    let mut start: usize = 0;
    assert(s@.subrange(0, len as int) == s@);
    while start < len && s[start] == 0
        invariant
            start <= len,
            len == s@.len(),
            trim_nul(s@) == trim_nul(s@.subrange(start as int, len as int)),
        decreases len - start,
    {
        let ghost sub = s@.subrange(start as int, len as int);
        assert(sub.drop_first() == s@.subrange(start + 1, len as int));
        start = start + 1;
    }
    let mut end: usize = len;
    while end > start && s[end - 1] == 0
        invariant
            start <= end <= len,
            len == s@.len(),
            start < len ==> s@[start as int] != 0,
            trim_nul(s@) == trim_nul(s@.subrange(start as int, end as int)),
        decreases end - start,
    {
        let ghost sub = s@.subrange(start as int, end as int);
        assert(sub[0] != 0);
        assert(sub.drop_last() == s@.subrange(start as int, end - 1));
        end = end - 1;
    }
    let mut out: Vec<u8> = Vec::new();
    let mut i = start;
    while i < end
        invariant
            start <= i <= end,
            end <= len,
            len == s@.len(),
            out@ == s@.subrange(start as int, i as int),
        decreases end - i,
    {
        out.push(s[i]);
        i = i + 1;
    }
    proof {
        let sub = s@.subrange(start as int, end as int);
        if sub.len() > 0 {
            assert(sub[0] != 0);
            assert(sub.last() != 0);
        }
    }
    out
}

/// `s` ending with a NUL: unchanged when it already ends with one, else with one appended.
pub open spec fn with_nul(s: Seq<u8>) -> Seq<u8> {
    if s.len() > 0 && s.last() == 0 {
        s
    } else {
        s.push(0)
    }
}

/// A copy of `s` that ends with a NUL, so that the engine always finds the end of
/// the text within it.
pub fn nul_terminated(s: &[u8]) -> (r: Vec<u8>)
    ensures
        r@ == with_nul(s@),
{
    let mut v = slice_to_vec(s);
    let n = v.len();
    if n == 0 || v[n - 1] != 0 {
        v.push(0);
    }
    v
}

/// The signed parameter at index `pos` of request `req`.
pub open spec fn arg(req: Seq<u8>, pos: int) -> i32 {
    spec_get_int(req, pos) as i32
}

/// The engine call that endpoint `h` asks for on request `req`, once the engine library is loaded.
pub open spec fn spec_call(h: Handler, req: Seq<u8>) -> CallSpec {
    match h {
        Handler::LoadLibrary => CallSpec::LoadLibrary { path: trim_nul(req.subrange(2, req.len() as int)) },
        Handler::EciVersion => CallSpec::Version,
        Handler::EciNew => CallSpec::New,
        Handler::EciNewEx => CallSpec::NewEx { dialect: arg(req, 0) },
        Handler::SetBuffer => CallSpec::SetBuffer { handle: i32_bits(arg(req, 0)), samples: i32_bits(arg(req, 1)) },
        Handler::EciAddText => CallSpec::AddText { engine: arg(req, 0), text: with_nul(spec_get_string(req, 1)) },
        Handler::EciInsertIndex => CallSpec::InsertIndex { engine: arg(req, 0), index: arg(req, 1) },
        Handler::EciSynthesize => CallSpec::Synthesize { engine: arg(req, 0) },
        Handler::EciGetAvailableLanguages => CallSpec::CountLanguages,
        Handler::EciStop => CallSpec::Stop { engine: arg(req, 0) },
        Handler::EciGetParam => CallSpec::GetParam { engine: arg(req, 0), param: arg(req, 1) },
        Handler::EciSetParam => CallSpec::SetParam { engine: arg(req, 0), param: arg(req, 1), value: arg(req, 2) },
        Handler::EciGetVoiceParam => CallSpec::GetVoiceParam { engine: arg(req, 0), voice: arg(req, 1), param: arg(req, 2) },
        Handler::EciSetVoiceParam => CallSpec::SetVoiceParam { engine: arg(req, 0), voice: arg(req, 1), param: arg(req, 2), value: arg(req, 3) },
        Handler::EciCopyVoice => CallSpec::CopyVoice { engine: arg(req, 0), from: arg(req, 1), to: arg(req, 2) },
        Handler::EciNewDict => CallSpec::NewDict { engine: arg(req, 0) },
        Handler::EciLoadDict => CallSpec::LoadDict { engine: arg(req, 0), dict: arg(req, 1), volume: arg(req, 2), filename: with_nul(spec_get_string(req, 3)) },
        Handler::EciSetDict => CallSpec::SetDict { engine: arg(req, 0), dict: arg(req, 1) },
        Handler::EciDelete => CallSpec::Delete { engine: arg(req, 0) },
    }
}

/// What endpoint `h` does with request `req` (at least two bytes long): loading the
/// library answers 1 at once when it is already loaded; every other endpoint answers
/// `ERR:no lib` while no library is loaded; otherwise the endpoint's engine call.
pub open spec fn spec_run(h: Handler, loaded: bool, req: Seq<u8>) -> StepSpec {
    if h == Handler::LoadLibrary {
        if loaded {
            StepSpec::Reply(int_response(1))
        } else {
            StepSpec::Call(spec_call(h, req))
        }
    } else if !loaded {
        StepSpec::Reply(str_response("ERR:no lib"))
    } else {
        StepSpec::Call(spec_call(h, req))
    }
}

/// The endpoint id of request `req`: its first two bytes, little endian.
pub open spec fn request_id(req: Seq<u8>) -> u16 {
    u16_from_le(req.subrange(0, 2)) as u16
}

/// What the host does with request `req` given the registered endpoints `m`:
/// a request shorter than two bytes is answered `ERR:short request`; one whose id has
/// no endpoint is answered with the bytes `ERR:unknown id ` and the two id bytes;
/// any other is handled by its endpoint.
pub open spec fn spec_handle_request(m: Map<u16, Handler>, loaded: bool, req: Seq<u8>) -> StepSpec {
    if req.len() < 2 {
        StepSpec::Reply(str_response("ERR:short request"))
    } else if m.contains_key(request_id(req)) {
        spec_run(m[request_id(req)], loaded, req)
    } else {
        StepSpec::Reply(bytes_response("ERR:unknown id ".spec_bytes() + u16_le_bytes(request_id(req))))
    }
}

/// Answers `ERR:no lib` while no engine library is loaded, else asks for `call`.
fn when_loaded(loaded: bool, call: EngineCall) -> (s: Step)
    ensures
        s@ == (if loaded { StepSpec::Call(call@) } else { StepSpec::Reply(str_response("ERR:no lib")) }),
{
    if loaded {
        Step::Call(call)
    } else {
        Step::Reply(pack_utf_string("ERR:no lib"))
    }
}

fn load_library(ctx: &RequestContext, loaded: bool) -> (s: Step)
    requires
        ctx@.len() >= 2,
    ensures
        s@ == spec_run(Handler::LoadLibrary, loaded, ctx@),
{
    let path = trim_nul_bytes(ctx.get_body());
    if loaded {
        return Step::Reply(pack_int(1));
    }
    Step::Call(EngineCall::LoadLibrary { path })
}

fn eci_version(_ctx: &RequestContext, loaded: bool) -> (s: Step)
    ensures
        s@ == spec_run(Handler::EciVersion, loaded, _ctx@),
{
    when_loaded(loaded, EngineCall::Version)
}

fn eci_new(_ctx: &RequestContext, loaded: bool) -> (s: Step)
    ensures
        s@ == spec_run(Handler::EciNew, loaded, _ctx@),
{
    when_loaded(loaded, EngineCall::New)
}

fn eci_new_ex(ctx: &RequestContext, loaded: bool) -> (s: Step)
    ensures
        s@ == spec_run(Handler::EciNewEx, loaded, ctx@),
{
    let dialect = ctx.get_int(0);
    when_loaded(loaded, EngineCall::NewEx { dialect })
}

fn set_buffer(ctx: &RequestContext, loaded: bool) -> (s: Step)
    ensures
        s@ == spec_run(Handler::SetBuffer, loaded, ctx@),
{
    let handle = i32_to_bits(ctx.get_int(0));
    let samples = i32_to_bits(ctx.get_int(1));
    when_loaded(loaded, EngineCall::SetBuffer { handle, samples })
}

fn eci_add_text(ctx: &RequestContext, loaded: bool) -> (s: Step)
    ensures
        s@ == spec_run(Handler::EciAddText, loaded, ctx@),
{
    let engine = ctx.get_int(0);
    let text = nul_terminated(ctx.get_string(1));
    when_loaded(loaded, EngineCall::AddText { engine, text })
}

fn eci_insert_index(ctx: &RequestContext, loaded: bool) -> (s: Step)
    ensures
        s@ == spec_run(Handler::EciInsertIndex, loaded, ctx@),
{
    let engine = ctx.get_int(0);
    let index = ctx.get_int(1);
    when_loaded(loaded, EngineCall::InsertIndex { engine, index })
}

fn eci_synthesize(ctx: &RequestContext, loaded: bool) -> (s: Step)
    ensures
        s@ == spec_run(Handler::EciSynthesize, loaded, ctx@),
{
    let engine = ctx.get_int(0);
    when_loaded(loaded, EngineCall::Synthesize { engine })
}

fn eci_get_available_languages(_ctx: &RequestContext, loaded: bool) -> (s: Step)
    ensures
        s@ == spec_run(Handler::EciGetAvailableLanguages, loaded, _ctx@),
{
    when_loaded(loaded, EngineCall::CountLanguages)
}

fn eci_stop(ctx: &RequestContext, loaded: bool) -> (s: Step)
    ensures
        s@ == spec_run(Handler::EciStop, loaded, ctx@),
{
    let engine = ctx.get_int(0);
    when_loaded(loaded, EngineCall::Stop { engine })
}

fn eci_get_param(ctx: &RequestContext, loaded: bool) -> (s: Step)
    ensures
        s@ == spec_run(Handler::EciGetParam, loaded, ctx@),
{
    let engine = ctx.get_int(0);
    let param = ctx.get_int(1);
    when_loaded(loaded, EngineCall::GetParam { engine, param })
}

fn eci_set_param(ctx: &RequestContext, loaded: bool) -> (s: Step)
    ensures
        s@ == spec_run(Handler::EciSetParam, loaded, ctx@),
{
    let engine = ctx.get_int(0);
    let param = ctx.get_int(1);
    let value = ctx.get_int(2);
    when_loaded(loaded, EngineCall::SetParam { engine, param, value })
}

fn eci_get_voice_param(ctx: &RequestContext, loaded: bool) -> (s: Step)
    ensures
        s@ == spec_run(Handler::EciGetVoiceParam, loaded, ctx@),
{
    let engine = ctx.get_int(0);
    let voice = ctx.get_int(1);
    let param = ctx.get_int(2);
    when_loaded(loaded, EngineCall::GetVoiceParam { engine, voice, param })
}

fn eci_set_voice_param(ctx: &RequestContext, loaded: bool) -> (s: Step)
    ensures
        s@ == spec_run(Handler::EciSetVoiceParam, loaded, ctx@),
{
    let engine = ctx.get_int(0);
    let voice = ctx.get_int(1);
    let param = ctx.get_int(2);
    let value = ctx.get_int(3);
    when_loaded(loaded, EngineCall::SetVoiceParam { engine, voice, param, value })
}

fn eci_copy_voice(ctx: &RequestContext, loaded: bool) -> (s: Step)
    ensures
        s@ == spec_run(Handler::EciCopyVoice, loaded, ctx@),
{
    let engine = ctx.get_int(0);
    let from = ctx.get_int(1);
    let to = ctx.get_int(2);
    when_loaded(loaded, EngineCall::CopyVoice { engine, from, to })
}

fn eci_new_dict(ctx: &RequestContext, loaded: bool) -> (s: Step)
    ensures
        s@ == spec_run(Handler::EciNewDict, loaded, ctx@),
{
    let engine = ctx.get_int(0);
    when_loaded(loaded, EngineCall::NewDict { engine })
}

fn eci_load_dict(ctx: &RequestContext, loaded: bool) -> (s: Step)
    ensures
        s@ == spec_run(Handler::EciLoadDict, loaded, ctx@),
{
    let engine = ctx.get_int(0);
    let dict = ctx.get_int(1);
    let volume = ctx.get_int(2);
    let filename = nul_terminated(ctx.get_string(3));
    when_loaded(loaded, EngineCall::LoadDict { engine, dict, volume, filename })
}

fn eci_set_dict(ctx: &RequestContext, loaded: bool) -> (s: Step)
    ensures
        s@ == spec_run(Handler::EciSetDict, loaded, ctx@),
{
    let engine = ctx.get_int(0);
    let dict = ctx.get_int(1);
    when_loaded(loaded, EngineCall::SetDict { engine, dict })
}

fn eci_delete(ctx: &RequestContext, loaded: bool) -> (s: Step)
    ensures
        s@ == spec_run(Handler::EciDelete, loaded, ctx@),
{
    let engine = ctx.get_int(0);
    when_loaded(loaded, EngineCall::Delete { engine })
}

/// Runs endpoint `h` on a request of at least two bytes.
pub fn run_handler(h: Handler, ctx: &RequestContext, loaded: bool) -> (s: Step)
    requires
        ctx@.len() >= 2,
    ensures
        s@ == spec_run(h, loaded, ctx@),
{
    match h {
        Handler::LoadLibrary => load_library(ctx, loaded),
        Handler::EciVersion => eci_version(ctx, loaded),
        Handler::EciNew => eci_new(ctx, loaded),
        Handler::EciNewEx => eci_new_ex(ctx, loaded),
        Handler::SetBuffer => set_buffer(ctx, loaded),
        Handler::EciAddText => eci_add_text(ctx, loaded),
        Handler::EciInsertIndex => eci_insert_index(ctx, loaded),
        Handler::EciSynthesize => eci_synthesize(ctx, loaded),
        Handler::EciGetAvailableLanguages => eci_get_available_languages(ctx, loaded),
        Handler::EciStop => eci_stop(ctx, loaded),
        Handler::EciGetParam => eci_get_param(ctx, loaded),
        Handler::EciSetParam => eci_set_param(ctx, loaded),
        Handler::EciGetVoiceParam => eci_get_voice_param(ctx, loaded),
        Handler::EciSetVoiceParam => eci_set_voice_param(ctx, loaded),
        Handler::EciCopyVoice => eci_copy_voice(ctx, loaded),
        Handler::EciNewDict => eci_new_dict(ctx, loaded),
        Handler::EciLoadDict => eci_load_dict(ctx, loaded),
        Handler::EciSetDict => eci_set_dict(ctx, loaded),
        Handler::EciDelete => eci_delete(ctx, loaded),
    }
}

/// Routes a request packet: a packet shorter than two bytes is answered
/// `ERR:short request`; the first two bytes (little endian) select the endpoint
/// in `registry`; an id without endpoint is answered with the bytes
/// `ERR:unknown id ` followed by the two id bytes; `lib_loaded` tells whether the
/// engine library has been loaded.
pub fn handle_request(registry: &Registry, lib_loaded: bool, request: &[u8]) -> (s: Step)
    ensures
        s@ == spec_handle_request(registry@, lib_loaded, request@),
{
    if request.len() < 2 {
        return Step::Reply(pack_utf_string("ERR:short request"));
    }
    let id: u16 = (request[0] as u16) + (request[1] as u16) * 256;
    assert(id == request_id(request@));
    let ctx = RequestContext::new(request);
    match registry.lookup(id) {
        Some(h) => run_handler(h, &ctx, lib_loaded),
        None => {
            let mut v = slice_to_vec("ERR:unknown id ".as_bytes());
            v.push((id % 256) as u8);
            v.push((id / 256) as u8);
            assert(v@ == "ERR:unknown id ".spec_bytes() + u16_le_bytes(id));
            Step::Reply(pack_bytes(v))
        },
    }
}

/// What an engine call came back with.
#[derive(Debug, PartialEq, Eq)]
pub enum EngineOutcome {
    /// A 32-bit result; for the delete call, the returned handle's value.
    Int(i32),
    /// A new engine or dictionary handle.
    Handle(u32),
    /// The version buffer as the engine filled it.
    Version(Vec<u8>),
    /// The engine library was loaded.
    Loaded,
    /// The engine library could not be loaded; the text says why.
    LoadFailed(Vec<u8>),
    /// The shared-memory block was set up and the engine told to use it.
    SharedMemoryReady,
    /// The shared-memory block could not be set up.
    SharedMemoryFailed(ShmError),
    /// The engine's result and the language codes it listed.
    Languages { result: i32, languages: Vec<i32> },
}

/// Whether `outcome` is what `call` comes back with.
pub open spec fn outcome_fits(call: CallSpec, outcome: EngineOutcome) -> bool {
    match call {
        CallSpec::LoadLibrary { .. } => outcome is Loaded || outcome is LoadFailed,
        CallSpec::Version => outcome is Version,
        CallSpec::New => outcome is Handle,
        CallSpec::NewEx { .. } => outcome is Handle,
        CallSpec::NewDict { .. } => outcome is Handle,
        CallSpec::SetBuffer { .. } => outcome is SharedMemoryReady || outcome is SharedMemoryFailed,
        CallSpec::ListLanguages { count } => outcome matches EngineOutcome::Languages { languages, .. }
            && languages@.len() == count,
        _ => outcome is Int,
    }
}

/// The text that answers a successful buffer setup: where the client finds the
/// block and the ready event.
pub open spec fn set_buffer_text(handle: u32) -> Seq<u8> {
    "SHM:".spec_bytes() + spec_shm_name(handle) + ";EVT:".spec_bytes() + spec_ready_event_name(handle)
}

/// The step that follows `call` once it came back with `outcome`: a 32-bit result
/// is answered as a signed integer, a new handle as an unsigned one; the version
/// text is answered as bytes up to its first NUL; a load answers 1 or `ERR:load:`
/// and the reason; a buffer setup answers where the block is or `ERR:` and the
/// reason; a language count that is not positive is answered as it is, a positive
/// one leads to listing that many languages; a listing is answered with the count
/// and each code (4 little-endian bytes each) when the engine's result is not
/// negative, else with that result.
pub open spec fn spec_complete(call: CallSpec, outcome: EngineOutcome) -> StepSpec {
    match outcome {
        EngineOutcome::Int(r) => if call is CountLanguages && r > 0 {
            StepSpec::Call(CallSpec::ListLanguages { count: r })
        } else {
            StepSpec::Reply(int_response(r))
        },
        EngineOutcome::Handle(h) => StepSpec::Reply(uint_response(h)),
        EngineOutcome::Version(buf) => StepSpec::Reply(bytes_response(buf@.take(first_nul(buf@)))),
        EngineOutcome::Loaded => StepSpec::Reply(int_response(1)),
        EngineOutcome::LoadFailed(e) => StepSpec::Reply(text_response("ERR:load:".spec_bytes() + e@)),
        EngineOutcome::SharedMemoryReady => match call {
            CallSpec::SetBuffer { handle, .. } => StepSpec::Reply(text_response(set_buffer_text(handle))),
            _ => StepSpec::Reply(Seq::empty()),
        },
        EngineOutcome::SharedMemoryFailed(e) => StepSpec::Reply(text_response("ERR:".spec_bytes() + e.spec_message())),
        EngineOutcome::Languages { result, languages } => if result >= 0 {
            StepSpec::Reply(bytes_response(i32_le_bytes(languages@.len() as i32) + i32s_le_bytes(languages@)))
        } else {
            StepSpec::Reply(int_response(result))
        },
    }
}

/// Turns the outcome of `call` into the next step.
pub fn complete(call: &EngineCall, outcome: EngineOutcome) -> (s: Step)
    requires
        outcome_fits(call@, outcome),
    ensures
        s@ == spec_complete(call@, outcome),
{
    match outcome {
        EngineOutcome::Int(r) => {
            let counting = match call {
                EngineCall::CountLanguages => true,
                _ => false,
            };
            if counting && r > 0 {
                Step::Call(EngineCall::ListLanguages { count: r })
            } else {
                Step::Reply(pack_int(r))
            }
        },
        EngineOutcome::Handle(h) => Step::Reply(pack_uint(h)),
        EngineOutcome::Version(buf) => {
            let mut buf = buf;
            let n = find_nul(buf.as_slice(), 0);
            assert(buf@.subrange(0, buf@.len() as int) == buf@);
            buf.truncate(n);
            Step::Reply(pack_bytes(buf))
        },
        EngineOutcome::Loaded => Step::Reply(pack_int(1)),
        EngineOutcome::LoadFailed(e) => {
            let mut e = e;
            let mut text = slice_to_vec("ERR:load:".as_bytes());
            text.append(&mut e);
            Step::Reply(pack_text(text))
        },
        EngineOutcome::SharedMemoryReady => {
            let handle = match call {
                EngineCall::SetBuffer { handle, .. } => *handle,
                _ => 0,
            };
            let mut text = slice_to_vec("SHM:".as_bytes());
            let mut name = shm_name(handle);
            text.append(&mut name);
            let mut sep = slice_to_vec(";EVT:".as_bytes());
            text.append(&mut sep);
            let mut evt = ready_event_name(handle);
            text.append(&mut evt);
            Step::Reply(pack_text(text))
        },
        EngineOutcome::SharedMemoryFailed(e) => {
            let mut text = slice_to_vec("ERR:".as_bytes());
            let mut msg = e.message();
            text.append(&mut msg);
            Step::Reply(pack_text(text))
        },
        EngineOutcome::Languages { result, languages } => {
            if result >= 0 {
                let mut out: Vec<u8> = Vec::new();
                push_i32_le(&mut out, languages.len() as i32);
                push_i32s_le(&mut out, &languages);
                Step::Reply(pack_bytes(out))
            } else {
                Step::Reply(pack_int(result))
            }
        },
    }
}

/// After `h` is registered under `id`, a request with that id is handled by `h`,
/// and requests with other ids are handled as before.
pub proof fn lemma_dispatch_after_register(
    m: Map<u16, Handler>,
    id: u16,
    h: Handler,
    loaded: bool,
    req: Seq<u8>,
)
    requires
        req.len() >= 2,
    ensures
        request_id(req) == id ==> spec_handle_request(m.insert(id, h), loaded, req) == spec_run(h, loaded, req),
        request_id(req) != id ==> spec_handle_request(m.insert(id, h), loaded, req) == spec_handle_request(m, loaded, req),
{
}

/// While no engine library is loaded, every registered endpoint other than the
/// loader answers `ERR:no lib`; once one is loaded, the loader answers 1 at once.
pub proof fn lemma_library_gate(m: Map<u16, Handler>, req: Seq<u8>)
    requires
        req.len() >= 2,
        m.contains_key(request_id(req)),
    ensures
        m[request_id(req)] != Handler::LoadLibrary ==> spec_handle_request(m, false, req)
            == StepSpec::Reply(str_response("ERR:no lib")),
        m[request_id(req)] == Handler::LoadLibrary ==> spec_handle_request(m, true, req)
            == StepSpec::Reply(int_response(1)),
{
}

/// A client reading a language listing finds the number of languages in the first
/// four bytes of the payload and the code of language `i` at four times `i + 1`.
pub proof fn lemma_language_listing_layout(languages: Seq<i32>, i: int)
    requires
        languages.len() <= i32::MAX,
        0 <= i < languages.len(),
    ensures
        ({
            let payload = i32_le_bytes(languages.len() as i32) + i32s_le_bytes(languages);
            &&& payload.len() == 4 + 4 * languages.len()
            &&& i32_from_le(payload.subrange(0, 4)) == languages.len()
            &&& i32_from_le(payload.subrange(4 + 4 * i, 8 + 4 * i)) == languages[i]
        }),
{
    let n = languages.len() as i32;
    let payload = i32_le_bytes(n) + i32s_le_bytes(languages);
    lemma_i32_le_roundtrip(n);
    lemma_i32_le_roundtrip(languages[i]);
    lemma_i32s_le_bytes_layout(languages);
    assert(payload.subrange(0, 4) == i32_le_bytes(n));
    assert(payload.subrange(4 + 4 * i, 8 + 4 * i) == i32s_le_bytes(languages).subrange(4 * i, 4 * i + 4));
}

/// Counting the languages leads to listing exactly that many when the engine has
/// any, and the count is answered as it is when it has none; the listing is
/// answered with the count, then each code, each as 4 little-endian bytes.
pub proof fn lemma_languages_listed(r: i32, result: i32, languages: Vec<i32>, i: int)
    requires
        0 <= i < languages@.len(),
        languages@.len() <= i32::MAX,
        result >= 0,
    ensures
        r > 0 ==> spec_complete(CallSpec::CountLanguages, EngineOutcome::Int(r))
            == StepSpec::Call(CallSpec::ListLanguages { count: r }),
        r <= 0 ==> spec_complete(CallSpec::CountLanguages, EngineOutcome::Int(r))
            == StepSpec::Reply(int_response(r)),
        ({
            let call = CallSpec::ListLanguages { count: languages@.len() as i32 };
            let step = spec_complete(call, EngineOutcome::Languages { result, languages });
            &&& step is Reply
            &&& step->Reply_0[0] == 2
            &&& step->Reply_0.len() == 5 + 4 * languages@.len()
            &&& i32_from_le(step->Reply_0.subrange(1, 5)) == languages@.len()
            &&& i32_from_le(step->Reply_0.subrange(5 + 4 * i, 9 + 4 * i)) == languages@[i]
        }),
{
    let n = languages@.len() as i32;
    let payload = i32_le_bytes(n) + i32s_le_bytes(languages@);
    lemma_language_listing_layout(languages@, i);
    let reply = bytes_response(payload);
    assert(reply.subrange(1, 5) == payload.subrange(0, 4));
    assert(reply.subrange(5 + 4 * i, 9 + 4 * i) == payload.subrange(4 + 4 * i, 8 + 4 * i));
}

/// A request for endpoint `h`, built as a client builds it, is turned into the call
/// of that endpoint with the request's own parameters, passed through unchanged:
/// the first parameter is the engine (or, for engine creation, the dialect), and
/// the others are the index, parameter, voice, value, source and target voice,
/// dictionary and volume, in the order the endpoint takes them.
pub proof fn lemma_requests_carry_their_parameters(
    m: Map<u16, Handler>,
    h: Handler,
    params: Seq<i32>,
    strings: Seq<u8>,
)
    requires
        m.contains_key(h.spec_id()),
        m[h.spec_id()] == h,
        params.len() >= 4,
    ensures
        ({
            let s = spec_handle_request(m, true, encode_request(h.spec_id(), params, strings));
            &&& h == Handler::EciVersion ==> s == StepSpec::Call(CallSpec::Version)
            &&& h == Handler::EciNew ==> s == StepSpec::Call(CallSpec::New)
            &&& h == Handler::EciNewEx ==> s == StepSpec::Call(CallSpec::NewEx { dialect: params[0] })
            &&& h == Handler::SetBuffer ==> s == StepSpec::Call(CallSpec::SetBuffer {
                handle: i32_bits(params[0]),
                samples: i32_bits(params[1]),
            })
            &&& h == Handler::EciAddText ==> (s matches StepSpec::Call(CallSpec::AddText { engine, .. })
                && engine == params[0])
            &&& h == Handler::EciInsertIndex ==> s == StepSpec::Call(CallSpec::InsertIndex {
                engine: params[0],
                index: params[1],
            })
            &&& h == Handler::EciSynthesize ==> s == StepSpec::Call(CallSpec::Synthesize { engine: params[0] })
            &&& h == Handler::EciGetAvailableLanguages ==> s == StepSpec::Call(CallSpec::CountLanguages)
            &&& h == Handler::EciStop ==> s == StepSpec::Call(CallSpec::Stop { engine: params[0] })
            &&& h == Handler::EciGetParam ==> s == StepSpec::Call(CallSpec::GetParam {
                engine: params[0],
                param: params[1],
            })
            &&& h == Handler::EciSetParam ==> s == StepSpec::Call(CallSpec::SetParam {
                engine: params[0],
                param: params[1],
                value: params[2],
            })
            &&& h == Handler::EciGetVoiceParam ==> s == StepSpec::Call(CallSpec::GetVoiceParam {
                engine: params[0],
                voice: params[1],
                param: params[2],
            })
            &&& h == Handler::EciSetVoiceParam ==> s == StepSpec::Call(CallSpec::SetVoiceParam {
                engine: params[0],
                voice: params[1],
                param: params[2],
                value: params[3],
            })
            &&& h == Handler::EciCopyVoice ==> s == StepSpec::Call(CallSpec::CopyVoice {
                engine: params[0],
                from: params[1],
                to: params[2],
            })
            &&& h == Handler::EciNewDict ==> s == StepSpec::Call(CallSpec::NewDict { engine: params[0] })
            &&& h == Handler::EciLoadDict ==> (s matches StepSpec::Call(CallSpec::LoadDict { engine, dict, volume, .. })
                && engine == params[0] && dict == params[1] && volume == params[2])
            &&& h == Handler::EciSetDict ==> s == StepSpec::Call(CallSpec::SetDict {
                engine: params[0],
                dict: params[1],
            })
            &&& h == Handler::EciDelete ==> s == StepSpec::Call(CallSpec::Delete { engine: params[0] })
        }),
{
    let id = h.spec_id();
    lemma_request_params_roundtrip(id, params, strings, 0);
    lemma_request_params_roundtrip(id, params, strings, 1);
    lemma_request_params_roundtrip(id, params, strings, 2);
    lemma_request_params_roundtrip(id, params, strings, 3);
    let req = encode_request(id, params, strings);
    assert(req.len() >= 2);
    assert(request_id(req) == id);
}

/// The text a client places right after the parameters, with its offset in the
/// second parameter, reaches the engine whole, whatever its length, ending with
/// its NUL; so does the file name placed there with its offset in the fourth
/// parameter of a dictionary load.
pub proof fn lemma_strings_reach_the_engine_whole(
    m: Map<u16, Handler>,
    h: Handler,
    params: Seq<i32>,
    text: Seq<u8>,
    rest: Seq<u8>,
)
    requires
        m.contains_key(h.spec_id()),
        m[h.spec_id()] == h,
        params.len() >= 4,
        forall|k: int| 0 <= k < text.len() ==> text[k] != 0,
    ensures
        ({
            let s = spec_handle_request(m, true, encode_request(h.spec_id(), params, text.push(0) + rest));
            &&& h == Handler::EciAddText && params[1] == param_offset(params.len() as int)
                ==> s == StepSpec::Call(CallSpec::AddText { engine: params[0], text: text.push(0) })
            &&& h == Handler::EciLoadDict && params[3] == param_offset(params.len() as int)
                ==> s == StepSpec::Call(CallSpec::LoadDict {
                    engine: params[0],
                    dict: params[1],
                    volume: params[2],
                    filename: text.push(0),
                })
        }),
{
    let id = h.spec_id();
    let strings = text.push(0) + rest;
    lemma_requests_carry_their_parameters(m, h, params, strings);
    lemma_request_params_roundtrip(id, params, strings, 0);
    lemma_request_params_roundtrip(id, params, strings, 1);
    lemma_request_params_roundtrip(id, params, strings, 2);
    lemma_request_params_roundtrip(id, params, strings, 3);
    let req = encode_request(id, params, strings);
    assert(request_id(req) == id);
    if h == Handler::EciAddText && params[1] == param_offset(params.len() as int) {
        lemma_request_string_roundtrip(id, params, text, rest, 1);
        assert(with_nul(text.push(0)) == text.push(0));
    }
    if h == Handler::EciLoadDict && params[3] == param_offset(params.len() as int) {
        lemma_request_string_roundtrip(id, params, text, rest, 3);
        assert(with_nul(text.push(0)) == text.push(0));
    }
}

/// What the client reads in the reply to a completed call: a 32-bit result comes
/// back as a signed integer with that value, a new handle as an unsigned integer
/// with that value, a successful load as the integer 1, and the version as the
/// bytes the engine wrote before its first NUL (all of them when it wrote none).
pub proof fn lemma_replies_carry_results(call: CallSpec, r: i32, h: u32, buf: Vec<u8>)
    ensures
        !(call is CountLanguages) ==> (spec_complete(call, EngineOutcome::Int(r)) matches StepSpec::Reply(x)
            && x.len() == 5 && x[0] == 0 && read_int_response(x) == r),
        spec_complete(call, EngineOutcome::Handle(h)) matches StepSpec::Reply(x)
            && x.len() == 5 && x[0] == 1 && read_uint_response(x) == h,
        spec_complete(call, EngineOutcome::Loaded) matches StepSpec::Reply(x)
            && x.len() == 5 && x[0] == 0 && read_int_response(x) == 1,
        spec_complete(call, EngineOutcome::Version(buf)) matches StepSpec::Reply(x) && x.len() >= 1 && x[0] == 2
            && ({
                let t = x.subrange(1, x.len() as int);
                &&& t.len() <= buf@.len()
                &&& t == buf@.subrange(0, t.len() as int)
                &&& forall|k: int| 0 <= k < t.len() ==> t[k] != 0
                &&& (t.len() == buf@.len() || buf@[t.len() as int] == 0)
            }),
{
    lemma_response_roundtrip(r, h, Seq::empty());
    lemma_response_roundtrip(1, h, Seq::empty());
    lemma_first_nul_bounds(buf@);
    let t = buf@.take(first_nul(buf@));
    let x = bytes_response(t);
    assert(x.subrange(1, x.len() as int) == t);
    assert forall|k: int| 0 <= k < t.len() implies t[k] != 0 by {
        assert(t[k] == buf@[k]);
    }
}

} // verus!
