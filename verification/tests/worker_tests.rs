use ibmtts_host32::response::{pack_bytes, pack_int, pack_uint, pack_utf_string};
use ibmtts_host32::shared_memory::ShmError;
use ibmtts_host32::worker::{
    complete, handle_request, register_handler, EngineCall, EngineOutcome, Handler, Registry, Step,
};

fn request(id: u16, params: &[i32], strings: &[u8]) -> Vec<u8> {
    let mut v = id.to_le_bytes().to_vec();
    for p in params {
        v.extend_from_slice(&p.to_le_bytes());
    }
    v.extend_from_slice(strings);
    v
}

fn reply(s: Step) -> Vec<u8> {
    match s {
        Step::Reply(r) => r,
        Step::Call(c) => panic!("expected a reply, got {:?}", c),
    }
}

fn call(s: Step) -> EngineCall {
    match s {
        Step::Call(c) => c,
        Step::Reply(r) => panic!("expected a call, got {:?}", r),
    }
}

#[test]
fn short_request_is_refused() {
    let reg = Registry::with_api();
    assert_eq!(reply(handle_request(&reg, true, &[])), pack_utf_string("ERR:short request"));
    assert_eq!(reply(handle_request(&reg, true, &[1])), pack_utf_string("ERR:short request"));
}

#[test]
fn unknown_id_is_answered_with_the_id_bytes() {
    let reg = Registry::with_api();
    let mut expected = b"ERR:unknown id ".to_vec();
    expected.extend_from_slice(&300u16.to_le_bytes());
    assert_eq!(reply(handle_request(&reg, true, &request(300, &[], b""))), pack_bytes(expected));
    let empty = Registry::new();
    let mut expected = b"ERR:unknown id ".to_vec();
    expected.extend_from_slice(&3u16.to_le_bytes());
    assert_eq!(reply(handle_request(&empty, true, &request(3, &[], b""))), pack_bytes(expected));
}

#[test]
fn register_then_dispatch() {
    let mut reg = Registry::new();
    register_handler(&mut reg, 42, Handler::EciStop);
    assert_eq!(reg.lookup(42), Some(Handler::EciStop));
    assert_eq!(call(handle_request(&reg, true, &request(42, &[5], b""))), EngineCall::Stop { engine: 5 });
    register_handler(&mut reg, 42, Handler::EciSynthesize);
    assert_eq!(call(handle_request(&reg, true, &request(42, &[5], b""))), EngineCall::Synthesize { engine: 5 });
    assert_eq!(reg.lookup(43), None);
}

#[test]
fn api_table_uses_declared_ids() {
    let reg = Registry::with_api();
    for id in 1u16..=19 {
        let h = reg.lookup(id).expect("registered");
        assert_eq!(h.id(), id);
        assert_eq!(Handler::from_id(id), Some(h));
    }
    assert_eq!(reg.lookup(0), None);
    assert_eq!(reg.lookup(20), None);
    assert_eq!(Handler::LoadLibrary.id(), 1);
    assert_eq!(Handler::SetBuffer.id(), 5);
    assert_eq!(Handler::EciDelete.id(), 19);
}

#[test]
fn engine_endpoints_need_the_library() {
    let reg = Registry::with_api();
    for id in 2u16..=19 {
        assert_eq!(reply(handle_request(&reg, false, &request(id, &[1, 2, 3, 4], b""))), pack_utf_string("ERR:no lib"));
    }
}

#[test]
fn load_library_trims_nuls_and_answers_one_when_loaded() {
    let reg = Registry::with_api();
    let mut data = 1u16.to_le_bytes().to_vec();
    data.extend_from_slice(b"\0\0C:\\eci.dll\0\0");
    assert_eq!(call(handle_request(&reg, false, &data)), EngineCall::LoadLibrary { path: b"C:\\eci.dll".to_vec() });
    assert_eq!(reply(handle_request(&reg, true, &data)), pack_int(1));
    let only_nuls = vec![1u8, 0, 0, 0];
    assert_eq!(call(handle_request(&reg, false, &only_nuls)), EngineCall::LoadLibrary { path: vec![] });
}

#[test]
fn requests_decode_their_parameters() {
    let reg = Registry::with_api();
    let h = |id: u16, params: &[i32], s: &[u8]| call(handle_request(&reg, true, &request(id, params, s)));
    assert_eq!(h(2, &[], b""), EngineCall::Version);
    assert_eq!(h(3, &[], b""), EngineCall::New);
    assert_eq!(h(4, &[0x0001_0000], b""), EngineCall::NewEx { dialect: 0x0001_0000 });
    assert_eq!(h(5, &[-1, 3300], b""), EngineCall::SetBuffer { handle: 0xffff_ffff, samples: 3300 });
    assert_eq!(h(6, &[9, 10], b"hi\0"), EngineCall::AddText { engine: 9, text: b"hi\0".to_vec() });
    assert_eq!(h(6, &[9, 10], b"hi"), EngineCall::AddText { engine: 9, text: b"hi\0".to_vec() });
    assert_eq!(h(6, &[9, 99], b"hi"), EngineCall::AddText { engine: 9, text: b"\0".to_vec() });
    assert_eq!(h(7, &[9, 77], b""), EngineCall::InsertIndex { engine: 9, index: 77 });
    assert_eq!(h(8, &[9], b""), EngineCall::Synthesize { engine: 9 });
    assert_eq!(h(9, &[], b""), EngineCall::CountLanguages);
    assert_eq!(h(10, &[9], b""), EngineCall::Stop { engine: 9 });
    assert_eq!(h(11, &[9, 5], b""), EngineCall::GetParam { engine: 9, param: 5 });
    assert_eq!(h(12, &[9, 5, 22050], b""), EngineCall::SetParam { engine: 9, param: 5, value: 22050 });
    assert_eq!(h(13, &[9, 1, 6], b""), EngineCall::GetVoiceParam { engine: 9, voice: 1, param: 6 });
    assert_eq!(h(14, &[9, 1, 6, 50], b""), EngineCall::SetVoiceParam { engine: 9, voice: 1, param: 6, value: 50 });
    assert_eq!(h(15, &[9, 1, 2], b""), EngineCall::CopyVoice { engine: 9, from: 1, to: 2 });
    assert_eq!(h(16, &[9], b""), EngineCall::NewDict { engine: 9 });
    assert_eq!(
        h(17, &[9, 4, 0, 18], b"main.dic\0"),
        EngineCall::LoadDict { engine: 9, dict: 4, volume: 0, filename: b"main.dic\0".to_vec() }
    );
    assert_eq!(
        h(17, &[9, 4, 0, 18], b"main.dic"),
        EngineCall::LoadDict { engine: 9, dict: 4, volume: 0, filename: b"main.dic\0".to_vec() }
    );
    assert_eq!(h(18, &[9, 4], b""), EngineCall::SetDict { engine: 9, dict: 4 });
    assert_eq!(h(19, &[9], b""), EngineCall::Delete { engine: 9 });
}

#[test]
fn results_are_packed_by_call_kind() {
    assert_eq!(reply(complete(&EngineCall::Stop { engine: 1 }, EngineOutcome::Int(-3))), pack_int(-3));
    assert_eq!(reply(complete(&EngineCall::New, EngineOutcome::Handle(0x8000_0001))), pack_uint(0x8000_0001));
    assert_eq!(reply(complete(&EngineCall::NewDict { engine: 1 }, EngineOutcome::Handle(7))), pack_uint(7));
    assert_eq!(reply(complete(&EngineCall::Delete { engine: 1 }, EngineOutcome::Int(0))), pack_int(0));
}

#[test]
fn version_is_cut_at_the_first_nul() {
    let mut buf = vec![0u8; 256];
    buf[..6].copy_from_slice(b"6.1.0\0");
    buf[7] = b'x';
    assert_eq!(reply(complete(&EngineCall::Version, EngineOutcome::Version(buf))), pack_bytes(b"6.1.0".to_vec()));
    let full = vec![b'a'; 4];
    assert_eq!(reply(complete(&EngineCall::Version, EngineOutcome::Version(full))), pack_bytes(b"aaaa".to_vec()));
}

#[test]
fn load_outcomes() {
    let c = EngineCall::LoadLibrary { path: b"eci.dll".to_vec() };
    assert_eq!(reply(complete(&c, EngineOutcome::Loaded)), pack_int(1));
    assert_eq!(
        reply(complete(&c, EngineOutcome::LoadFailed(b"Failed to load DLL at: eci.dll (Windows Error Code: 126)".to_vec()))),
        pack_utf_string("ERR:load:Failed to load DLL at: eci.dll (Windows Error Code: 126)")
    );
}

#[test]
fn set_buffer_outcomes() {
    let c = EngineCall::SetBuffer { handle: 0x00ab_cdef, samples: 3300 };
    assert_eq!(
        reply(complete(&c, EngineOutcome::SharedMemoryReady)),
        pack_utf_string("SHM:Local\\eci_shm_abcdef;EVT:Local\\eci_ready_abcdef")
    );
    assert_eq!(
        reply(complete(&c, EngineOutcome::SharedMemoryFailed(ShmError::MappingFailed(5)))),
        pack_utf_string("ERR:CreateFileMappingW failed: 5")
    );
    assert_eq!(
        reply(complete(&c, EngineOutcome::SharedMemoryFailed(ShmError::ViewFailed(1455)))),
        pack_utf_string("ERR:MapViewOfFile failed: 1455")
    );
}

#[test]
fn language_listing_in_two_steps() {
    let count = EngineCall::CountLanguages;
    assert_eq!(reply(complete(&count, EngineOutcome::Int(0))), pack_int(0));
    assert_eq!(reply(complete(&count, EngineOutcome::Int(-1))), pack_int(-1));
    let next = call(complete(&count, EngineOutcome::Int(2)));
    assert_eq!(next, EngineCall::ListLanguages { count: 2 });
    let listed = reply(complete(&next, EngineOutcome::Languages { result: 0, languages: vec![0x0001_0000, 0x0002_0001] }));
    let mut payload = 2i32.to_le_bytes().to_vec();
    payload.extend_from_slice(&0x0001_0000i32.to_le_bytes());
    payload.extend_from_slice(&0x0002_0001i32.to_le_bytes());
    assert_eq!(listed, pack_bytes(payload));
    assert_eq!(reply(complete(&next, EngineOutcome::Languages { result: -5, languages: vec![0, 0] })), pack_int(-5));
}
