use ibmtts_host32::defs::{ECICallbackReturn, ECIDictError, ECIDictVolume, ECILanguageDialect, ECIMessage, ECIParam, ECIVoiceParam};
use ibmtts_host32::encoding::{push_decimal, push_hex};
use ibmtts_host32::host::{after_wait, already_running, parent_exited, parse_parent_pid, LoopStep, WAIT_FAILED, WAIT_IO_COMPLETION};
use ibmtts_host32::ipc::{connect_outcome, read_delivered_request, write_outcome, write_required, ERROR_BROKEN_PIPE, ERROR_PIPE_CONNECTED};
use ibmtts_host32::shared_memory::{
    callback_return, header_message_code, processed_event_name, ready_event_name, shared_memory_size, shm_name, SharedHeader, WAIT_OBJECT_0,
};

#[test]
fn parent_pid_from_command_line() {
    assert_eq!(parse_parent_pid(b"1234"), Some(1234));
    assert_eq!(parse_parent_pid(b" \"12a34\" "), Some(1234));
    assert_eq!(parse_parent_pid(b"0007"), Some(7));
    assert_eq!(parse_parent_pid(b"4294967295"), Some(u32::MAX));
    assert_eq!(parse_parent_pid(b"4294967296"), None);
    assert_eq!(parse_parent_pid(b"99999999999999999999"), None);
    assert_eq!(parse_parent_pid(b""), None);
    assert_eq!(parse_parent_pid(b"pid"), None);
    assert_eq!(parse_parent_pid(&[0xc3, b'4', 0xff, b'2']), Some(42));
}

#[test]
fn wait_loop_decisions() {
    assert_eq!(after_wait(WAIT_FAILED, true), LoopStep::Exit);
    assert_eq!(after_wait(WAIT_IO_COMPLETION, true), LoopStep::Continue);
    assert_eq!(after_wait(WAIT_IO_COMPLETION, false), LoopStep::Exit);
    assert_eq!(after_wait(0, true), LoopStep::PumpMessages);
    assert_eq!(after_wait(0, false), LoopStep::PumpMessages);
}

#[test]
fn instance_and_parent_checks() {
    assert!(already_running(183));
    assert!(!already_running(0));
    assert!(parent_exited(0));
    assert!(!parent_exited(0x0006_0002));
}

#[test]
fn pipe_decisions() {
    assert_eq!(connect_outcome(1, 0), Ok(()));
    assert_eq!(connect_outcome(0, ERROR_PIPE_CONNECTED), Ok(()));
    assert_eq!(connect_outcome(0, 232), Err(232));
    assert_eq!(write_outcome(5, 1, 5, 0), Ok(()));
    assert_eq!(write_outcome(5, 0, 0, 232), Err(232));
    assert_eq!(write_outcome(5, 1, 0, 0), Err(ERROR_BROKEN_PIPE));
    assert_eq!(write_outcome(5, 1, 3, 0), Err(ERROR_BROKEN_PIPE));
    assert_eq!(write_outcome(0, 0, 0, 0), Ok(()));
    assert!(write_required(1));
    assert!(!write_required(0));
    assert!(read_delivered_request(0, 10));
    assert!(!read_delivered_request(0, 0));
    assert!(!read_delivered_request(109, 10));
}

#[test]
fn header_layout() {
    let h = SharedHeader { h_engine: 0x0102_0304, msg: 2, lparam: -1 };
    assert_eq!(h.to_bytes(), vec![4, 3, 2, 1, 2, 0, 0, 0, 0xff, 0xff, 0xff, 0xff]);
}

#[test]
fn messages_carry_the_client_codes() {
    assert_eq!(header_message_code(ECIMessage::eciWaveformBuffer.value() as u32), 3);
    assert_eq!(header_message_code(ECIMessage::eciIndexReply.value() as u32), 4);
    assert_eq!(header_message_code(ECIMessage::eciPhonemeBuffer.value() as u32), 0);
    assert_eq!(header_message_code(ECIMessage::eciPhonemeIndexReply.value() as u32), 1);
    assert_eq!(header_message_code(ECIMessage::eciWordIndexReply.value() as u32), 2);
    assert_eq!(header_message_code(9), 9);
    let h = SharedHeader::for_message(0x10, 0, 512);
    assert_eq!(h.to_bytes(), vec![0x10, 0, 0, 0, 3, 0, 0, 0, 0, 2, 0, 0]);
}

#[test]
fn client_answers_reach_the_engine() {
    assert_eq!(callback_return(WAIT_OBJECT_0, 1), ECICallbackReturn::eciDataProcessed);
    assert_eq!(callback_return(WAIT_OBJECT_0, 2), ECICallbackReturn::eciDataAbort);
    assert_eq!(callback_return(WAIT_OBJECT_0, 0), ECICallbackReturn::eciDataNotProcessed);
    assert_eq!(callback_return(WAIT_OBJECT_0, 7), ECICallbackReturn::eciDataNotProcessed);
    assert_eq!(callback_return(258, 1), ECICallbackReturn::eciDataAbort);
    assert_eq!(ECICallbackReturn::eciDataProcessed.value(), 1);
    assert_eq!(ECICallbackReturn::eciDataAbort.value(), 2);
    assert_eq!(ECICallbackReturn::eciDataNotProcessed.value(), 0);
}

#[test]
fn block_size_and_names() {
    assert_eq!(shared_memory_size(3300), 6612);
    assert_eq!(shared_memory_size(0), 12);
    assert_eq!(shm_name(0x1a2b), b"Local\\eci_shm_1a2b".to_vec());
    assert_eq!(ready_event_name(0), b"Local\\eci_ready_0".to_vec());
    assert_eq!(processed_event_name(0xffff_ffff), b"Local\\eci_proc_ffffffff".to_vec());
    assert_ne!(shm_name(0x10), shm_name(0x100));
}

#[test]
fn digit_texts() {
    let mut v = Vec::new();
    push_hex(&mut v, 0xdead_beef);
    assert_eq!(v, b"deadbeef".to_vec());
    let mut d = Vec::new();
    push_decimal(&mut d, 4294967295);
    assert_eq!(d, b"4294967295".to_vec());
    let mut z = Vec::new();
    push_decimal(&mut z, 0);
    assert_eq!(z, b"0".to_vec());
}

#[test]
fn engine_codes() {
    assert_eq!(ECIParam::eciSampleRate.value(), 5);
    assert_eq!(ECIParam::eciNumParams.value(), 17);
    assert_eq!(ECIVoiceParam::eciVolume.value(), 7);
    assert_eq!(ECIDictVolume::eciMainDictExt.value(), 3);
    assert_eq!(ECIDictError::DictAccessError.value(), 6);
    assert_eq!(ECILanguageDialect::eciStandardKorean.value(), 0x000A_0000);
    assert_eq!(ECILanguageDialect::eciMandarinChineseUCS.value(), 0x0006_0800);
    assert_eq!(ECIMessage::eciIndexReply.value(), 2);
}
