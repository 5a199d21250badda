//! Decisions of the named-pipe plumbing: how the results of the system calls
//! that connect, read and write a pipe instance are judged.

use vstd::prelude::*;

verus! {

/// System error: a client connected between creating the pipe and waiting for it.
pub const ERROR_PIPE_CONNECTED: u32 = 535;

/// System error: the other end of the pipe has been closed.
pub const ERROR_BROKEN_PIPE: u32 = 109;

/// Size of the pipe's input and output buffers, and of the read buffer.
pub const PIPE_BUFFER_SIZE: u32 = 65536;

/// Whether a client is connected after waiting for one: `success` is what the
/// connect call returned (nonzero on success) and `last_error` the system error
/// code read after a failed call. A client that connected before the wait counts
/// as connected; any other failure gives its error code.
pub fn connect_outcome(success: i32, last_error: u32) -> (r: Result<(), u32>)
    ensures
        success != 0 ==> r == Ok::<(), u32>(()),
        success == 0 && last_error == ERROR_PIPE_CONNECTED ==> r == Ok::<(), u32>(()),
        success == 0 && last_error != ERROR_PIPE_CONNECTED ==> r == Err::<(), u32>(last_error),
{
    if success == 0 {
        if last_error == ERROR_PIPE_CONNECTED {
            return Ok(());
        }
        return Err(last_error);
    }
    Ok(())
}

/// Whether a payload of `payload_len` bytes has to be written at all: an empty
/// payload is not sent.
pub fn write_required(payload_len: usize) -> (r: bool)
    ensures
        r == (payload_len != 0),
{
    payload_len != 0
}

/// Whether writing a payload of `payload_len` bytes as one message succeeded:
/// `success` is what the write call returned, `written` the number of bytes it
/// reports, `last_error` the system error code read after a failed call. An empty
/// payload needs no write and succeeds; a failed call gives its error code; a
/// message is only sent when all of its bytes went out, so a write of fewer bytes
/// than the payload means the pipe is broken.
pub fn write_outcome(payload_len: usize, success: i32, written: u32, last_error: u32) -> (r: Result<(), u32>)
    ensures
        payload_len == 0 ==> r == Ok::<(), u32>(()),
        payload_len != 0 && success == 0 ==> r == Err::<(), u32>(last_error),
        payload_len != 0 && success != 0 && written != payload_len ==> r == Err::<(), u32>(ERROR_BROKEN_PIPE),
        payload_len != 0 && success != 0 && written == payload_len ==> r == Ok::<(), u32>(()),
{
    if !write_required(payload_len) {
        return Ok(());
    }
    if success == 0 {
        return Err(last_error);
    }
    if written as usize != payload_len {
        return Err(ERROR_BROKEN_PIPE);
    }
    Ok(())
}

/// Whether a completed read delivered a request: it did unless the read failed
/// or transferred no bytes, which means the client is gone.
pub fn read_delivered_request(error: u32, transferred: u32) -> (r: bool)
    ensures
        r == (error == 0 && transferred != 0),
{
    error == 0 && transferred != 0
}

} // verus!
