//! Verified core of a 32-bit bridge host for the IBM TTS (ECI) engine:
//! the binary request/response protocol spoken over the named pipe,
//! the dispatch of requests to engine endpoints, the shared-memory
//! callback header, and the small decisions of the pipe and host loops.

pub mod defs;
pub mod encoding;
pub mod request;
pub mod response;
pub mod shared_memory;
pub mod worker;
pub mod ipc;
pub mod host;
