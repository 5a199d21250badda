# ibmtts_host32

A 32-bit bridge host for the IBM TTS (ECI) engine: clients talk to it over the
named pipe `\\.\pipe\ibmtts_host32`, and audio comes back through a shared-memory
block guarded by two events.

- `src/` is the verified library: the request format (id, 4-byte parameters,
  NUL-terminated strings), the typed responses, the routing of requests to the
  engine endpoints and the replies built from the engine's results, the
  shared-memory header and names, and the decisions of the pipe and host loops.
  Every function there has a contract proved by Verus, and the laws of the
  protocol (what a client writes is what the host reads, and back) are proof
  functions beside the code they speak of.
- `app/` is the Windows program around it: the Win32 calls, the loading of the
  engine DLL, the engine calls themselves, threads and the named pipe.
- `tests/` runs the library on concrete requests and results.
