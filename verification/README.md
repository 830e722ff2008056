# macfuse_session

A read-only file system that holds one file, `hello`, and the session that connects its server
with the FUSE driver of macOS.

- `src/` is the library. It performs no I/O: where a request takes a system call, the library says
  which call to make and takes its result. Every function has a contract, which Verus proves. The
  contracts of the few private functions that hand out a constant of `libc` or call a function of
  the standard library are trusted; each names what it stands for.
  - `fs` answers the requests to the file system, with the values of `types` and the file modes of
    `modes`.
  - `transport::macfuse::session` mounts and unmounts, step by step; `kern` says what the system
    calls for that are given and what their results mean.
  - `transport::macfuse::channel` turns reads from the FUSE device into requests, and says when to
    read and when to stop serving.
  - `transport::macfuse::task` is the loop of a task that awaits its requests.
- `tests/` runs the library on concrete values.
- `app/` makes the system calls and serves the file system. Mounting takes macOS.
