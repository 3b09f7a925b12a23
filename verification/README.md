# mem_isolate

Runs a function in a forked child process, so that whatever it does to memory
cannot affect the calling process, and hands its result back.

- `src/` is the verified library: the protocol between parent and child as a
  state machine (`protocol.rs`), the decisions of each step and how the
  child's `waitpid` status is read (`lib.rs`, `c.rs`), the error types
  (`errors.rs`), mocked system functions (`c/mock.rs`), and the properties
  that span steps and processes (`laws.rs`).
- `app/` drives the state machine: it makes the system calls through libc,
  runs the callable, (de)serializes results with bincode, and holds the
  public error types with their messages and serde encoding.
- `tests/` exercises the library on concrete values.

Supported systems: Linux, macOS and the BSDs. The contracts that the
library takes on trust from libc (the wait-status macros, `EINTR`, `EIO`)
are true there and not on other Unix targets such as Haiku, AIX or Hurd.
