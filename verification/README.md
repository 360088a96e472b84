# named_pipe

Named pipe transport: one connection to a named pipe is one Stream, over the
Windows object under `\\.\pipe\` or a FIFO on Unix.

- `src/` is the library, verified with Verus. It holds the paths of either
  system as plain values (`path`), says where a pipe is and what its origin is
  called (`name`), and decides, one action at a time, how a pipe is made, waited
  on, read and written (`pipe`, `transport`). Each decision takes the system's
  answer and gives the next action. `laws` states what holds of the whole: which
  names are apart, when a wait gives up and what it leaves behind, and that a
  Stream arrives whole.
- `tests/` drives the library against a pipe in memory.
- `app/` performs the actions on the running system, and fits the pipe to the
  estate's `transport` traits (`app/estate.rs`).
