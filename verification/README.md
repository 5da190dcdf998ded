# iocp

An asynchronous I/O Completion Port driver for Windows, split in two:

* `src/` is the library, verified with Verus. It holds the decisions of the
  driver: the FIFO pool of I/O buffers (`pool`) and of accept sockets
  (`pool::socket_pool`), the lock word that lets one operation at a time own
  an overlapped header (`task`), the file offset that reads and writes advance
  (`task::OverlappedOffset`), the pending-operation counter of a completion
  port and the classification of dequeued completions (`completion_port`),
  the state machines of the futures (`handle`, `io::run`, `io::tokio`) and of
  the background thread (`background`), named pipe options (`pipe`) and owned
  buffers (`buf`). Laws about these are proof functions next to the code
  they speak of. FIFO reclamation, flag updates and the background thread's
  draining hold of the executable pool, options and driver through their
  views. Exclusive locking and the pending-operation count (no permits after
  shutdown, the count reported at shutdown) hold of the pure transitions of
  the lock word and of the counter (`task::spec_lock`, `spec_unlock`,
  `completion_port::spec_permit` and the like); the std atomics that carry
  these words have no specification of their value, so the executable steps
  (`task::lock_step`, `unlock_step`, `completion_port::permit_result`,
  `poll_result`) are tied to the transitions, not the atomics themselves.
* `app/` makes the operating system calls through `windows-sys`, runs the
  background thread and implements the futures and Tokio's `AsyncRead` and
  `AsyncWrite`, taking every decision from the library.

`tests/` exercises the library on concrete values.
