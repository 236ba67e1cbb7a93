# worrywart

A library that worries, maybe too much, about child processes: it launches
and monitors children on Windows with enough diagnostic fidelity to tell a
clean exit from a crash, a fast-fail or an external kill.

The decision logic is written in Verus and verified:

- `src/pump.rs` — the debug-pump state machine: debug events in, continue
  status and actions out; crash / fast-fail / unknown classification.
- `src/iocp.rs` — routing of job-object exit notifications to waiters.
- `src/sentinel.rs`, `src/client.rs` — the sentinel message: what the child
  writes and how the monitor recognises it.
- `src/command.rs` — the command builder, the spawn decisions, and the
  bookkeeping of a spawned child (cached reason, handles).
- `src/cmdline.rs`, `src/argv.rs` — command-line quoting, and the proof that
  a built command line splits back into the program and its arguments.
- `src/env.rs`, `src/wide.rs`, `src/decimal.rs` — environment blocks,
  UTF-16 and decimal text.

`app/` holds the Win32 calls, the monitor threads and the tokio-compatible
`Command` / `Child` around that logic.
