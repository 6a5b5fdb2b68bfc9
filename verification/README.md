# wasm-crimp

Record and replay of WebAssembly executions, verified with Verus.

A recording is a trace of events: a signature naming the trace format and
the recording settings, then the events of the execution (host calls and
returns, instantiations, calls into Wasm, component lowering and builtins),
then an end-of-trace marker. Replay reads the trace back, skips diagnostic
events, checks validation events when asked, and tells the engine which
top-level step each event asks for.

Layout:

- `src/` — the verified library.
  - `rr_event.rs`, `events.rs`, `events/` — the event vocabulary.
  - `record.rs` — the record buffer and its window.
  - `replay.rs` — the replay buffer; the record/replay round-trip laws.
  - `validate.rs` — validation of recorded events against replay.
  - `flat.rs` — raw values and their flat byte encoding.
  - `replay_driver.rs` — the replay environment, instance maps, host
    context and the planning of top-level events.
  - `error.rs`, `text.rs`, `checksum.rs`, `index.rs`, `settings.rs`.
  - `command.rs` — the decisions of the `replay` command.
  - `embed.rs` — the logic of the embedded hosts (console, UART,
    allocator plans, guest pin specifications).
- `tests/` — tests of the library.
- `app/` — postcard encoding of traces, trace streaming, and the command
  line of the `replay` command.
