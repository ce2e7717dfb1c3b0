# prollyglot_runtime

The runtime of Prollyglot, a local captioning and screen-translation
desktop utility, written in Verus: the rules that decide what the
application does, each with a contract that Verus proves.

## Layout

- `src/` — the verified library.
  - Sessions: `supervisor.rs` (one session at a time, its workers, stop and
    cleanup), `supervisor_laws.rs` (properties across operations),
    `session_monitor.rs`, `startup.rs`, `contracts.rs`, `publication.rs`.
  - Audio: `buffer.rs`, `pipeline.rs`, `voice.rs`, `capture.rs`,
    `capture_publisher.rs`, `speech.rs`.
  - PipeWire graph: `registry.rs`, `graph.rs`, `graph_laws.rs`,
    `monitor_inputs.rs`, `identity.rs`, `ordered.rs`.
  - Screen translation: `visual_capture.rs`, `visual_presentation.rs`,
    `visual_status.rs`, `portal.rs`, `geometry.rs`, `region_selection.rs`,
    `reader_background.rs`, `echo.rs`.
  - Captions and the overlay: `presentation.rs`, `overlay.rs`, `text.rs`.
  - Models and configuration: `models.rs`, `model_inspection.rs`,
    `model_protocol.rs`, `resources.rs`, `configuration.rs`,
    `bindings.rs`, `ipc.rs`.
- `tests/` — tests of the library on concrete values.
- `app/` — ordinary Rust around the library: the serde and ts-rs copies of
  the wire types, floating-point audio processing, `/proc` reads, and the
  thread-shared supervisor.

Values that depend on other threads (a queue's fill, a shared
cancellation flag) are read at the edge; the verified step that follows
takes what was read as an argument and is exact for every value of it.
