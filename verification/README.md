# incant

Push-to-talk voice dictation for Wayland: a daemon that records while a key is
held (or after a double tap), transcribes the speech and types it into the
focused window, a small CLI client with a `doctor` report, and an overlay.

## Layout

- `src/` — the verified core, written in Verus:
  - `protocol.rs` — commands, statuses, replies and their wire names;
  - `state.rs` — the recording state (pre-roll buffer, press times, results);
  - `ipc.rs` — how each client command changes the state and what it answers;
  - `daemon.rs` — one tick of the daemon's poll loop and the steps after it
    (promotion of a press, quick-tap discard, hand-off to transcription, errors);
  - `output.rs` — the steps of text injection (which method next) and each
    method's input;
  - `capture.rs` — choosing the capture configuration;
  - `stt.rs` — model file selection and download planning;
  - `doctor.rs` — the diagnostic checks and their report;
  - `overlay.rs` — the overlay's reconnect policy;
  - `config.rs`, `text.rs`, `sound.rs` — settings, string helpers, effects.
- `tests/` — tests of the library.
- `app/` — the programs around the library: sockets, processes, audio
  capture and playback, the speech engine, downloads, the GTK overlay.
