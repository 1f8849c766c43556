# director_general

The decision logic of Director General, a local press-to-talk voice typing
tool (Tauri + whisper.cpp), as a library verified with Verus.

- `src/` — the verified library:
  - `state.rs` — the hotkey's mode machine (idle → recording → transcribing).
  - `hotkey.rs` — hotkey parsing and routing, and the transcription flow as a
    state machine whose actions the shell performs.
  - `caps_hook.rs` — what the low-level keyboard hook swallows and reports.
  - `audio.rs` — the recorder worker's protocol, device choice, sample
    formats and the WAV formats of the pipeline.
  - `transcribe.rs` — lazy model loading, GPU→CPU fallback, run parameters
    and segment text.
  - `storage.rs` — settings defaults, model search order, and the history
    rules (append with pruning, delete by id, lookup).
  - `desktop.rs` — commands, tray, overlay, settings updates, clean-up of old
    recordings.
  - `text.rs` — trimming, code point order, sorting, decimal text.
- `tests/` — tests of the library on concrete values.
- `app/` — the Tauri shell: I/O, audio capture, the speech model, the
  keyboard hook, clipboard and paste, JSON persistence, floating-point
  signal processing.
