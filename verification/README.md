# brain_dump

Core of the brain-dump voice capture tool, written in Verus: a hotkey starts a
recording, the recording is transcribed, the text is stored as a note and/or
pasted into the active application.

- `src/quota.rs` — the daily quota of the transcription service (warning at
  1500 requests, refusal at 2000, reset at midnight UTC).
- `src/recorder.rs` — the recorder's states (`Ready`, `Recording`,
  `Transcribing`), the transcription modes and the hotkey slots.
- `src/pipeline.rs` — the transcription pipeline run when a recording stops, as
  a state machine fed with the outcome of each piece of outside work.
- `src/hotkey.rs` — what a global hotkey press or release asks of the recorder.
- `src/settings.rs` — the settings, their defaults, and how stored settings
  are completed with defaults.
- `src/supabase.rs` — the note insertion request and how its answer is judged.
- `src/text.rs` — text comparison and decimal writing.
- `app/` — the desktop program: files, the audio device, HTTP, the window
  system and the user interface, driven by the library.
