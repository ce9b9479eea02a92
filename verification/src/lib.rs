//! Core logic of the brain-dump voice capture tool: the daily quota of the
//! transcription service, the recorder's state machine and the transcription
//! pipeline it drives, the user settings, and the note insertion protocol.

pub mod quota;
pub mod text;
pub mod recorder;
pub mod pipeline;
pub mod hotkey;
pub mod settings;
pub mod supabase;
