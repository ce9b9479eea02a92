//! The recorder's state machine, the transcription modes, and the texts the
//! recorder answers with.
//!
//! The recorder is `Ready`, `Recording` or `Transcribing`. A recording starts
//! only from `Ready`; stopping it (see the pipeline module) is only possible
//! while `Recording`.

use vstd::prelude::*;
use crate::text::{decimal, decimal_text, same_text};

verus! {

/// What the recorder is doing.
#[derive(Debug, Clone, Copy, PartialEq, Eq, Structural)]
pub enum RecordingState {
    Ready,
    Recording,
    Transcribing,
}

/// What happens to a transcript.
#[derive(Debug, Clone, Copy, PartialEq, Eq, Structural)]
pub enum TranscribeMode {
    /// Pasted into the active application, never stored (may be sensitive).
    PasteOnly,
    /// Stored in the notes database, then pasted into the active application.
    DbPaste,
}

/// The error returned when a recording is asked for while one is under way.
pub open spec fn already_active_message() -> Seq<char> {
    "Already recording or transcribing"@
}

/// The error returned when a stop is asked for while nothing is recorded.
pub open spec fn not_recording_message() -> Seq<char> {
    "Not currently recording"@
}

/// The error returned when the day's transcription quota is used up.
pub open spec fn quota_exhausted_message(used: u32, limit: u32) -> Seq<char> {
    "Groq free tier épuisé pour aujourd'hui ("@ + decimal(used as nat) + "/"@ + decimal(limit as nat)
        + "). Reset à minuit UTC."@
}

/// The error returned when the day's transcription quota is used up.
pub fn quota_exhausted_text(used: u32, limit: u32) -> (s: String)
    ensures
        s@ == quota_exhausted_message(used, limit),
{
    let mut s = String::from_str("Groq free tier épuisé pour aujourd'hui (");
    let u = decimal_text(used);
    s.append(u.as_str());
    s.append("/");
    let l = decimal_text(limit);
    s.append(l.as_str());
    s.append("). Reset à minuit UTC.");
    s
}

/// The error returned when a toggle is asked for while transcribing.
pub open spec fn busy_message() -> Seq<char> {
    "Currently transcribing, please wait"@
}

/// The reply to a toggle that started a recording.
pub open spec fn started_message() -> Seq<char> {
    "recording"@
}

/// The error returned when a toggle is asked for while transcribing.
pub fn busy_text() -> (s: String)
    ensures
        s@ == busy_message(),
{
    String::from_str("Currently transcribing, please wait")
}

/// The reply to a toggle that started a recording.
pub fn started_text() -> (s: String)
    ensures
        s@ == started_message(),
{
    String::from_str("recording")
}

/// The error returned for an unknown hotkey slot.
pub open spec fn unknown_slot_message(slot: Seq<char>) -> Seq<char> {
    "Unknown slot: "@ + slot
}

impl TranscribeMode {
    /// The `source` recorded with a note taken in this mode.
    pub open spec fn label(self) -> Seq<char> {
        match self {
            TranscribeMode::PasteOnly => "desktop_paste_only"@,
            TranscribeMode::DbPaste => "desktop_db_paste"@,
        }
    }

    /// The `source` recorded with a note taken in this mode.
    pub fn source_label(&self) -> (s: &'static str)
        ensures
            s@ == self.label(),
    {
        match self {
            TranscribeMode::PasteOnly => "desktop_paste_only",
            TranscribeMode::DbPaste => "desktop_db_paste",
        }
    }

    /// Whether notes taken in this mode are stored in the database.
    pub fn save_to_db(&self) -> (b: bool)
        ensures
            b == (*self is DbPaste),
    {
        match self {
            TranscribeMode::PasteOnly => false,
            TranscribeMode::DbPaste => true,
        }
    }

    /// The mode of a hotkey slot: `"paste_only"` or `"db_paste"`.
    pub fn from_slot(slot: &str) -> (r: Result<TranscribeMode, String>)
        ensures
            slot@ == "paste_only"@ ==> r == Ok::<TranscribeMode, String>(TranscribeMode::PasteOnly),
            slot@ == "db_paste"@ ==> r == Ok::<TranscribeMode, String>(TranscribeMode::DbPaste),
            slot@ != "paste_only"@ && slot@ != "db_paste"@ ==> (r matches Err(e) && e@
                == unknown_slot_message(slot@)),
    {
        proof {
            reveal_strlit("paste_only");
            reveal_strlit("db_paste");
            assert("db_paste"@.len() != "paste_only"@.len());
        }
        if same_text(slot, "paste_only") {
            Ok(TranscribeMode::PasteOnly)
        } else if same_text(slot, "db_paste") {
            Ok(TranscribeMode::DbPaste)
        } else {
            let e = String::from_str("Unknown slot: ");
            Err(e.concat(slot))
        }
    }
}

/// The recorder: tracks whether a recording or a transcription is under way.
pub struct Recorder {
    state: RecordingState,
}

impl View for Recorder {
    type V = RecordingState;

    closed spec fn view(&self) -> RecordingState {
        self.state
    }
}

/// What a toggle request leads to, given the recorder's state.
#[derive(Debug, Clone, Copy, PartialEq, Eq, Structural)]
pub enum ToggleAction {
    /// Ready: start a recording.
    StartRecording,
    /// Recording: stop it and transcribe.
    StopAndTranscribe,
    /// Transcribing: refuse, the user must wait.
    Busy,
}

impl Recorder {
    /// A recorder that is ready to record.
    pub fn new() -> (r: Recorder)
        ensures
            r@ == RecordingState::Ready,
    {
        Recorder { state: RecordingState::Ready }
    }

    /// The recorder's state.
    pub fn get_state(&self) -> (s: RecordingState)
        ensures
            s == self@,
    {
        self.state
    }

    /// Starts a recording. Only a ready recorder starts: otherwise the error
    /// says that a recording or transcription is under way, and `start_audio`
    /// is not called. When ready, `start_audio` starts the audio capture; its
    /// error is returned as is and leaves the recorder ready, its success makes
    /// the recorder record.
    pub fn start_recording<F: FnOnce() -> Result<(), String>>(&mut self, start_audio: F) -> (r:
        Result<(), String>)
        requires
            old(self)@ == RecordingState::Ready ==> call_requires(start_audio, ()),
        ensures
            old(self)@ != RecordingState::Ready ==> {
                &&& final(self)@ == old(self)@
                &&& r matches Err(e) && e@ == already_active_message()
            },
            old(self)@ == RecordingState::Ready ==> {
                &&& call_ensures(start_audio, (), r)
                &&& r is Ok ==> final(self)@ == RecordingState::Recording
                &&& r is Err ==> final(self)@ == RecordingState::Ready
            },
    {
        if self.state != RecordingState::Ready {
            return Err(String::from_str("Already recording or transcribing"));
        }
        let started = start_audio();
        if started.is_ok() {
            self.state = RecordingState::Recording;
        }
        started
    }

    /// Puts the recorder in the given state.
    pub(crate) fn set_state(&mut self, state: RecordingState)
        ensures
            final(self)@ == state,
    {
        self.state = state;
    }

    /// What a toggle request does in the recorder's state.
    pub fn toggle_action(&self) -> (a: ToggleAction)
        ensures
            self@ == RecordingState::Ready ==> a == ToggleAction::StartRecording,
            self@ == RecordingState::Recording ==> a == ToggleAction::StopAndTranscribe,
            self@ == RecordingState::Transcribing ==> a == ToggleAction::Busy,
    {
        match self.state {
            RecordingState::Ready => ToggleAction::StartRecording,
            RecordingState::Recording => ToggleAction::StopAndTranscribe,
            RecordingState::Transcribing => ToggleAction::Busy,
        }
    }
}

/// Notes of the two modes are told apart by their `source` label.
pub proof fn lemma_labels_tell_modes_apart(a: TranscribeMode, b: TranscribeMode)
    requires
        a.label() == b.label(),
    ensures
        a == b,
{
    reveal_strlit("desktop_paste_only");
    reveal_strlit("desktop_db_paste");
    assert("desktop_paste_only"@.len() != "desktop_db_paste"@.len());
}

} // verus!
