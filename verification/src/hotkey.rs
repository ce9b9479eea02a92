//! What a global hotkey event asks of the recorder.
//!
//! In `"toggle"` recording mode a key press toggles the recording. In
//! `"push-to-talk"` mode a press starts a recording if the recorder is ready
//! and the release stops it if it is recording. Any other mode ignores the key.

use vstd::prelude::*;
use crate::recorder::RecordingState;
use crate::text::same_text;

verus! {

/// What a hotkey event asks for, before the recorder's state is looked at.
#[derive(Debug, Clone, Copy, PartialEq, Eq, Structural)]
pub enum HotkeyIntent {
    /// Toggle the recording.
    Toggle,
    /// Start a recording if the recorder is ready.
    StartIfReady,
    /// Stop the recording if the recorder is recording.
    StopIfRecording,
    /// Nothing.
    Ignore,
}

/// What is done in the end.
#[derive(Debug, Clone, Copy, PartialEq, Eq, Structural)]
pub enum HotkeyAction {
    Toggle,
    Start,
    Stop,
    Nothing,
}

/// What a key press (`pressed`) or release asks for in the given recording mode.
pub fn hotkey_intent(recording_mode: &str, pressed: bool) -> (i: HotkeyIntent)
    ensures
        pressed && recording_mode@ == "toggle"@ ==> i == HotkeyIntent::Toggle,
        pressed && recording_mode@ == "push-to-talk"@ ==> i == HotkeyIntent::StartIfReady,
        !pressed && recording_mode@ == "push-to-talk"@ ==> i == HotkeyIntent::StopIfRecording,
        !pressed && recording_mode@ != "push-to-talk"@ ==> i == HotkeyIntent::Ignore,
        recording_mode@ != "toggle"@ && recording_mode@ != "push-to-talk"@ ==> i
            == HotkeyIntent::Ignore,
{
    proof {
        reveal_strlit("toggle");
        reveal_strlit("push-to-talk");
        assert("toggle"@.len() != "push-to-talk"@.len());
    }
    if pressed {
        if same_text(recording_mode, "toggle") {
            HotkeyIntent::Toggle
        } else if same_text(recording_mode, "push-to-talk") {
            HotkeyIntent::StartIfReady
        } else {
            HotkeyIntent::Ignore
        }
    } else if same_text(recording_mode, "push-to-talk") {
        HotkeyIntent::StopIfRecording
    } else {
        HotkeyIntent::Ignore
    }
}

impl HotkeyIntent {
    /// What is done, given the recorder's state when the intent is acted on.
    pub fn action_in(self, state: RecordingState) -> (a: HotkeyAction)
        ensures
            self == HotkeyIntent::Toggle ==> a == HotkeyAction::Toggle,
            self == HotkeyIntent::StartIfReady ==> a == (if state == RecordingState::Ready {
                HotkeyAction::Start
            } else {
                HotkeyAction::Nothing
            }),
            self == HotkeyIntent::StopIfRecording ==> a == (if state == RecordingState::Recording {
                HotkeyAction::Stop
            } else {
                HotkeyAction::Nothing
            }),
            self == HotkeyIntent::Ignore ==> a == HotkeyAction::Nothing,
    {
        match self {
            HotkeyIntent::Toggle => HotkeyAction::Toggle,
            HotkeyIntent::StartIfReady => if state == RecordingState::Ready {
                HotkeyAction::Start
            } else {
                HotkeyAction::Nothing
            },
            HotkeyIntent::StopIfRecording => if state == RecordingState::Recording {
                HotkeyAction::Stop
            } else {
                HotkeyAction::Nothing
            },
            HotkeyIntent::Ignore => HotkeyAction::Nothing,
        }
    }
}

/// The error given when a new hotkey cannot be registered.
pub open spec fn register_failed_message(error: Seq<char>) -> Seq<char> {
    "Failed to register hotkey: "@ + error
}

/// The error given when a new hotkey cannot be registered.
pub fn register_failed_text(error: &str) -> (s: String)
    ensures
        s@ == register_failed_message(error@),
{
    String::from_str("Failed to register hotkey: ").concat(error)
}

} // verus!
