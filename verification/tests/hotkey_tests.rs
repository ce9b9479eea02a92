use brain_dump::hotkey::{hotkey_intent, register_failed_text, HotkeyAction, HotkeyIntent};
use brain_dump::recorder::RecordingState;

#[test]
fn toggle_mode_toggles_on_press_only() {
    assert_eq!(hotkey_intent("toggle", true), HotkeyIntent::Toggle);
    assert_eq!(hotkey_intent("toggle", false), HotkeyIntent::Ignore);
}

#[test]
fn push_to_talk_starts_on_press_and_stops_on_release() {
    assert_eq!(hotkey_intent("push-to-talk", true), HotkeyIntent::StartIfReady);
    assert_eq!(hotkey_intent("push-to-talk", false), HotkeyIntent::StopIfRecording);
}

#[test]
fn unknown_mode_ignores_keys() {
    assert_eq!(hotkey_intent("hold", true), HotkeyIntent::Ignore);
    assert_eq!(hotkey_intent("hold", false), HotkeyIntent::Ignore);
}

#[test]
fn intents_depend_on_state() {
    assert_eq!(HotkeyIntent::Toggle.action_in(RecordingState::Transcribing), HotkeyAction::Toggle);
    assert_eq!(HotkeyIntent::StartIfReady.action_in(RecordingState::Ready), HotkeyAction::Start);
    assert_eq!(HotkeyIntent::StartIfReady.action_in(RecordingState::Recording), HotkeyAction::Nothing);
    assert_eq!(HotkeyIntent::StopIfRecording.action_in(RecordingState::Recording), HotkeyAction::Stop);
    assert_eq!(HotkeyIntent::StopIfRecording.action_in(RecordingState::Ready), HotkeyAction::Nothing);
    assert_eq!(HotkeyIntent::Ignore.action_in(RecordingState::Ready), HotkeyAction::Nothing);
}

#[test]
fn register_failure_text() {
    assert_eq!(register_failed_text("bad accelerator"), "Failed to register hotkey: bad accelerator");
}
