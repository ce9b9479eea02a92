use brain_dump::settings::Settings;
use brain_dump::recorder::{
    busy_text, quota_exhausted_text, started_text, Recorder, RecordingState, ToggleAction,
    TranscribeMode,
};

#[test]
fn test_initial_state_is_ready() {
    let recorder = Recorder::new();
    assert_eq!(recorder.get_state(), RecordingState::Ready);
}

#[test]
fn test_mode_source_label() {
    assert_eq!(TranscribeMode::PasteOnly.source_label(), "desktop_paste_only");
    assert_eq!(TranscribeMode::DbPaste.source_label(), "desktop_db_paste");
}

#[test]
fn test_mode_save_to_db() {
    assert!(!TranscribeMode::PasteOnly.save_to_db());
    assert!(TranscribeMode::DbPaste.save_to_db());
}

#[test]
fn start_from_ready_records() {
    let mut recorder = Recorder::new();
    let mut called = false;
    let r = recorder.start_recording(|| {
        called = true;
        Ok(())
    });
    assert!(called);
    assert_eq!(r, Ok(()));
    assert_eq!(recorder.get_state(), RecordingState::Recording);
}

#[test]
fn failed_audio_start_stays_ready() {
    let mut recorder = Recorder::new();
    let r = recorder.start_recording(|| Err("no microphone".to_string()));
    assert_eq!(r, Err("no microphone".to_string()));
    assert_eq!(recorder.get_state(), RecordingState::Ready);
}

#[test]
fn start_while_recording_is_refused_without_touching_audio() {
    let mut recorder = Recorder::new();
    recorder.start_recording(|| Ok(())).unwrap();
    let mut called = false;
    let r = recorder.start_recording(|| {
        called = true;
        Ok(())
    });
    assert!(!called);
    assert_eq!(r, Err("Already recording or transcribing".to_string()));
    assert_eq!(recorder.get_state(), RecordingState::Recording);
}

#[test]
fn toggle_follows_state() {
    let mut recorder = Recorder::new();
    assert_eq!(recorder.toggle_action(), ToggleAction::StartRecording);
    recorder.start_recording(|| Ok(())).unwrap();
    assert_eq!(recorder.toggle_action(), ToggleAction::StopAndTranscribe);
    let _ = recorder.stop_and_transcribe(TranscribeMode::DbPaste, &Settings::default());
    assert_eq!(recorder.get_state(), RecordingState::Transcribing);
    assert_eq!(recorder.toggle_action(), ToggleAction::Busy);
}

#[test]
fn toggle_texts() {
    assert_eq!(busy_text(), "Currently transcribing, please wait");
    assert_eq!(started_text(), "recording");
}

#[test]
fn slots_name_modes() {
    assert_eq!(TranscribeMode::from_slot("paste_only"), Ok(TranscribeMode::PasteOnly));
    assert_eq!(TranscribeMode::from_slot("db_paste"), Ok(TranscribeMode::DbPaste));
    assert_eq!(TranscribeMode::from_slot("note"), Err("Unknown slot: note".to_string()));
    assert_eq!(TranscribeMode::from_slot(""), Err("Unknown slot: ".to_string()));
}

#[test]
fn quota_error_text() {
    assert_eq!(
        quota_exhausted_text(2000, 2000),
        "Groq free tier épuisé pour aujourd'hui (2000/2000). Reset à minuit UTC."
    );
    assert_eq!(
        quota_exhausted_text(0, 7),
        "Groq free tier épuisé pour aujourd'hui (0/7). Reset à minuit UTC."
    );
}
