use brain_dump::recorder::TranscribeMode;
use brain_dump::settings::{Settings, StoredSettings};

fn nothing_stored() -> StoredSettings {
    StoredSettings {
        microphone: None,
        groq_api_key: None,
        recording_mode: None,
        hotkey_paste_only: None,
        hotkey_db_paste: None,
        language: None,
        supabase_url: None,
        supabase_anon_key: None,
        capture_context: None,
        whisper_model: None,
        vocabulary: None,
    }
}

#[test]
fn test_default_settings() {
    let settings = Settings::default();
    assert_eq!(settings.language, "fr");
    assert_eq!(settings.hotkey_paste_only, "CmdOrCtrl+Shift+Space");
    assert_eq!(settings.hotkey_db_paste, "CmdOrCtrl+Shift+V");
    assert!(settings.capture_context);
}

#[test]
fn default_settings_every_field() {
    let s = Settings::default();
    assert_eq!(s.microphone, "default");
    assert_eq!(s.groq_api_key, "");
    assert_eq!(s.recording_mode, "toggle");
    assert_eq!(s.supabase_url, "");
    assert_eq!(s.supabase_anon_key, "");
    assert_eq!(s.whisper_model, "whisper-large-v3-turbo");
    assert_eq!(s.vocabulary, "");
}

#[test]
fn empty_store_gives_defaults() {
    assert_eq!(Settings::from_stored(nothing_stored()), Settings::default());
}

#[test]
fn partial_store_keeps_present_fields() {
    let mut stored = nothing_stored();
    stored.microphone = Some("MyMic".to_string());
    stored.groq_api_key = Some("gsk_secret".to_string());
    stored.supabase_url = Some("https://x.supabase.co".to_string());
    stored.supabase_anon_key = Some("sb_publishable_xxx".to_string());
    stored.language = Some("en".to_string());
    let loaded = Settings::from_stored(stored);

    assert_eq!(loaded.microphone, "MyMic");
    assert_eq!(loaded.groq_api_key, "gsk_secret");
    assert_eq!(loaded.supabase_url, "https://x.supabase.co");
    assert_eq!(loaded.supabase_anon_key, "sb_publishable_xxx");
    assert_eq!(loaded.language, "en");

    assert_eq!(loaded.whisper_model, "whisper-large-v3-turbo");
    assert_eq!(loaded.vocabulary, "");
    assert_eq!(loaded.hotkey_paste_only, "CmdOrCtrl+Shift+Space");
    assert_eq!(loaded.hotkey_db_paste, "CmdOrCtrl+Shift+V");
    assert!(loaded.capture_context);
}

#[test]
fn stored_false_flag_is_kept() {
    let mut stored = nothing_stored();
    stored.capture_context = Some(false);
    stored.whisper_model = Some("whisper-large-v3".to_string());
    let loaded = Settings::from_stored(stored);
    assert!(!loaded.capture_context);
    assert_eq!(loaded.whisper_model, "whisper-large-v3");
    assert_eq!(loaded.microphone, "default");
}

#[test]
fn set_hotkey_changes_one_slot() {
    let mut s = Settings::default();
    s.set_hotkey(TranscribeMode::DbPaste, "Ctrl+Alt+N".to_string());
    assert_eq!(s.hotkey(TranscribeMode::DbPaste), "Ctrl+Alt+N");
    assert_eq!(s.hotkey(TranscribeMode::PasteOnly), "CmdOrCtrl+Shift+Space");
    s.set_hotkey(TranscribeMode::PasteOnly, "F9".to_string());
    assert_eq!(s.hotkey_paste_only, "F9");
    assert_eq!(s.hotkey_db_paste, "Ctrl+Alt+N");
    assert_eq!(s.language, "fr");
}

#[test]
fn saved_settings_load_back() {
    let mut s = Settings::default();
    s.language = "en".to_string();
    s.capture_context = false;
    s.vocabulary = "Tauri, Verus".to_string();
    let stored = s.to_stored();
    assert_eq!(stored.language, Some("en".to_string()));
    assert_eq!(stored.capture_context, Some(false));
    assert_eq!(Settings::from_stored(stored), s);
}

#[test]
fn nothing_read_gives_defaults() {
    assert_eq!(Settings::from_loaded(None), Settings::default());
}

#[test]
fn read_settings_are_completed() {
    let mut stored = nothing_stored();
    stored.language = Some("en".to_string());
    let loaded = Settings::from_loaded(Some(stored));
    assert_eq!(loaded.language, "en");
    assert_eq!(loaded.microphone, "default");
}
