//! The user's settings, their defaults, and how stored settings are read:
//! every field missing from the stored file takes its default value, the
//! fields present are kept.

use vstd::prelude::*;
use crate::recorder::TranscribeMode;

verus! {

/// Name of the file, in the application's directory, that holds the settings.
pub const CONFIG_FILE_NAME: &'static str = "config.json";

/// The user's settings.
#[derive(Debug, PartialEq)]
pub struct Settings {
    /// Name of the input device (`"default"` for the system default).
    pub microphone: String,
    /// API key of the transcription service.
    pub groq_api_key: String,
    /// `"toggle"` or `"push-to-talk"`.
    pub recording_mode: String,
    /// Accelerator of the hotkey that transcribes and pastes only.
    pub hotkey_paste_only: String,
    /// Accelerator of the hotkey that transcribes, stores and pastes.
    pub hotkey_db_paste: String,
    /// Language of the transcription (`"fr"`, `"en"`, ...).
    pub language: String,
    /// URL of the notes database project.
    pub supabase_url: String,
    /// Anonymous key of the notes database project.
    pub supabase_anon_key: String,
    /// Whether the active application is recorded with a stored note.
    pub capture_context: bool,
    /// Transcription model.
    pub whisper_model: String,
    /// Words that the transcription should expect.
    pub vocabulary: String,
}

/// Settings as read from storage: a field is `None` when the file lacks it.
#[derive(Debug)]
pub struct StoredSettings {
    pub microphone: Option<String>,
    pub groq_api_key: Option<String>,
    pub recording_mode: Option<String>,
    pub hotkey_paste_only: Option<String>,
    pub hotkey_db_paste: Option<String>,
    pub language: Option<String>,
    pub supabase_url: Option<String>,
    pub supabase_anon_key: Option<String>,
    pub capture_context: Option<bool>,
    pub whisper_model: Option<String>,
    pub vocabulary: Option<String>,
}

/// Default value of `microphone`.
pub open spec fn default_microphone() -> Seq<char> {
    "default"@
}

/// Default value of `groq_api_key`.
pub open spec fn default_groq_api_key() -> Seq<char> {
    ""@
}

/// Default value of `recording_mode`.
pub open spec fn default_recording_mode() -> Seq<char> {
    "toggle"@
}

/// Default value of `hotkey_paste_only`.
pub open spec fn default_hotkey_paste_only() -> Seq<char> {
    "CmdOrCtrl+Shift+Space"@
}

/// Default value of `hotkey_db_paste`.
pub open spec fn default_hotkey_db_paste() -> Seq<char> {
    "CmdOrCtrl+Shift+V"@
}

/// Default value of `language`.
pub open spec fn default_language() -> Seq<char> {
    "fr"@
}

/// Default value of `supabase_url`.
pub open spec fn default_supabase_url() -> Seq<char> {
    ""@
}

/// Default value of `supabase_anon_key`.
pub open spec fn default_supabase_anon_key() -> Seq<char> {
    ""@
}

/// Default value of `whisper_model`.
pub open spec fn default_whisper_model() -> Seq<char> {
    "whisper-large-v3-turbo"@
}

/// Default value of `vocabulary`.
pub open spec fn default_vocabulary() -> Seq<char> {
    ""@
}

impl Settings {
    /// Every field holds its default value.
    pub open spec fn is_default(self) -> bool {
        &&& self.microphone@ == default_microphone()
        &&& self.groq_api_key@ == default_groq_api_key()
        &&& self.recording_mode@ == default_recording_mode()
        &&& self.hotkey_paste_only@ == default_hotkey_paste_only()
        &&& self.hotkey_db_paste@ == default_hotkey_db_paste()
        &&& self.language@ == default_language()
        &&& self.supabase_url@ == default_supabase_url()
        &&& self.supabase_anon_key@ == default_supabase_anon_key()
        &&& self.capture_context == true
        &&& self.whisper_model@ == default_whisper_model()
        &&& self.vocabulary@ == default_vocabulary()
    }

    /// These settings are what `stored` reads as: each stored field is kept,
    /// each missing one holds its default value.
    pub open spec fn loaded_from(self, stored: StoredSettings) -> bool {
        &&& stored.microphone matches Some(v) ==> self.microphone == v
        &&& stored.microphone is None ==> self.microphone@ == default_microphone()
        &&& stored.groq_api_key matches Some(v) ==> self.groq_api_key == v
        &&& stored.groq_api_key is None ==> self.groq_api_key@ == default_groq_api_key()
        &&& stored.recording_mode matches Some(v) ==> self.recording_mode == v
        &&& stored.recording_mode is None ==> self.recording_mode@ == default_recording_mode()
        &&& stored.hotkey_paste_only matches Some(v) ==> self.hotkey_paste_only == v
        &&& stored.hotkey_paste_only is None ==> self.hotkey_paste_only@ == default_hotkey_paste_only()
        &&& stored.hotkey_db_paste matches Some(v) ==> self.hotkey_db_paste == v
        &&& stored.hotkey_db_paste is None ==> self.hotkey_db_paste@ == default_hotkey_db_paste()
        &&& stored.language matches Some(v) ==> self.language == v
        &&& stored.language is None ==> self.language@ == default_language()
        &&& stored.supabase_url matches Some(v) ==> self.supabase_url == v
        &&& stored.supabase_url is None ==> self.supabase_url@ == default_supabase_url()
        &&& stored.supabase_anon_key matches Some(v) ==> self.supabase_anon_key == v
        &&& stored.supabase_anon_key is None ==> self.supabase_anon_key@ == default_supabase_anon_key()
        &&& stored.capture_context matches Some(v) ==> self.capture_context == v
        &&& stored.capture_context is None ==> self.capture_context == true
        &&& stored.whisper_model matches Some(v) ==> self.whisper_model == v
        &&& stored.whisper_model is None ==> self.whisper_model@ == default_whisper_model()
        &&& stored.vocabulary matches Some(v) ==> self.vocabulary == v
        &&& stored.vocabulary is None ==> self.vocabulary@ == default_vocabulary()
    }

    /// What saving these settings stores: every field.
    pub open spec fn stored_form(self) -> StoredSettings {
        StoredSettings {
            microphone: Some(self.microphone),
            groq_api_key: Some(self.groq_api_key),
            recording_mode: Some(self.recording_mode),
            hotkey_paste_only: Some(self.hotkey_paste_only),
            hotkey_db_paste: Some(self.hotkey_db_paste),
            language: Some(self.language),
            supabase_url: Some(self.supabase_url),
            supabase_anon_key: Some(self.supabase_anon_key),
            capture_context: Some(self.capture_context),
            whisper_model: Some(self.whisper_model),
            vocabulary: Some(self.vocabulary),
        }
    }

    /// What saving these settings stores: every field.
    pub fn to_stored(&self) -> (r: StoredSettings)
        ensures
            r == self.stored_form(),
    {
        let c = self.clone();
        StoredSettings {
            microphone: Some(c.microphone),
            groq_api_key: Some(c.groq_api_key),
            recording_mode: Some(c.recording_mode),
            hotkey_paste_only: Some(c.hotkey_paste_only),
            hotkey_db_paste: Some(c.hotkey_db_paste),
            language: Some(c.language),
            supabase_url: Some(c.supabase_url),
            supabase_anon_key: Some(c.supabase_anon_key),
            capture_context: Some(c.capture_context),
            whisper_model: Some(c.whisper_model),
            vocabulary: Some(c.vocabulary),
        }
    }

    /// The settings read from storage: each stored field is kept, each missing
    /// one takes its default value.
    pub fn from_stored(stored: StoredSettings) -> (r: Settings)
        ensures
            r.loaded_from(stored),
    {
        let defaults = Settings::default();
        Settings {
            microphone: match stored.microphone {
                Some(v) => v,
                None => defaults.microphone,
            },
            groq_api_key: match stored.groq_api_key {
                Some(v) => v,
                None => defaults.groq_api_key,
            },
            recording_mode: match stored.recording_mode {
                Some(v) => v,
                None => defaults.recording_mode,
            },
            hotkey_paste_only: match stored.hotkey_paste_only {
                Some(v) => v,
                None => defaults.hotkey_paste_only,
            },
            hotkey_db_paste: match stored.hotkey_db_paste {
                Some(v) => v,
                None => defaults.hotkey_db_paste,
            },
            language: match stored.language {
                Some(v) => v,
                None => defaults.language,
            },
            supabase_url: match stored.supabase_url {
                Some(v) => v,
                None => defaults.supabase_url,
            },
            supabase_anon_key: match stored.supabase_anon_key {
                Some(v) => v,
                None => defaults.supabase_anon_key,
            },
            capture_context: match stored.capture_context {
                Some(v) => v,
                None => defaults.capture_context,
            },
            whisper_model: match stored.whisper_model {
                Some(v) => v,
                None => defaults.whisper_model,
            },
            vocabulary: match stored.vocabulary {
                Some(v) => v,
                None => defaults.vocabulary,
            },
        }
    }

    /// The settings in force after reading storage (`None` when nothing could
    /// be read or parsed): the defaults when nothing was read, else the stored
    /// fields completed with defaults.
    pub fn from_loaded(stored: Option<StoredSettings>) -> (r: Settings)
        ensures
            stored is None ==> r.is_default(),
            stored matches Some(st) ==> r.loaded_from(st),
    {
        match stored {
            Some(st) => Settings::from_stored(st),
            None => Settings::default(),
        }
    }

    /// The accelerator of the hotkey of a mode.
    pub open spec fn hotkey_of(self, mode: TranscribeMode) -> String {
        match mode {
            TranscribeMode::PasteOnly => self.hotkey_paste_only,
            TranscribeMode::DbPaste => self.hotkey_db_paste,
        }
    }

    /// The accelerator of the hotkey of a mode.
    pub fn hotkey(&self, mode: TranscribeMode) -> (s: String)
        ensures
            s == self.hotkey_of(mode),
    {
        match mode {
            TranscribeMode::PasteOnly => self.hotkey_paste_only.clone(),
            TranscribeMode::DbPaste => self.hotkey_db_paste.clone(),
        }
    }

    /// Assigns the hotkey of a mode; the other mode's hotkey and every other
    /// field are left as they are.
    pub fn set_hotkey(&mut self, mode: TranscribeMode, accelerator: String)
        ensures
            final(self).hotkey_of(mode) == accelerator,
            *final(self) == (match mode {
                TranscribeMode::PasteOnly => Settings { hotkey_paste_only: accelerator, ..*old(self) },
                TranscribeMode::DbPaste => Settings { hotkey_db_paste: accelerator, ..*old(self) },
            }),
    {
        match mode {
            TranscribeMode::PasteOnly => self.hotkey_paste_only = accelerator,
            TranscribeMode::DbPaste => self.hotkey_db_paste = accelerator,
        }
    }
}

impl Clone for Settings {
    fn clone(&self) -> (r: Self)
        ensures
            r == *self,
    {
        Settings {
            microphone: self.microphone.clone(),
            groq_api_key: self.groq_api_key.clone(),
            recording_mode: self.recording_mode.clone(),
            hotkey_paste_only: self.hotkey_paste_only.clone(),
            hotkey_db_paste: self.hotkey_db_paste.clone(),
            language: self.language.clone(),
            supabase_url: self.supabase_url.clone(),
            supabase_anon_key: self.supabase_anon_key.clone(),
            capture_context: self.capture_context,
            whisper_model: self.whisper_model.clone(),
            vocabulary: self.vocabulary.clone(),
        }
    }
}

impl Default for Settings {
    /// The settings of a first launch.
    fn default() -> (r: Self)
        ensures
            r.is_default(),
    {
        Settings {
            microphone: String::from_str("default"),
            groq_api_key: String::from_str(""),
            recording_mode: String::from_str("toggle"),
            hotkey_paste_only: String::from_str("CmdOrCtrl+Shift+Space"),
            hotkey_db_paste: String::from_str("CmdOrCtrl+Shift+V"),
            language: String::from_str("fr"),
            supabase_url: String::from_str(""),
            supabase_anon_key: String::from_str(""),
            capture_context: true,
            whisper_model: String::from_str("whisper-large-v3-turbo"),
            vocabulary: String::from_str(""),
        }
    }
}

/// Saved settings load back unchanged: reading what saving stores gives the
/// same settings.
pub proof fn lemma_saved_settings_load_back(saved: Settings, loaded: Settings)
    requires
        loaded.loaded_from(saved.stored_form()),
    ensures
        loaded == saved,
{
}

/// With nothing stored (a missing file), the settings are the defaults.
pub proof fn lemma_nothing_stored_gives_defaults(stored: StoredSettings, loaded: Settings)
    requires
        stored.microphone is None,
        stored.groq_api_key is None,
        stored.recording_mode is None,
        stored.hotkey_paste_only is None,
        stored.hotkey_db_paste is None,
        stored.language is None,
        stored.supabase_url is None,
        stored.supabase_anon_key is None,
        stored.capture_context is None,
        stored.whisper_model is None,
        stored.vocabulary is None,
        loaded.loaded_from(stored),
    ensures
        loaded.is_default(),
{
}

} // verus!
