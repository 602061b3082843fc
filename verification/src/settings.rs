//! The user's settings and the rules around the stored API keys.

use vstd::prelude::*;
use vstd::string::*;
use vstd::utf8::*;

use crate::text::{trim, trimmed};

verus! {

/// The settings as the settings window edits them.
#[derive(Debug, PartialEq, Eq)]
pub struct Settings {
    /// Transcription provider: `groq`, `openai` or `local`.
    pub provider: String,
    pub transcription_model: String,
    /// Cloud text model.
    pub chat_model: String,
    pub language: String,
    /// `toggle` (or `hold`).
    pub hotkey_mode: String,
    pub auto_paste_enabled: bool,
    /// Text-model provider, chosen apart from the transcription provider.
    pub chat_provider: String,
    /// The model of the local text-model server.
    pub local_chat_model: String,
    /// The local, OpenAI-compatible whisper server.
    pub local_stt_url: String,
}

pub struct SettingsView {
    pub provider: Seq<char>,
    pub transcription_model: Seq<char>,
    pub chat_model: Seq<char>,
    pub language: Seq<char>,
    pub hotkey_mode: Seq<char>,
    pub auto_paste_enabled: bool,
    pub chat_provider: Seq<char>,
    pub local_chat_model: Seq<char>,
    pub local_stt_url: Seq<char>,
}

impl View for Settings {
    type V = SettingsView;

    open spec fn view(&self) -> SettingsView {
        SettingsView {
            provider: self.provider@,
            transcription_model: self.transcription_model@,
            chat_model: self.chat_model@,
            language: self.language@,
            hotkey_mode: self.hotkey_mode@,
            auto_paste_enabled: self.auto_paste_enabled,
            chat_provider: self.chat_provider@,
            local_chat_model: self.local_chat_model@,
            local_stt_url: self.local_stt_url@,
        }
    }
}

/// The settings on first start: Groq for both steps, the local servers
/// prepared for offline use.
pub open spec fn default_settings() -> SettingsView {
    SettingsView {
        provider: "groq"@,
        transcription_model: "whisper-large-v3-turbo"@,
        chat_model: "llama-3.3-70b-versatile"@,
        language: "de"@,
        hotkey_mode: "toggle"@,
        auto_paste_enabled: true,
        chat_provider: "groq"@,
        local_chat_model: "qwen2.5:7b"@,
        local_stt_url: "http://127.0.0.1:8765/v1"@,
    }
}

/// The value a stored record without `autoPasteEnabled` gets.
pub fn default_true() -> (b: bool)
    ensures
        b,
{
    true
}

/// The value a stored record without `chatProvider` gets.
pub fn default_groq() -> (s: String)
    ensures
        s@ == "groq"@,
{
    String::from_str("groq")
}

/// The value a stored record without `localChatModel` gets.
pub fn default_local_chat_model() -> (s: String)
    ensures
        s@ == "qwen2.5:7b"@,
{
    String::from_str("qwen2.5:7b")
}

/// The value a stored record without `localSttUrl` gets.
pub fn default_local_stt_url() -> (s: String)
    ensures
        s@ == "http://127.0.0.1:8765/v1"@,
{
    String::from_str("http://127.0.0.1:8765/v1")
}

impl Default for Settings {
    fn default() -> (s: Settings)
        ensures
            s@ == default_settings(),
    {
        Settings {
            provider: String::from_str("groq"),
            transcription_model: String::from_str("whisper-large-v3-turbo"),
            chat_model: String::from_str("llama-3.3-70b-versatile"),
            language: String::from_str("de"),
            hotkey_mode: String::from_str("toggle"),
            auto_paste_enabled: default_true(),
            chat_provider: default_groq(),
            local_chat_model: default_local_chat_model(),
            local_stt_url: default_local_stt_url(),
        }
    }
}

/// The stored settings, or the defaults where none could be read.
pub fn settings_or_default(stored: Option<Settings>) -> (s: Settings)
    ensures
        s@ == match stored {
            Some(t) => t@,
            None => default_settings(),
        },
{
    match stored {
        Some(t) => t,
        None => Settings::default(),
    }
}

// ── API keys ────────────────────────────────────────────────────────────────

/// The error of a key lookup that found no stored key.
pub const NO_API_KEY: &'static str = "Kein API-Schluessel gespeichert.";

pub open spec fn lookup_view(stored: Result<String, String>) -> Result<Seq<char>, Seq<char>> {
    match stored {
        Ok(k) => Ok(k@),
        Err(e) => Err(e@),
    }
}

/// Whether a key lookup found a key.
pub fn has_api_key(stored: &Result<String, String>) -> (r: bool)
    ensures
        r == stored is Ok,
{
    stored.is_ok()
}

/// A key that can be shown: its UTF-8 bytes must be cut after the fourth byte
/// when it is longer than eight bytes.
pub open spec fn displayable(stored: Result<Seq<char>, Seq<char>>) -> bool {
    match stored {
        Ok(k) => encode_utf8(k).len() > 8 ==> is_char_boundary(encode_utf8(k), 4),
        Err(_) => true,
    }
}

/// What the settings window shows of a stored key: its first four bytes and
/// a mask when it is longer than eight bytes, the mask alone otherwise, and
/// nothing when no key is stored.
pub open spec fn key_display(stored: Result<Seq<char>, Seq<char>>) -> Seq<char> {
    match stored {
        Ok(k) => if encode_utf8(k).len() > 8 {
            decode_utf8(encode_utf8(k).take(4)) + " ••••••••"@
        } else {
            "••••••••"@
        },
        Err(_) => Seq::empty(),
    }
}

pub fn api_key_display(stored: &Result<String, String>) -> (d: String)
    requires
        displayable(lookup_view(*stored)),
    ensures
        d@ == key_display(lookup_view(*stored)),
{
    match stored {
        Ok(k) => {
            let s = k.as_str();
            if s.as_bytes().len() > 8 {
                let (head, _) = s.split_at(4);
                proof {
                    encode_utf8_decode_utf8(head@);
                    assert(s@ == k@);
                    assert(head.spec_bytes() =~= encode_utf8(k@).take(4));
                }
                let mut d = String::from_str(head);
                d.append(" ••••••••");
                d
            } else {
                String::from_str("••••••••")
            }
        },
        Err(_) => String::new(),
    }
}

/// A key as the user pasted it, without surrounding white space; an error
/// when nothing remains.
pub open spec fn prepared_key(key: Seq<char>) -> Result<Seq<char>, Seq<char>> {
    if trimmed(key).len() == 0 {
        Err("Bitte einen API-Schluessel eingeben."@)
    } else {
        Ok(trimmed(key))
    }
}

pub fn prepare_api_key(key: &str) -> (r: Result<String, String>)
    ensures
        lookup_view(r) == prepared_key(key@),
{
    let k = trim(key);
    if k.as_str().is_empty() {
        Err(String::from_str("Bitte einen API-Schluessel eingeben."))
    } else {
        Ok(k)
    }
}

/// A key is reported as stored exactly when something of it is shown.
pub proof fn lemma_has_key_iff_shown(stored: Result<Seq<char>, Seq<char>>)
    ensures
        (stored is Ok) <==> key_display(stored).len() > 0,
{
    reveal_strlit(" ••••••••");
    reveal_strlit("••••••••");
}

} // verus!
