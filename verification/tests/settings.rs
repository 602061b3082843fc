use blixt::settings::{
    api_key_display, default_groq, default_local_chat_model, default_local_stt_url, default_true,
    has_api_key, prepare_api_key, settings_or_default, Settings,
};

#[test]
fn defaults() {
    let s = Settings::default();
    assert_eq!(s.provider, "groq");
    assert_eq!(s.transcription_model, "whisper-large-v3-turbo");
    assert_eq!(s.chat_model, "llama-3.3-70b-versatile");
    assert_eq!(s.language, "de");
    assert_eq!(s.hotkey_mode, "toggle");
    assert!(s.auto_paste_enabled);
    assert_eq!(s.chat_provider, "groq");
    assert_eq!(s.local_chat_model, "qwen2.5:7b");
    assert_eq!(s.local_stt_url, "http://127.0.0.1:8765/v1");
}

#[test]
fn field_defaults() {
    assert!(default_true());
    assert_eq!(default_groq(), "groq");
    assert_eq!(default_local_chat_model(), "qwen2.5:7b");
    assert_eq!(default_local_stt_url(), "http://127.0.0.1:8765/v1");
}

#[test]
fn stored_settings_win_over_defaults() {
    let mut s = Settings::default();
    s.provider = "local".to_string();
    let kept = settings_or_default(Some(s));
    assert_eq!(kept.provider, "local");
    assert_eq!(settings_or_default(None), Settings::default());
}

#[test]
fn key_display_masks_the_key() {
    assert_eq!(api_key_display(&Ok("gsk_1234567890".to_string())), "gsk_ ••••••••");
    assert_eq!(api_key_display(&Ok("12345678".to_string())), "••••••••");
    assert_eq!(api_key_display(&Ok(String::new())), "••••••••");
    assert_eq!(api_key_display(&Err("Kein API-Schluessel gespeichert.".to_string())), "");
    assert_eq!(api_key_display(&Ok("ää12345".to_string())), "ää ••••••••");
}

#[test]
fn has_key_iff_something_is_shown() {
    for stored in [Ok("abc".to_string()), Ok(String::new()), Err("x".to_string())] {
        assert_eq!(has_api_key(&stored), !api_key_display(&stored).is_empty());
    }
}

#[test]
fn pasted_keys_are_trimmed() {
    assert_eq!(prepare_api_key("  gsk_abc \n"), Ok("gsk_abc".to_string()));
    assert_eq!(prepare_api_key("   "), Err("Bitte einen API-Schluessel eingeben.".to_string()));
    assert_eq!(prepare_api_key(""), Err("Bitte einen API-Schluessel eingeben.".to_string()));
}
