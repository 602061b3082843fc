use blixt::modes::{Mode, VENT_POLISH_PROMPT};

#[test]
fn all_lists_every_mode_once_in_hotkey_order() {
    let all = Mode::all();
    assert_eq!(all.len(), 8);
    for (i, m) in all.iter().enumerate() {
        for (j, n) in all.iter().enumerate() {
            assert_eq!(i == j, m == n);
        }
        assert_eq!(m.default_hotkey(), format!("Ctrl+Shift+{}", i + 1));
    }
    assert_eq!(all[0], Mode::Dictate);
    assert_eq!(all[7], Mode::PromptDe);
}

#[test]
fn labels_and_hotkeys() {
    assert_eq!(Mode::Dictate.label(), "Diktat");
    assert_eq!(Mode::Vent.label(), "Entschaerfen");
    assert_eq!(Mode::Translate.label(), "Uebersetzen DE→EN");
    assert_eq!(Mode::TranslateEnDe.label(), "Uebersetzen EN→DE");
    assert_eq!(Mode::PromptDe.label(), "Prompt (DE)");
    assert_eq!(Mode::Improve.default_hotkey(), "Ctrl+Shift+2");
    assert_eq!(Mode::PromptDe.default_hotkey(), "Ctrl+Shift+8");
}

#[test]
fn processing_labels() {
    assert_eq!(Mode::Dictate.processing_label(), "Wird transkribiert ...");
    assert_eq!(Mode::Emoji.processing_label(), "Emojis werden eingefuegt ...");
    assert_eq!(Mode::Translate.processing_label(), Mode::TranslateEnDe.processing_label());
    assert_eq!(Mode::Prompt.processing_label(), "Prompt wird gebaut ...");
}

#[test]
fn only_dictate_skips_the_text_model() {
    for m in Mode::all() {
        assert_eq!(m.needs_chat(), m != Mode::Dictate);
        assert_eq!(m.needs_chat(), !m.system_prompt().is_empty());
    }
}

#[test]
fn temperatures_in_hundredths() {
    assert_eq!(Mode::Dictate.temperature(), 0);
    assert_eq!(Mode::Improve.temperature(), 30);
    assert_eq!(Mode::Vent.temperature(), 0);
    assert_eq!(Mode::Emoji.temperature(), 30);
    assert_eq!(Mode::Translate.temperature(), 0);
    assert_eq!(Mode::Prompt.temperature(), 20);
    assert_eq!(Mode::PromptDe.temperature(), 20);
}

#[test]
fn system_prompts() {
    assert_eq!(Mode::Dictate.system_prompt(), "");
    assert!(Mode::Improve.system_prompt().starts_with("Du bist ein Lektor und Schreibassistent."));
    assert!(Mode::Translate.system_prompt().starts_with("You translate German into English."));
    assert!(Mode::TranslateEnDe.system_prompt().starts_with("You translate English into German."));
    assert!(Mode::Prompt.system_prompt().contains("KOMPLETT AUF ENGLISCH"));
    assert!(Mode::PromptDe.system_prompt().contains("KOMPLETT AUF DEUTSCH"));
    assert!(VENT_POLISH_PROMPT.starts_with("Du bist ein Lektor."));
}
