use blixt::modes::{Mode, VENT_POLISH_PROMPT};
use blixt::pipeline::{plan, Command, Event, Notice, Pipeline, Step, Transcriber};
use blixt::settings::Settings;

fn status(s: &str) -> Notice {
    Notice::Status(s.to_string())
}

fn run(p: Pipeline, e: Event) -> (Pipeline, Step) {
    assert!(p.accepts(&e));
    p.step(e)
}

fn offline() -> Settings {
    let mut s = Settings::default();
    s.provider = "local".to_string();
    s.chat_provider = "local".to_string();
    s.local_stt_url = "http://localhost:8765/v1".to_string();
    s
}

#[test]
fn cloud_improve_run() {
    let s = Settings::default();
    let (p, st) = Pipeline::start(plan(&s, Mode::Improve), Some(42), 1500);
    assert_eq!(st.notices, vec![Notice::RecordingStopped]);
    assert_eq!(st.command, Command::SaveRecording);

    let (p, st) = run(p, Event::Saved(Ok(())));
    assert_eq!(st.notices, vec![status("Wird transkribiert ...")]);
    assert_eq!(st.command, Command::LookupKey("groq".to_string()));

    let (p, st) = run(p, Event::KeyLookedUp(Ok("gsk".to_string())));
    match st.command {
        Command::Transcribe(q) => {
            assert_eq!(q.url, "https://api.groq.com/openai/v1/audio/transcriptions");
            assert_eq!(q.authorization, "Bearer gsk");
            assert_eq!(q.model, "whisper-large-v3-turbo");
            assert_eq!(q.language, Some("de".to_string()));
        }
        c => panic!("unexpected {:?}", c),
    }

    let (p, st) = run(p, Event::Transcribed(Ok("hallo welt".to_string())));
    assert_eq!(st.command, Command::RemoveRecording);

    let (p, st) = run(p, Event::Removed);
    assert!(st.notices.is_empty());
    assert_eq!(st.command, Command::LookupKey("groq".to_string()));

    let (p, st) = run(p, Event::KeyLookedUp(Ok("gsk".to_string())));
    assert_eq!(st.notices, vec![status("Text wird verbessert ...")]);
    match st.command {
        Command::Chat(q) => {
            assert_eq!(q.url, "https://api.groq.com/openai/v1/chat/completions");
            assert_eq!(q.messages[0].content, Mode::Improve.system_prompt());
            assert_eq!(q.messages[1].content, "hallo welt");
            assert_eq!(q.model, "llama-3.3-70b-versatile");
            assert_eq!(q.temperature, 30);
        }
        c => panic!("unexpected {:?}", c),
    }

    let (p, st) = run(p, Event::Chatted(Ok("Hallo Welt.".to_string())));
    assert_eq!(st.command, Command::WriteClipboard("Hallo Welt.".to_string()));

    let (p, st) = run(p, Event::ClipboardWritten(Ok(())));
    assert_eq!(
        st.notices,
        vec![Notice::TranscriptionResult("Hallo Welt.".to_string()), status("Wird eingefuegt ...")]
    );
    assert_eq!(st.command, Command::Paste(Some(42)));

    let (p, st) = run(p, Event::Pasted(Ok(())));
    assert_eq!(st.command, Command::Finish(Ok(())));
    assert!(!p.accepts(&Event::Removed));
}

#[test]
fn short_recordings_are_dropped() {
    let (p, st) = Pipeline::start(plan(&Settings::default(), Mode::Dictate), None, 399);
    assert_eq!(
        st.notices,
        vec![Notice::RecordingStopped, Notice::ShowError("Keine Aufnahme erkannt.".to_string())]
    );
    assert_eq!(st.command, Command::Finish(Ok(())));
    assert!(!p.accepts(&Event::Saved(Ok(()))));
    let (_, st) = Pipeline::start(plan(&Settings::default(), Mode::Dictate), None, 400);
    assert_eq!(st.command, Command::SaveRecording);
}

#[test]
fn offline_run_needs_no_key() {
    let s = offline();
    let pl = plan(&s, Mode::Emoji);
    assert_eq!(pl.transcriber, Transcriber::Local { url: "http://127.0.0.1:8765/v1".to_string() });
    let (p, _) = Pipeline::start(pl, None, 2000);
    let (p, st) = run(p, Event::Saved(Ok(())));
    match st.command {
        Command::Transcribe(q) => {
            assert_eq!(q.url, "http://127.0.0.1:8765/v1/audio/transcriptions");
            assert_eq!(q.authorization, "Bearer ");
        }
        c => panic!("unexpected {:?}", c),
    }
    let (p, _) = run(p, Event::Transcribed(Ok("text".to_string())));
    let (p, st) = run(p, Event::Removed);
    assert_eq!(st.notices, vec![status("Emojis werden eingefuegt ...")]);
    match st.command {
        Command::Chat(q) => {
            assert_eq!(q.url, "http://127.0.0.1:11434/v1/chat/completions");
            assert_eq!(q.model, "qwen2.5:7b");
            assert_eq!(q.authorization, "Bearer ");
        }
        c => panic!("unexpected {:?}", c),
    }
    let (_, st) = run(p, Event::Chatted(Ok("text 😀".to_string())));
    assert_eq!(st.command, Command::WriteClipboard("text 😀".to_string()));
}

#[test]
fn dictation_skips_the_text_model_and_paste_can_be_off() {
    let mut s = offline();
    s.auto_paste_enabled = false;
    let (p, _) = Pipeline::start(plan(&s, Mode::Dictate), Some(7), 900);
    let (p, _) = run(p, Event::Saved(Ok(())));
    let (p, _) = run(p, Event::Transcribed(Ok("nur diktat".to_string())));
    let (p, st) = run(p, Event::Removed);
    assert_eq!(st.command, Command::WriteClipboard("nur diktat".to_string()));
    let (_, st) = run(p, Event::ClipboardWritten(Ok(())));
    assert_eq!(st.notices, vec![Notice::TranscriptionResult("nur diktat".to_string())]);
    assert_eq!(st.command, Command::Finish(Ok(())));
}

#[test]
fn english_to_german_transcribes_english() {
    assert_eq!(plan(&Settings::default(), Mode::TranslateEnDe).language, "en");
    assert_eq!(plan(&Settings::default(), Mode::Translate).language, "de");
}

#[test]
fn missing_transcription_key_removes_the_file_and_fails() {
    let (p, _) = Pipeline::start(plan(&Settings::default(), Mode::Dictate), None, 1000);
    let (p, _) = run(p, Event::Saved(Ok(())));
    let msg = "Kein API-Schluessel gespeichert.".to_string();
    let (p, st) = run(p, Event::KeyLookedUp(Err(msg.clone())));
    assert_eq!(st.command, Command::RemoveRecording);
    let (_, st) = run(p, Event::Removed);
    assert_eq!(st.notices, vec![Notice::ShowError(msg.clone())]);
    assert_eq!(st.command, Command::Finish(Err(msg)));
}

#[test]
fn failed_save_ends_the_run() {
    let (p, _) = Pipeline::start(plan(&Settings::default(), Mode::Dictate), None, 1000);
    let (_, st) = run(p, Event::Saved(Err("disk full".to_string())));
    assert!(st.notices.is_empty());
    assert_eq!(st.command, Command::Finish(Err("disk full".to_string())));
}

#[test]
fn blank_transcript_is_not_pasted() {
    let (p, _) = Pipeline::start(plan(&offline(), Mode::Improve), None, 1000);
    let (p, _) = run(p, Event::Saved(Ok(())));
    let (p, _) = run(p, Event::Transcribed(Ok("  \n".to_string())));
    let (_, st) = run(p, Event::Removed);
    assert_eq!(st.notices, vec![Notice::ShowError("Keine Aufnahme erkannt.".to_string())]);
    assert_eq!(st.command, Command::Finish(Ok(())));
}

#[test]
fn failed_text_model_falls_back_to_transcript() {
    let (p, _) = Pipeline::start(plan(&offline(), Mode::Improve), None, 1000);
    let (p, _) = run(p, Event::Saved(Ok(())));
    let (p, _) = run(p, Event::Transcribed(Ok("roh".to_string())));
    let (p, _) = run(p, Event::Removed);
    let (_, st) = run(p, Event::Chatted(Err("Netzwerkfehler".to_string())));
    assert_eq!(st.notices, vec![Notice::ShowError("Netzwerkfehler".to_string())]);
    assert_eq!(st.command, Command::WriteClipboard("roh".to_string()));
}

#[test]
fn local_transcription_and_no_groq_key_run_fully_offline() {
    let mut s = Settings::default();
    s.provider = "local".to_string();
    let (p, _) = Pipeline::start(plan(&s, Mode::Prompt), None, 1000);
    let (p, _) = run(p, Event::Saved(Ok(())));
    let (p, _) = run(p, Event::Transcribed(Ok("idee".to_string())));
    let (p, st) = run(p, Event::Removed);
    assert_eq!(st.command, Command::LookupKey("groq".to_string()));
    let (_, st) = run(p, Event::KeyLookedUp(Err("kein".to_string())));
    assert_eq!(st.notices, vec![status("Prompt wird gebaut ...")]);
    match st.command {
        Command::Chat(q) => {
            assert_eq!(q.url, "http://127.0.0.1:11434/v1/chat/completions");
            assert_eq!(q.authorization, "Bearer ");
            assert_eq!(q.temperature, 20);
        }
        c => panic!("unexpected {:?}", c),
    }
}

#[test]
fn vent_is_polished_in_a_second_pass() {
    let (p, _) = Pipeline::start(plan(&offline(), Mode::Vent), None, 1000);
    let (p, _) = run(p, Event::Saved(Ok(())));
    let (p, _) = run(p, Event::Transcribed(Ok("wut".to_string())));
    let (p, st) = run(p, Event::Removed);
    assert_eq!(st.notices, vec![status("Wird entschaerft ...")]);
    let (p, st) = run(p, Event::Chatted(Ok("ruhig".to_string())));
    assert_eq!(st.notices, vec![status("Wird sprachlich geglättet ...")]);
    match st.command {
        Command::Chat(q) => {
            assert_eq!(q.messages[0].content, VENT_POLISH_PROMPT);
            assert_eq!(q.messages[1].content, "ruhig");
            assert_eq!(q.temperature, 20);
        }
        c => panic!("unexpected {:?}", c),
    }
    let (_, st) = run(p, Event::Chatted(Ok("ganz ruhig".to_string())));
    assert_eq!(st.command, Command::WriteClipboard("ganz ruhig".to_string()));
}

#[test]
fn failed_polish_keeps_first_pass() {
    let (p, _) = Pipeline::start(plan(&offline(), Mode::Vent), None, 1000);
    let (p, _) = run(p, Event::Saved(Ok(())));
    let (p, _) = run(p, Event::Transcribed(Ok("wut".to_string())));
    let (p, _) = run(p, Event::Removed);
    let (p, _) = run(p, Event::Chatted(Ok("ruhig".to_string())));
    let (_, st) = run(p, Event::Chatted(Err("timeout".to_string())));
    assert!(st.notices.is_empty());
    assert_eq!(st.command, Command::WriteClipboard("ruhig".to_string()));
}

#[test]
fn clipboard_and_paste_failures() {
    let start = || {
        let (p, _) = Pipeline::start(plan(&offline(), Mode::Dictate), Some(3), 1000);
        let (p, _) = run(p, Event::Saved(Ok(())));
        let (p, _) = run(p, Event::Transcribed(Ok("t".to_string())));
        let (p, _) = run(p, Event::Removed);
        p
    };
    let (_, st) = run(start(), Event::ClipboardWritten(Err("busy".to_string())));
    assert_eq!(st.command, Command::Finish(Err("Clipboard-Fehler: busy".to_string())));

    let (p, _) = run(start(), Event::ClipboardWritten(Ok(())));
    let (_, st) = run(p, Event::Pasted(Err("UIPI".to_string())));
    assert_eq!(
        st.notices,
        vec![Notice::ShowError("Text ist in der Zwischenablage - bitte Strg+V druecken. (UIPI)".to_string())]
    );
    assert_eq!(st.command, Command::Finish(Ok(())));

    let (p, _) = run(start(), Event::ClipboardWritten(Ok(())));
    let (_, st) = run(p, Event::PasteAborted("join".to_string()));
    assert_eq!(st.command, Command::Finish(Err("join".to_string())));
}

#[test]
fn failed_transcription_is_reported() {
    let (p, _) = Pipeline::start(plan(&offline(), Mode::Dictate), None, 1000);
    let (p, _) = run(p, Event::Saved(Ok(())));
    let (p, st) = run(p, Event::Transcribed(Err("Netzwerkfehler".to_string())));
    assert_eq!(st.command, Command::RemoveRecording);
    let (_, st) = run(p, Event::Removed);
    assert_eq!(st.notices, vec![Notice::ShowError("Netzwerkfehler".to_string())]);
    assert_eq!(st.command, Command::Finish(Err("Netzwerkfehler".to_string())));
}

fn cloud_until_chat(mode: Mode, transcript: &str) -> Pipeline {
    let (p, _) = Pipeline::start(plan(&Settings::default(), mode), None, 1000);
    let (p, _) = run(p, Event::Saved(Ok(())));
    let (p, _) = run(p, Event::KeyLookedUp(Ok("gsk".to_string())));
    let (p, _) = run(p, Event::Transcribed(Ok(transcript.to_string())));
    p
}

#[test]
fn missing_groq_key_runs_the_text_model_locally() {
    let p = cloud_until_chat(Mode::Vent, "wut");
    let (p, st) = run(p, Event::Removed);
    assert_eq!(st.command, Command::LookupKey("groq".to_string()));
    let (p, st) = run(p, Event::KeyLookedUp(Err("Kein API-Schluessel gespeichert.".to_string())));
    assert_eq!(st.notices, vec![status("Wird entschaerft ...")]);
    match st.command {
        Command::Chat(q) => {
            assert_eq!(q.url, "http://127.0.0.1:11434/v1/chat/completions");
            assert_eq!(q.model, "qwen2.5:7b");
            assert_eq!(q.authorization, "Bearer ");
            assert_eq!(q.messages[1].content, "wut");
        }
        c => panic!("unexpected {:?}", c),
    }
    let (_, st) = run(p, Event::Chatted(Ok("ruhig".to_string())));
    match st.command {
        Command::Chat(q) => {
            assert_eq!(q.url, "http://127.0.0.1:11434/v1/chat/completions");
            assert_eq!(q.model, "qwen2.5:7b");
            assert_eq!(q.messages[0].content, VENT_POLISH_PROMPT);
        }
        c => panic!("unexpected {:?}", c),
    }
}

#[test]
fn missing_openai_key_keeps_the_cloud_request() {
    let mut s = Settings::default();
    s.chat_provider = "openai".to_string();
    s.chat_model = "gpt-4o-mini".to_string();
    let (p, _) = Pipeline::start(plan(&s, Mode::Improve), None, 1000);
    let (p, _) = run(p, Event::Saved(Ok(())));
    let (p, _) = run(p, Event::KeyLookedUp(Ok("gsk".to_string())));
    let (p, _) = run(p, Event::Transcribed(Ok("text".to_string())));
    let (p, _) = run(p, Event::Removed);
    let (_, st) = run(p, Event::KeyLookedUp(Err("kein".to_string())));
    assert_eq!(st.notices[0], Notice::ShowError("kein".to_string()));
    match st.command {
        Command::Chat(q) => assert_eq!(q.url, "https://api.openai.com/v1/chat/completions"),
        c => panic!("unexpected {:?}", c),
    }
}

#[test]
fn unreachable_groq_is_retried_locally() {
    let p = cloud_until_chat(Mode::Improve, "text");
    let (p, _) = run(p, Event::Removed);
    let (p, _) = run(p, Event::KeyLookedUp(Ok("gsk".to_string())));
    let (p, st) = run(p, Event::ChatUnreachable("Netzwerkfehler: offline".to_string()));
    assert!(st.notices.is_empty());
    match st.command {
        Command::Chat(q) => {
            assert_eq!(q.url, "http://127.0.0.1:11434/v1/chat/completions");
            assert_eq!(q.model, "qwen2.5:7b");
            assert_eq!(q.messages[1].content, "text");
        }
        c => panic!("unexpected {:?}", c),
    }
    let (_, st) = run(p, Event::Chatted(Ok("Text.".to_string())));
    assert_eq!(st.command, Command::WriteClipboard("Text.".to_string()));
}

#[test]
fn failed_local_retry_keeps_the_transcript() {
    let p = cloud_until_chat(Mode::Improve, "text");
    let (p, _) = run(p, Event::Removed);
    let (p, _) = run(p, Event::KeyLookedUp(Ok("gsk".to_string())));
    let (p, _) = run(p, Event::ChatUnreachable("offline".to_string()));
    let (_, st) = run(p, Event::ChatUnreachable("ollama down".to_string()));
    assert_eq!(st.notices, vec![Notice::ShowError("ollama down".to_string())]);
    assert_eq!(st.command, Command::WriteClipboard("text".to_string()));
}

#[test]
fn codeword_keeps_the_text_model_local() {
    let p = cloud_until_chat(Mode::Improve, "Vertraulich, das Gehalt steigt.");
    let (p, st) = run(p, Event::Removed);
    assert_eq!(st.notices, vec![status("Text wird verbessert ...")]);
    match st.command {
        Command::Chat(q) => {
            assert_eq!(q.url, "http://127.0.0.1:11434/v1/chat/completions");
            assert_eq!(q.model, "qwen2.5:7b");
            assert_eq!(q.authorization, "Bearer ");
            assert_eq!(q.messages[1].content, "das Gehalt steigt.");
        }
        c => panic!("unexpected {:?}", c),
    }
    let (_, st) = run(p, Event::Chatted(Ok("Das Gehalt steigt.".to_string())));
    assert_eq!(st.command, Command::WriteClipboard("Das Gehalt steigt.".to_string()));
}

#[test]
fn dictation_keeps_the_codeword() {
    let p = cloud_until_chat(Mode::Dictate, "  vertraulich: Termin am Montag");
    let (_, st) = run(p, Event::Removed);
    assert!(st.notices.is_empty());
    assert_eq!(st.command, Command::WriteClipboard("  vertraulich: Termin am Montag".to_string()));

    let p = cloud_until_chat(Mode::Dictate, "vertraulich");
    let (_, st) = run(p, Event::Removed);
    assert_eq!(st.command, Command::WriteClipboard("vertraulich".to_string()));
}

#[test]
fn codeword_alone_is_no_dictation() {
    let p = cloud_until_chat(Mode::Improve, "Vertraulich.");
    let (_, st) = run(p, Event::Removed);
    assert_eq!(st.notices, vec![Notice::ShowError("Keine Aufnahme erkannt.".to_string())]);
    assert_eq!(st.command, Command::Finish(Ok(())));
}

#[test]
fn longer_words_are_not_the_codeword() {
    let p = cloud_until_chat(Mode::Improve, "Vertraulichkeit ist wichtig");
    let (_, st) = run(p, Event::Removed);
    assert_eq!(st.command, Command::LookupKey("groq".to_string()));
}
