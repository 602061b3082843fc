use blixt::provider::{
    api_error, api_error_from, audio_read_error, build_chat_request, chat_outcome,
    chat_reply_from, client_error, local_transcription_request, network_error,
    transcription_outcome, Provider, ReplyFields,
};

#[test]
fn provider_ids() {
    assert_eq!(Provider::from_id("openai"), Provider::OpenAi);
    assert_eq!(Provider::from_id("local"), Provider::Local);
    assert_eq!(Provider::from_id("groq"), Provider::Groq);
    assert_eq!(Provider::from_id(""), Provider::Groq);
    assert_eq!(Provider::from_id("OpenAI"), Provider::Groq);
}

#[test]
fn base_urls() {
    assert_eq!(Provider::Groq.base_url(), "https://api.groq.com/openai/v1");
    assert_eq!(Provider::OpenAi.base_url(), "https://api.openai.com/v1");
    assert_eq!(Provider::Local.base_url(), "http://127.0.0.1:11434/v1");
    assert!(!Provider::Local.base_url().contains("localhost"));
}

#[test]
fn cloud_transcription_request() {
    let q = Provider::Groq
        .transcription_request("gsk_1", "whisper-large-v3-turbo", Some(" de "))
        .unwrap();
    assert_eq!(q.url, "https://api.groq.com/openai/v1/audio/transcriptions");
    assert_eq!(q.authorization, "Bearer gsk_1");
    assert_eq!(q.model, "whisper-large-v3-turbo");
    assert_eq!(q.language, Some("de".to_string()));
    assert_eq!(q.file_field, "file");
    assert_eq!(q.file_name, "audio.wav");
    assert_eq!(q.file_mime, "audio/wav");
    assert_eq!(q.response_format, "text");
    let q = Provider::OpenAi.transcription_request("k", "whisper-1", Some("   ")).unwrap();
    assert_eq!(q.language, None);
    let q = Provider::OpenAi.transcription_request("k", "whisper-1", None).unwrap();
    assert_eq!(q.language, None);
}

#[test]
fn local_transcription_goes_elsewhere() {
    assert_eq!(
        Provider::Local.transcription_request("k", "m", None),
        Err("Interner Fehler: lokale Transkription muss ueber transcribe_local() laufen.".to_string())
    );
    let q = local_transcription_request("http://127.0.0.1:8765/v1", "small", Some("en"));
    assert_eq!(q.url, "http://127.0.0.1:8765/v1/audio/transcriptions");
    assert_eq!(q.authorization, "Bearer ");
    assert_eq!(q.language, Some("en".to_string()));
}

#[test]
fn chat_requests() {
    let q = Provider::OpenAi.chat_request("sys", "hallo", "sk", "gpt-4o-mini", 30);
    assert_eq!(q, build_chat_request("https://api.openai.com/v1", "sys", "hallo", "sk", "gpt-4o-mini", 30));
    assert_eq!(q.url, "https://api.openai.com/v1/chat/completions");
    assert_eq!(q.authorization, "Bearer sk");
    assert_eq!(q.content_type, "application/json");
    assert_eq!(q.messages.len(), 2);
    assert_eq!(q.messages[0].role, "system");
    assert_eq!(q.messages[1].role, "user");
    assert_eq!(q.messages[0].content, "sys");
    assert_eq!(q.messages[1].content, "hallo");
    assert_eq!(q.temperature, 30);
}

#[test]
fn connection_test() {
    assert_eq!(Provider::Local.connection_test("", "m"), None);
    let q = Provider::Groq.connection_test("gsk", "llama").unwrap();
    assert_eq!(q.messages[0].content, "Antworte mit: OK.");
    assert_eq!(q.messages[1].content, "hi");
    assert_eq!(q.temperature, 0);
    assert_eq!(q.url, "https://api.groq.com/openai/v1/chat/completions");
}

#[test]
fn api_errors_by_status() {
    assert_eq!(api_error("Transkription", 401, ""), "Transkription: API-Schluessel ungueltig. Bitte pruefen.");
    assert_eq!(api_error("Transkription", 413, ""), "Audiodatei zu gross.");
    assert_eq!(api_error("Textmodell", 429, ""), "Textmodell: Rate Limit erreicht. Kurz warten und erneut versuchen.");
    assert_eq!(api_error("Textmodell", 503, ""), "Textmodell ist gerade nicht erreichbar. Bitte erneut versuchen.");
    assert_eq!(api_error("Textmodell", 500, "oops"), "Textmodell-Fehler (HTTP 500)");
    assert_eq!(api_error("Textmodell", 404, "{\"error\":{\"message\":\"model not found\"}}"), "Textmodell-Fehler: model not found");
    assert_eq!(api_error("Textmodell", 400, "{\"error\":{\"message\":42}}"), "Textmodell-Fehler (HTTP 400)");
    assert_eq!(api_error("Textmodell", 401, "{\"error\":{\"message\":\"x\"}}"), "Textmodell: API-Schluessel ungueltig. Bitte pruefen.");
}

#[test]
fn api_error_from_parsed_reply() {
    let with_message = Ok(ReplyFields { error_message: Some("boom".to_string()), content: None });
    assert_eq!(api_error_from("X", 418, &with_message), "X-Fehler: boom");
    let unparsed: Result<ReplyFields, String> = Err("expected value".to_string());
    assert_eq!(api_error_from("X", 418, &unparsed), "X-Fehler (HTTP 418)");
    assert_eq!(api_error_from("X", 413, &with_message), "Audiodatei zu gross.");
}

#[test]
fn transcription_replies() {
    assert_eq!(transcription_outcome(200, "  Hallo Welt\n"), Ok("Hallo Welt".to_string()));
    assert_eq!(transcription_outcome(200, " \n "), Err("Transkription fehlgeschlagen - leere Antwort.".to_string()));
    assert_eq!(transcription_outcome(401, "Hallo"), Err("Transkription: API-Schluessel ungueltig. Bitte pruefen.".to_string()));
    assert_eq!(transcription_outcome(502, ""), Err("Transkription-Fehler (HTTP 502)".to_string()));
}

#[test]
fn chat_replies() {
    let body = "{\"choices\":[{\"message\":{\"role\":\"assistant\",\"content\":\"  Hallo!  \"}}]}";
    assert_eq!(chat_outcome(200, body), Ok("Hallo!".to_string()));
    assert_eq!(chat_outcome(200, "{\"choices\":[]}"), Err("Keine Antwort erhalten.".to_string()));
    assert_eq!(chat_outcome(200, "{\"choices\":[{\"message\":{\"content\":\"  \"}}]}"), Err("Keine Antwort erhalten.".to_string()));
    let parse = chat_outcome(200, "not json");
    assert!(parse.unwrap_err().starts_with("Antwort-Parsing: "));
    assert_eq!(chat_outcome(429, body), Err("Textmodell: Rate Limit erreicht. Kurz warten und erneut versuchen.".to_string()));
}

#[test]
fn chat_reply_from_parsed_fields() {
    assert_eq!(chat_reply_from(Ok(ReplyFields { error_message: None, content: Some(" ok ".to_string()) })), Ok("ok".to_string()));
    assert_eq!(chat_reply_from(Ok(ReplyFields { error_message: None, content: None })), Err("Keine Antwort erhalten.".to_string()));
    assert_eq!(chat_reply_from(Err("EOF".to_string())), Err("Antwort-Parsing: EOF".to_string()));
}

#[test]
fn failures_before_a_reply() {
    assert_eq!(network_error("dns error"), "Netzwerkfehler: dns error");
    assert_eq!(audio_read_error("not found"), "Audiodatei konnte nicht gelesen werden: not found");
    assert_eq!(client_error("tls"), "HTTP-Client-Fehler: tls");
}
