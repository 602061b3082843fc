//! The provider layer: Groq, OpenAI and the local servers all speak the same
//! OpenAI-compatible API, so a provider is a base URL plus the rules for
//! building requests and reading replies.

use vstd::prelude::*;
use vstd::string::*;

use crate::text::{decimal, decimal_string, str_equal, trim, trimmed};

verus! {

/// A speech-to-text / text-model provider.
#[derive(Clone, Copy, Debug, PartialEq, Eq, Structural)]
pub enum Provider {
    Groq,
    OpenAi,
    Local,
}

/// The provider that a settings id selects; every unknown id selects Groq.
pub open spec fn provider_of_id(id: Seq<char>) -> Provider {
    if id == "openai"@ {
        Provider::OpenAi
    } else if id == "local"@ {
        Provider::Local
    } else {
        Provider::Groq
    }
}

/// The base URL of each provider's OpenAI-compatible API.
pub open spec fn base_url_of(p: Provider) -> Seq<char> {
    match p {
        Provider::Groq => "https://api.groq.com/openai/v1"@,
        Provider::OpenAi => "https://api.openai.com/v1"@,
        Provider::Local => "http://127.0.0.1:11434/v1"@,
    }
}

impl Provider {
    pub fn from_id(s: &str) -> (p: Provider)
        ensures
            p == provider_of_id(s@),
    {
        if str_equal(s, "openai") {
            Provider::OpenAi
        } else if str_equal(s, "local") {
            Provider::Local
        } else {
            Provider::Groq
        }
    }

    /// The local text model is Ollama on the fixed IPv4 loopback (not
    /// `localhost`, which may resolve to `::1` and fail offline).
    pub fn base_url(&self) -> (u: &'static str)
        ensures
            u@ == base_url_of(*self),
    {
        match self {
            Provider::Groq => "https://api.groq.com/openai/v1",
            Provider::OpenAi => "https://api.openai.com/v1",
            Provider::Local => "http://127.0.0.1:11434/v1",
        }
    }

    /// The transcription request for a cloud provider. The local whisper
    /// server is reached through [`local_transcription_request`] instead, as
    /// only the settings know its URL.
    pub fn transcription_request(
        &self,
        api_key: &str,
        model: &str,
        language: Option<&str>,
    ) -> (r: Result<TranscriptionRequest, String>)
        ensures
            *self == Provider::Local ==> (r matches Err(e) && e@ == local_transcription_misuse()),
            *self != Provider::Local ==> (r matches Ok(q) && q.view() == transcription_request_of(
                base_url_of(*self),
                api_key@,
                model@,
                opt_str_view(language),
            )),
    {
        if matches!(self, Provider::Local) {
            return Err(
                String::from_str(
                    "Interner Fehler: lokale Transkription muss ueber transcribe_local() laufen.",
                ),
            );
        }
        Ok(build_transcription_request(self.base_url(), api_key, model, language))
    }

    /// The chat-completion request for this provider.
    pub fn chat_request(
        &self,
        system_prompt: &str,
        user_text: &str,
        api_key: &str,
        model: &str,
        temperature: u32,
    ) -> (r: ChatRequest)
        ensures
            r.view() == chat_request_of(
                base_url_of(*self),
                system_prompt@,
                user_text@,
                api_key@,
                model@,
                temperature,
            ),
    {
        build_chat_request(self.base_url(), system_prompt, user_text, api_key, model, temperature)
    }

    /// The request that checks the connection: a short chat for the cloud
    /// providers, nothing for the local one (it needs no key).
    pub fn connection_test(&self, api_key: &str, chat_model: &str) -> (r: Option<ChatRequest>)
        ensures
            *self == Provider::Local ==> r is None,
            *self != Provider::Local ==> (r matches Some(q) && q.view() == chat_request_of(
                base_url_of(*self),
                "Antworte mit: OK."@,
                "hi"@,
                api_key@,
                chat_model@,
                0,
            )),
    {
        if matches!(self, Provider::Local) {
            None
        } else {
            Some(self.chat_request("Antworte mit: OK.", "hi", api_key, chat_model, 0))
        }
    }
}

pub open spec fn local_transcription_misuse() -> Seq<char> {
    "Interner Fehler: lokale Transkription muss ueber transcribe_local() laufen."@
}

pub open spec fn opt_str_view(o: Option<&str>) -> Option<Seq<char>> {
    match o {
        Some(s) => Some(s@),
        None => None,
    }
}

pub open spec fn opt_string_view(o: Option<String>) -> Option<Seq<char>> {
    match o {
        Some(s) => Some(s@),
        None => None,
    }
}

// ── Requests ────────────────────────────────────────────────────────────────

/// A multipart transcription request: the audio file is sent as the part
/// `file_field`, named `file_name` and typed `file_mime`, beside the text
/// fields `model`, `response_format` and, where given, `language`.
#[derive(Debug, PartialEq, Eq)]
pub struct TranscriptionRequest {
    pub url: String,
    pub authorization: String,
    pub file_field: String,
    pub file_name: String,
    pub file_mime: String,
    pub model: String,
    pub response_format: String,
    pub language: Option<String>,
}

pub struct TranscriptionRequestView {
    pub url: Seq<char>,
    pub authorization: Seq<char>,
    pub file_field: Seq<char>,
    pub file_name: Seq<char>,
    pub file_mime: Seq<char>,
    pub model: Seq<char>,
    pub response_format: Seq<char>,
    pub language: Option<Seq<char>>,
}

impl TranscriptionRequest {
    pub open spec fn view(&self) -> TranscriptionRequestView {
        TranscriptionRequestView {
            url: self.url@,
            authorization: self.authorization@,
            file_field: self.file_field@,
            file_name: self.file_name@,
            file_mime: self.file_mime@,
            model: self.model@,
            response_format: self.response_format@,
            language: opt_string_view(self.language),
        }
    }
}

/// The `Authorization` header value for a key.
pub open spec fn bearer(api_key: Seq<char>) -> Seq<char> {
    "Bearer "@ + api_key
}

/// The language field: the setting without surrounding white space, left out
/// when nothing remains.
pub open spec fn language_field(language: Option<Seq<char>>) -> Option<Seq<char>> {
    match language {
        Some(l) => if trimmed(l).len() == 0 {
            None
        } else {
            Some(trimmed(l))
        },
        None => None,
    }
}

pub open spec fn transcription_request_of(
    base_url: Seq<char>,
    api_key: Seq<char>,
    model: Seq<char>,
    language: Option<Seq<char>>,
) -> TranscriptionRequestView {
    TranscriptionRequestView {
        url: base_url + "/audio/transcriptions"@,
        authorization: bearer(api_key),
        file_field: "file"@,
        file_name: "audio.wav"@,
        file_mime: "audio/wav"@,
        model: model,
        response_format: "text"@,
        language: language_field(language),
    }
}

fn bearer_header(api_key: &str) -> (h: String)
    ensures
        h@ == bearer(api_key@),
{
    let mut h = String::from_str("Bearer ");
    h.append(api_key);
    h
}

pub fn build_transcription_request(
    base_url: &str,
    api_key: &str,
    model: &str,
    language: Option<&str>,
) -> (r: TranscriptionRequest)
    ensures
        r.view() == transcription_request_of(base_url@, api_key@, model@, opt_str_view(language)),
{
    let mut url = String::from_str(base_url);
    url.append("/audio/transcriptions");
    let lang = match language {
        Some(l) => {
            let t = trim(l);
            if t.as_str().is_empty() {
                None
            } else {
                Some(t)
            }
        },
        None => None,
    };
    TranscriptionRequest {
        url,
        authorization: bearer_header(api_key),
        file_field: String::from_str("file"),
        file_name: String::from_str("audio.wav"),
        file_mime: String::from_str("audio/wav"),
        model: String::from_str(model),
        response_format: String::from_str("text"),
        language: lang,
    }
}

/// Transcription through the local, OpenAI-compatible whisper server: no key.
pub fn local_transcription_request(base_url: &str, model: &str, language: Option<&str>) -> (r:
    TranscriptionRequest)
    ensures
        r.view() == transcription_request_of(base_url@, ""@, model@, opt_str_view(language)),
{
    build_transcription_request(base_url, "", model, language)
}

/// One message of a chat: its role and its content.
#[derive(Debug, PartialEq, Eq)]
pub struct ChatMessage {
    pub role: String,
    pub content: String,
}

/// A chat-completion request, sent as a JSON body
/// `{"model", "messages": [{"role", "content"}, ...], "temperature"}` with the
/// header `Content-Type: content_type`. The temperature is given in
/// hundredths.
#[derive(Debug, PartialEq, Eq)]
pub struct ChatRequest {
    pub url: String,
    pub authorization: String,
    pub content_type: String,
    pub model: String,
    pub messages: Vec<ChatMessage>,
    pub temperature: u32,
}

pub struct ChatRequestView {
    pub url: Seq<char>,
    pub authorization: Seq<char>,
    pub content_type: Seq<char>,
    pub model: Seq<char>,
    /// Role and content of each message, in order.
    pub messages: Seq<(Seq<char>, Seq<char>)>,
    pub temperature: u32,
}

impl ChatRequest {
    pub open spec fn view(&self) -> ChatRequestView {
        ChatRequestView {
            url: self.url@,
            authorization: self.authorization@,
            content_type: self.content_type@,
            model: self.model@,
            messages: self.messages@.map_values(|m: ChatMessage| (m.role@, m.content@)),
            temperature: self.temperature,
        }
    }
}

/// A system message with the prompt, then a user message with the text.
pub open spec fn chat_request_of(
    base_url: Seq<char>,
    system_prompt: Seq<char>,
    user_text: Seq<char>,
    api_key: Seq<char>,
    model: Seq<char>,
    temperature: u32,
) -> ChatRequestView {
    ChatRequestView {
        url: base_url + "/chat/completions"@,
        authorization: bearer(api_key),
        content_type: "application/json"@,
        model: model,
        messages: seq![("system"@, system_prompt), ("user"@, user_text)],
        temperature: temperature,
    }
}

pub fn build_chat_request(
    base_url: &str,
    system_prompt: &str,
    user_text: &str,
    api_key: &str,
    model: &str,
    temperature: u32,
) -> (r: ChatRequest)
    ensures
        r.view() == chat_request_of(
            base_url@,
            system_prompt@,
            user_text@,
            api_key@,
            model@,
            temperature,
        ),
{
    let mut url = String::from_str(base_url);
    url.append("/chat/completions");
    let mut messages = Vec::new();
    messages.push(
        ChatMessage {
            role: String::from_str("system"),
            content: String::from_str(system_prompt),
        },
    );
    messages.push(
        ChatMessage { role: String::from_str("user"), content: String::from_str(user_text) },
    );
    let r = ChatRequest {
        url,
        authorization: bearer_header(api_key),
        content_type: String::from_str("application/json"),
        model: String::from_str(model),
        messages,
        temperature,
    };
    assert(r.view().messages =~= seq![("system"@, system_prompt@), ("user"@, user_text@)]);
    r
}

// ── Failures before a reply ─────────────────────────────────────────────────

/// The error when the HTTP client cannot be set up.
pub fn client_error(detail: &str) -> (m: String)
    ensures
        m@ == "HTTP-Client-Fehler: "@ + detail@,
{
    let mut m = String::from_str("HTTP-Client-Fehler: ");
    m.append(detail);
    m
}

/// The error when the recorded audio file cannot be read.
pub fn audio_read_error(detail: &str) -> (m: String)
    ensures
        m@ == "Audiodatei konnte nicht gelesen werden: "@ + detail@,
{
    let mut m = String::from_str("Audiodatei konnte nicht gelesen werden: ");
    m.append(detail);
    m
}

/// The error when a request cannot be sent.
pub fn network_error(detail: &str) -> (m: String)
    ensures
        m@ == "Netzwerkfehler: "@ + detail@,
{
    let mut m = String::from_str("Netzwerkfehler: ");
    m.append(detail);
    m
}

// ── Replies ─────────────────────────────────────────────────────────────────

/// What a reply body holds as JSON: the string at `error.message` and the
/// string at `choices[0].message.content`, each where present.
#[derive(Debug, PartialEq, Eq)]
pub struct ReplyFields {
    pub error_message: Option<String>,
    pub content: Option<String>,
}

pub open spec fn reply_view(r: Result<ReplyFields, String>) -> Result<
    (Option<Seq<char>>, Option<Seq<char>>),
    Seq<char>,
> {
    match r {
        Ok(f) => Ok((opt_string_view(f.error_message), opt_string_view(f.content))),
        Err(e) => Err(e@),
    }
}

/// What `serde_json` reads from a body: the text of its parse error, or the
/// strings at `error.message` and `choices[0].message.content`.
pub uninterp spec fn json_reply_fields(body: Seq<char>) -> Result<
    (Option<Seq<char>>, Option<Seq<char>>),
    Seq<char>,
>;

/// Parses `body` with `serde_json::from_str` into a `serde_json::Value` and
/// reads `v["error"]["message"]` and `v["choices"][0]["message"]["content"]`
/// with `Value::as_str`; a parse error is given by its `Display` text. The
/// contract claims only that the result is a function of the body.
#[verifier::external_body]
fn read_reply_fields(body: &str) -> (r: Result<ReplyFields, String>)
    ensures
        reply_view(r) == json_reply_fields(body@),
{
    match serde_json::from_str::<serde_json::Value>(body) {
        Ok(v) => Ok(
            ReplyFields {
                error_message: v["error"]["message"].as_str().map(String::from),
                content: v["choices"][0]["message"]["content"].as_str().map(String::from),
            },
        ),
        Err(e) => Err(e.to_string()),
    }
}

/// The message shown for a failed HTTP request.
pub open spec fn api_error_text(
    label: Seq<char>,
    status: u16,
    reply: Result<(Option<Seq<char>>, Option<Seq<char>>), Seq<char>>,
) -> Seq<char> {
    if status == 401 {
        label + ": API-Schluessel ungueltig. Bitte pruefen."@
    } else if status == 413 {
        "Audiodatei zu gross."@
    } else if status == 429 {
        label + ": Rate Limit erreicht. Kurz warten und erneut versuchen."@
    } else if status == 503 {
        label + " ist gerade nicht erreichbar. Bitte erneut versuchen."@
    } else {
        match reply {
            Ok((Some(m), _)) => label + "-Fehler: "@ + m,
            _ => label + "-Fehler (HTTP "@ + decimal(status as nat) + ")"@,
        }
    }
}

/// The error message for `status`, given what the body holds as JSON.
pub fn api_error_from(label: &str, status: u16, reply: &Result<ReplyFields, String>) -> (m: String)
    ensures
        m@ == api_error_text(label@, status, reply_view(*reply)),
{
    let mut m = String::from_str(label);
    if status == 401 {
        m.append(": API-Schluessel ungueltig. Bitte pruefen.");
        m
    } else if status == 413 {
        String::from_str("Audiodatei zu gross.")
    } else if status == 429 {
        m.append(": Rate Limit erreicht. Kurz warten und erneut versuchen.");
        m
    } else if status == 503 {
        m.append(" ist gerade nicht erreichbar. Bitte erneut versuchen.");
        m
    } else {
        match reply {
            Ok(ReplyFields { error_message: Some(msg), .. }) => {
                m.append("-Fehler: ");
                m.append(msg.as_str());
                m
            },
            _ => {
                m.append("-Fehler (HTTP ");
                let code = decimal_string(status as u64);
                m.append(code.as_str());
                m.append(")");
                m
            },
        }
    }
}

/// The error message for a failed request with status `status` and body `body`.
pub fn api_error(label: &str, status: u16, body: &str) -> (m: String)
    ensures
        m@ == api_error_text(label@, status, json_reply_fields(body@)),
{
    let reply = read_reply_fields(body);
    api_error_from(label, status, &reply)
}

/// The outcome of a transcription request.
pub open spec fn transcription_outcome_of(status: u16, body: Seq<char>) -> Result<
    Seq<char>,
    Seq<char>,
> {
    if status != 200 {
        Err(api_error_text("Transkription"@, status, json_reply_fields(body)))
    } else if trimmed(body).len() == 0 {
        Err("Transkription fehlgeschlagen - leere Antwort."@)
    } else {
        Ok(trimmed(body))
    }
}

pub open spec fn result_view(r: Result<String, String>) -> Result<Seq<char>, Seq<char>> {
    match r {
        Ok(s) => Ok(s@),
        Err(e) => Err(e@),
    }
}

/// Reads the reply to a transcription request: its text without surrounding
/// white space, or an error.
pub fn transcription_outcome(status: u16, body: &str) -> (r: Result<String, String>)
    ensures
        result_view(r) == transcription_outcome_of(status, body@),
{
    if status != 200 {
        return Err(api_error("Transkription", status, body));
    }
    let text = trim(body);
    if text.as_str().is_empty() {
        return Err(String::from_str("Transkription fehlgeschlagen - leere Antwort."));
    }
    Ok(text)
}

/// The outcome of a chat request whose reply was read as JSON.
pub open spec fn chat_reply_of(reply: Result<(Option<Seq<char>>, Option<Seq<char>>), Seq<char>>) -> Result<
    Seq<char>,
    Seq<char>,
> {
    match reply {
        Err(e) => Err("Antwort-Parsing: "@ + e),
        Ok((_, content)) => {
            let c = match content {
                Some(c) => trimmed(c),
                None => Seq::empty(),
            };
            if c.len() == 0 {
                Err("Keine Antwort erhalten."@)
            } else {
                Ok(c)
            }
        },
    }
}

/// The model's answer from a successful reply: the message content without
/// surrounding white space; an error when the body is no JSON or the answer
/// is missing or blank.
pub fn chat_reply_from(reply: Result<ReplyFields, String>) -> (r: Result<String, String>)
    ensures
        result_view(r) == chat_reply_of(reply_view(reply)),
{
    match reply {
        Err(e) => {
            let mut m = String::from_str("Antwort-Parsing: ");
            m.append(e.as_str());
            Err(m)
        },
        Ok(f) => {
            let c = match f.content {
                Some(c) => trim(c.as_str()),
                None => String::new(),
            };
            if c.as_str().is_empty() {
                Err(String::from_str("Keine Antwort erhalten."))
            } else {
                Ok(c)
            }
        },
    }
}

pub open spec fn chat_outcome_of(status: u16, body: Seq<char>) -> Result<Seq<char>, Seq<char>> {
    if status != 200 {
        Err(api_error_text("Textmodell"@, status, json_reply_fields(body)))
    } else {
        chat_reply_of(json_reply_fields(body))
    }
}

/// Reads the reply to a chat request.
pub fn chat_outcome(status: u16, body: &str) -> (r: Result<String, String>)
    ensures
        result_view(r) == chat_outcome_of(status, body@),
{
    if status != 200 {
        return Err(api_error("Textmodell", status, body));
    }
    chat_reply_from(read_reply_fields(body))
}


// ── Laws ────────────────────────────────────────────────────────────────────

/// The endpoints of the providers: OpenAI and Groq transcribe and chat under
/// their own hosts, the local text model is Ollama on the IPv4 loopback, and
/// every request is authorised with the key it was built with.
pub proof fn lemma_provider_endpoints(
    key: Seq<char>,
    model: Seq<char>,
    language: Option<Seq<char>>,
    prompt: Seq<char>,
    text: Seq<char>,
    temperature: u32,
)
    ensures
        transcription_request_of(base_url_of(Provider::OpenAi), key, model, language).url
            == "https://api.openai.com/v1/audio/transcriptions"@,
        transcription_request_of(base_url_of(Provider::Groq), key, model, language).url
            == "https://api.groq.com/openai/v1/audio/transcriptions"@,
        chat_request_of(base_url_of(Provider::OpenAi), prompt, text, key, model, temperature).url
            == "https://api.openai.com/v1/chat/completions"@,
        chat_request_of(base_url_of(Provider::Groq), prompt, text, key, model, temperature).url
            == "https://api.groq.com/openai/v1/chat/completions"@,
        chat_request_of(base_url_of(Provider::Local), prompt, text, key, model, temperature).url
            == "http://127.0.0.1:11434/v1/chat/completions"@,
        forall|b: Seq<char>| #[trigger]
            transcription_request_of(b, key, model, language).authorization == "Bearer "@ + key,
        forall|b: Seq<char>| #[trigger]
            chat_request_of(b, prompt, text, key, model, temperature).authorization == "Bearer "@
                + key,
{
    reveal_strlit("https://api.openai.com/v1");
    reveal_strlit("https://api.groq.com/openai/v1");
    reveal_strlit("http://127.0.0.1:11434/v1");
    reveal_strlit("/audio/transcriptions");
    reveal_strlit("/chat/completions");
    reveal_strlit("https://api.openai.com/v1/audio/transcriptions");
    reveal_strlit("https://api.groq.com/openai/v1/audio/transcriptions");
    reveal_strlit("https://api.openai.com/v1/chat/completions");
    reveal_strlit("https://api.groq.com/openai/v1/chat/completions");
    reveal_strlit("http://127.0.0.1:11434/v1/chat/completions");
    assert("https://api.openai.com/v1"@ + "/audio/transcriptions"@
        =~= "https://api.openai.com/v1/audio/transcriptions"@);
    assert("https://api.groq.com/openai/v1"@ + "/audio/transcriptions"@
        =~= "https://api.groq.com/openai/v1/audio/transcriptions"@);
    assert("https://api.openai.com/v1"@ + "/chat/completions"@
        =~= "https://api.openai.com/v1/chat/completions"@);
    assert("https://api.groq.com/openai/v1"@ + "/chat/completions"@
        =~= "https://api.groq.com/openai/v1/chat/completions"@);
    assert("http://127.0.0.1:11434/v1"@ + "/chat/completions"@
        =~= "http://127.0.0.1:11434/v1/chat/completions"@);
}

} // verus!
