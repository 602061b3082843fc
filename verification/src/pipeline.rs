//! What happens between the second hotkey press and the text at the cursor:
//! save the recording, transcribe it, pass it through the text model where
//! the mode asks for it, put the result on the clipboard and paste it.
//!
//! The text-model step runs on the local server when the dictation starts
//! with the codeword `vertraulich`, when no Groq key is stored, and when Groq
//! cannot be reached.
//!
//! The steps are decided here, one at a time: each step takes the answer to
//! the previous command and gives the notices to show and the next command.
//! The caller performs the commands (disk, keyring, network, clipboard, input).

use vstd::prelude::*;
use vstd::string::*;

use crate::modes::{
    processing_label_of, system_prompt_of, temperature_of, Mode, TRANSLATE_PROMPT,
    VENT_POLISH_PROMPT,
};
use crate::provider::{
    base_url_of, bearer, chat_request_of, local_transcription_request, provider_of_id,
    transcription_request_of, ChatRequest, ChatRequestView, Provider, TranscriptionRequest,
    TranscriptionRequestView,
};
use crate::codeword::{codeword_rest, confidential_text};
use crate::settings::{Settings, SettingsView};
use crate::text::{
    disjoint_chars, lemma_replace_all_removes, occurs_in, replace, replace_all, trim, trimmed,
};

verus! {

// ── The plan ────────────────────────────────────────────────────────────────

/// Who transcribes: the local whisper server at a URL, or a cloud provider
/// whose key is stored under `key_id`.
#[derive(Debug, PartialEq, Eq)]
pub enum Transcriber {
    Local { url: String },
    Cloud { provider: Provider, key_id: String },
}

pub enum TranscriberView {
    Local { url: Seq<char> },
    Cloud { provider: Provider, key_id: Seq<char> },
}

/// The text-model pass of a mode.
#[derive(Debug, PartialEq, Eq)]
pub struct ChatPlan {
    pub provider: Provider,
    pub key_id: String,
    pub model: String,
    pub system_prompt: String,
    pub temperature: u32,
    pub processing_label: String,
    /// The model of the local text-model server, for when the pass has to
    /// run locally.
    pub local_model: String,
    /// A second pass that smooths the language of the first (`Vent`).
    pub polish: bool,
}

pub struct ChatPlanView {
    pub provider: Provider,
    pub key_id: Seq<char>,
    pub model: Seq<char>,
    pub system_prompt: Seq<char>,
    pub temperature: u32,
    pub processing_label: Seq<char>,
    pub local_model: Seq<char>,
    pub polish: bool,
}

/// What the processing of one recording needs from the settings and the mode.
#[derive(Debug, PartialEq, Eq)]
pub struct Plan {
    pub transcriber: Transcriber,
    pub transcription_model: String,
    pub language: String,
    pub chat: Option<ChatPlan>,
    pub auto_paste: bool,
}

pub struct PlanView {
    pub transcriber: TranscriberView,
    pub transcription_model: Seq<char>,
    pub language: Seq<char>,
    pub chat: Option<ChatPlanView>,
    pub auto_paste: bool,
}

impl Transcriber {
    pub open spec fn view(&self) -> TranscriberView {
        match self {
            Transcriber::Local { url } => TranscriberView::Local { url: url@ },
            Transcriber::Cloud { provider, key_id } => TranscriberView::Cloud {
                provider: *provider,
                key_id: key_id@,
            },
        }
    }
}

impl ChatPlan {
    pub open spec fn view(&self) -> ChatPlanView {
        ChatPlanView {
            provider: self.provider,
            key_id: self.key_id@,
            model: self.model@,
            system_prompt: self.system_prompt@,
            temperature: self.temperature,
            processing_label: self.processing_label@,
            local_model: self.local_model@,
            polish: self.polish,
        }
    }
}

impl Plan {
    pub open spec fn view(&self) -> PlanView {
        PlanView {
            transcriber: self.transcriber.view(),
            transcription_model: self.transcription_model@,
            language: self.language@,
            chat: match self.chat {
                Some(c) => Some(c.view()),
                None => None,
            },
            auto_paste: self.auto_paste,
        }
    }
}

/// The whisper server's URL with `localhost` replaced by the IPv4 loopback,
/// which also works offline and behind a VPN.
pub open spec fn loopback_url(url: Seq<char>) -> Seq<char> {
    replace_all(url, "localhost"@, "127.0.0.1"@)
}

/// The language the recording is transcribed in: English for the English to
/// German mode, the setting otherwise.
pub open spec fn transcription_language(s: SettingsView, mode: Mode) -> Seq<char> {
    if mode == Mode::TranslateEnDe {
        "en"@
    } else {
        s.language
    }
}

pub open spec fn chat_plan_of(s: SettingsView, mode: Mode) -> ChatPlanView {
    let provider = provider_of_id(s.chat_provider);
    ChatPlanView {
        provider: provider,
        key_id: s.chat_provider,
        model: if provider == Provider::Local {
            s.local_chat_model
        } else {
            s.chat_model
        },
        system_prompt: system_prompt_of(mode),
        temperature: temperature_of(mode),
        processing_label: processing_label_of(mode),
        local_model: s.local_chat_model,
        polish: mode == Mode::Vent,
    }
}

pub open spec fn plan_of(s: SettingsView, mode: Mode) -> PlanView {
    PlanView {
        transcriber: if provider_of_id(s.provider) == Provider::Local {
            TranscriberView::Local { url: loopback_url(s.local_stt_url) }
        } else {
            TranscriberView::Cloud { provider: provider_of_id(s.provider), key_id: s.provider }
        },
        transcription_model: s.transcription_model,
        language: transcription_language(s, mode),
        chat: if mode.spec_needs_chat() {
            Some(chat_plan_of(s, mode))
        } else {
            None
        },
        auto_paste: s.auto_paste_enabled,
    }
}

/// Decides the processing of a recording made in `mode`.
pub fn plan(s: &Settings, mode: Mode) -> (p: Plan)
    ensures
        p.view() == plan_of(s@, mode),
{
    proof {
        reveal_strlit("localhost");
    }
    let transcription_provider = Provider::from_id(s.provider.as_str());
    let transcriber = if matches!(transcription_provider, Provider::Local) {
        Transcriber::Local { url: replace(s.local_stt_url.as_str(), "localhost", "127.0.0.1") }
    } else {
        Transcriber::Cloud { provider: transcription_provider, key_id: s.provider.clone() }
    };
    let language = if matches!(mode, Mode::TranslateEnDe) {
        String::from_str("en")
    } else {
        s.language.clone()
    };
    let chat = if mode.needs_chat() {
        let provider = Provider::from_id(s.chat_provider.as_str());
        let model = if matches!(provider, Provider::Local) {
            s.local_chat_model.clone()
        } else {
            s.chat_model.clone()
        };
        Some(
            ChatPlan {
                provider,
                key_id: s.chat_provider.clone(),
                model,
                system_prompt: String::from_str(mode.system_prompt()),
                temperature: mode.temperature(),
                processing_label: String::from_str(mode.processing_label()),
                local_model: s.local_chat_model.clone(),
                polish: matches!(mode, Mode::Vent),
            },
        )
    } else {
        None
    };
    Plan {
        transcriber,
        transcription_model: s.transcription_model.clone(),
        language,
        chat,
        auto_paste: s.auto_paste_enabled,
    }
}

/// The text-model pass moved to the local server, with the local model.
pub open spec fn localized(c: ChatPlanView) -> ChatPlanView {
    ChatPlanView { provider: Provider::Local, model: c.local_model, ..c }
}

pub open spec fn localized_plan(plan: PlanView) -> PlanView {
    PlanView { chat: Some(localized(plan.chat.unwrap())), ..plan }
}

fn localize_plan(plan: Plan) -> (r: Plan)
    requires
        plan.chat is Some,
    ensures
        r.view() == localized_plan(plan.view()),
{
    let Plan { transcriber, transcription_model, language, chat, auto_paste } = plan;
    let chat = match chat {
        Some(c) => {
            let ChatPlan {
                provider: _,
                key_id,
                model: _,
                system_prompt,
                temperature,
                processing_label,
                local_model,
                polish,
            } = c;
            Some(
                ChatPlan {
                    provider: Provider::Local,
                    key_id,
                    model: local_model.clone(),
                    system_prompt,
                    temperature,
                    processing_label,
                    local_model,
                    polish,
                },
            )
        },
        None => None,
    };
    Plan { transcriber, transcription_model, language, chat, auto_paste }
}

// ── Notices, commands, events ───────────────────────────────────────────────

/// What the status window is told.
#[derive(Debug, PartialEq, Eq)]
pub enum Notice {
    /// The recording ended (the window shows its duration).
    RecordingStopped,
    Status(String),
    ShowError(String),
    /// The final text, as it was put on the clipboard.
    TranscriptionResult(String),
}

pub enum NoticeView {
    RecordingStopped,
    Status(Seq<char>),
    ShowError(Seq<char>),
    TranscriptionResult(Seq<char>),
}

impl Notice {
    pub open spec fn view(&self) -> NoticeView {
        match self {
            Notice::RecordingStopped => NoticeView::RecordingStopped,
            Notice::Status(s) => NoticeView::Status(s@),
            Notice::ShowError(s) => NoticeView::ShowError(s@),
            Notice::TranscriptionResult(s) => NoticeView::TranscriptionResult(s@),
        }
    }
}

/// The next thing to do; each command but `Finish` is answered by an event.
#[derive(Debug, PartialEq, Eq)]
pub enum Command {
    /// Stop the recorder and save the audio file; answered by `Saved`.
    SaveRecording,
    /// Read the stored key of a provider id; answered by `KeyLookedUp`.
    LookupKey(String),
    /// Send the saved audio; answered by `Transcribed`.
    Transcribe(TranscriptionRequest),
    /// Delete the saved audio file; answered by `Removed`.
    RemoveRecording,
    /// Ask the text model; answered by `Chatted`, or by `ChatUnreachable`
    /// when the request could not be sent.
    Chat(ChatRequest),
    /// Put the text on the clipboard; answered by `ClipboardWritten`.
    WriteClipboard(String),
    /// Paste at the cursor of the given window; answered by `Pasted` or
    /// `PasteAborted`.
    Paste(Option<isize>),
    /// The processing is over, with this result.
    Finish(Result<(), String>),
}

pub enum CommandView {
    SaveRecording,
    LookupKey(Seq<char>),
    Transcribe(TranscriptionRequestView),
    RemoveRecording,
    Chat(ChatRequestView),
    WriteClipboard(Seq<char>),
    Paste(Option<isize>),
    Finish(Result<(), Seq<char>>),
}

impl Command {
    pub open spec fn view(&self) -> CommandView {
        match self {
            Command::SaveRecording => CommandView::SaveRecording,
            Command::LookupKey(id) => CommandView::LookupKey(id@),
            Command::Transcribe(q) => CommandView::Transcribe(q.view()),
            Command::RemoveRecording => CommandView::RemoveRecording,
            Command::Chat(q) => CommandView::Chat(q.view()),
            Command::WriteClipboard(t) => CommandView::WriteClipboard(t@),
            Command::Paste(w) => CommandView::Paste(*w),
            Command::Finish(r) => CommandView::Finish(
                match r {
                    Ok(()) => Ok(()),
                    Err(e) => Err(e@),
                },
            ),
        }
    }
}

/// The notices to show, then the command to perform.
#[derive(Debug, PartialEq, Eq)]
pub struct Step {
    pub notices: Vec<Notice>,
    pub command: Command,
}

pub struct StepView {
    pub notices: Seq<NoticeView>,
    pub command: CommandView,
}

impl Step {
    pub open spec fn view(&self) -> StepView {
        StepView {
            notices: self.notices@.map_values(|n: Notice| n.view()),
            command: self.command.view(),
        }
    }
}

/// The answer to a command.
#[derive(Debug, PartialEq, Eq)]
pub enum Event {
    Saved(Result<(), String>),
    KeyLookedUp(Result<String, String>),
    Transcribed(Result<String, String>),
    Removed,
    Chatted(Result<String, String>),
    /// The text-model request could not be sent (no connection).
    ChatUnreachable(String),
    ClipboardWritten(Result<(), String>),
    Pasted(Result<(), String>),
    /// The paste could not be run at all.
    PasteAborted(String),
}

pub enum EventView {
    Saved(Result<(), Seq<char>>),
    KeyLookedUp(Result<Seq<char>, Seq<char>>),
    Transcribed(Result<Seq<char>, Seq<char>>),
    Removed,
    Chatted(Result<Seq<char>, Seq<char>>),
    ChatUnreachable(Seq<char>),
    ClipboardWritten(Result<(), Seq<char>>),
    Pasted(Result<(), Seq<char>>),
    PasteAborted(Seq<char>),
}

pub open spec fn unit_result_view(r: Result<(), String>) -> Result<(), Seq<char>> {
    match r {
        Ok(()) => Ok(()),
        Err(e) => Err(e@),
    }
}

pub open spec fn string_result_view(r: Result<String, String>) -> Result<Seq<char>, Seq<char>> {
    match r {
        Ok(t) => Ok(t@),
        Err(e) => Err(e@),
    }
}

impl Event {
    pub open spec fn view(&self) -> EventView {
        match self {
            Event::Saved(r) => EventView::Saved(unit_result_view(*r)),
            Event::KeyLookedUp(r) => EventView::KeyLookedUp(string_result_view(*r)),
            Event::Transcribed(r) => EventView::Transcribed(string_result_view(*r)),
            Event::Removed => EventView::Removed,
            Event::Chatted(r) => EventView::Chatted(string_result_view(*r)),
            Event::ChatUnreachable(m) => EventView::ChatUnreachable(m@),
            Event::ClipboardWritten(r) => EventView::ClipboardWritten(unit_result_view(*r)),
            Event::Pasted(r) => EventView::Pasted(unit_result_view(*r)),
            Event::PasteAborted(e) => EventView::PasteAborted(e@),
        }
    }
}

// ── The machine ─────────────────────────────────────────────────────────────

/// Where the processing stands, with what it carries to the next step.
#[derive(Debug, PartialEq, Eq)]
pub enum Stage {
    Saving,
    TranscriptionKey { provider: Provider },
    Transcribing,
    Removing { result: Result<String, String> },
    ChatKey { text: String },
    Chatting { text: String, key: String },
    /// The cloud text model was unreachable; the local one is asked instead.
    RetryingLocally { text: String },
    Polishing { first: String, key: String },
    WritingClipboard { text: String },
    Pasting,
    Finished,
}

pub enum StageView {
    Saving,
    TranscriptionKey { provider: Provider },
    Transcribing,
    Removing { result: Result<Seq<char>, Seq<char>> },
    ChatKey { text: Seq<char> },
    Chatting { text: Seq<char>, key: Seq<char> },
    RetryingLocally { text: Seq<char> },
    Polishing { first: Seq<char>, key: Seq<char> },
    WritingClipboard { text: Seq<char> },
    Pasting,
    Finished,
}

impl Stage {
    pub open spec fn view(&self) -> StageView {
        match self {
            Stage::Saving => StageView::Saving,
            Stage::TranscriptionKey { provider } => StageView::TranscriptionKey {
                provider: *provider,
            },
            Stage::Transcribing => StageView::Transcribing,
            Stage::Removing { result } => StageView::Removing {
                result: string_result_view(*result),
            },
            Stage::ChatKey { text } => StageView::ChatKey { text: text@ },
            Stage::Chatting { text, key } => StageView::Chatting { text: text@, key: key@ },
            Stage::RetryingLocally { text } => StageView::RetryingLocally { text: text@ },
            Stage::Polishing { first, key } => StageView::Polishing { first: first@, key: key@ },
            Stage::WritingClipboard { text } => StageView::WritingClipboard { text: text@ },
            Stage::Pasting => StageView::Pasting,
            Stage::Finished => StageView::Finished,
        }
    }
}

#[derive(Debug, PartialEq, Eq)]
pub struct Pipeline {
    pub plan: Plan,
    /// The window that was in front when the recording started.
    pub target: Option<isize>,
    pub stage: Stage,
}

pub struct PipelineView {
    pub plan: PlanView,
    pub target: Option<isize>,
    pub stage: StageView,
}

impl Pipeline {
    pub open spec fn view(&self) -> PipelineView {
        PipelineView { plan: self.plan.view(), target: self.target, stage: self.stage.view() }
    }
}

/// The stages that ask the text model need a text-model pass in the plan.
pub open spec fn well_formed(p: PipelineView) -> bool {
    match p.stage {
        StageView::ChatKey { .. } => p.plan.chat is Some,
        StageView::Chatting { .. } => p.plan.chat is Some,
        StageView::RetryingLocally { .. } => p.plan.chat is Some,
        StageView::Polishing { .. } => p.plan.chat is Some,
        _ => true,
    }
}

/// Which answer each stage waits for.
pub open spec fn accepts(stage: StageView, e: EventView) -> bool {
    match stage {
        StageView::Saving => e is Saved,
        StageView::TranscriptionKey { .. } => e is KeyLookedUp,
        StageView::Transcribing => e is Transcribed,
        StageView::Removing { .. } => e is Removed,
        StageView::ChatKey { .. } => e is KeyLookedUp,
        StageView::Chatting { .. } => e is Chatted || e is ChatUnreachable,
        StageView::RetryingLocally { .. } => e is Chatted || e is ChatUnreachable,
        StageView::Polishing { .. } => e is Chatted || e is ChatUnreachable,
        StageView::WritingClipboard { .. } => e is ClipboardWritten,
        StageView::Pasting => e is Pasted || e is PasteAborted,
        StageView::Finished => false,
    }
}

pub open spec fn no_recording() -> Seq<char> {
    "Keine Aufnahme erkannt."@
}

pub open spec fn paste_fallback(e: Seq<char>) -> Seq<char> {
    "Text ist in der Zwischenablage - bitte Strg+V druecken. ("@ + e + ")"@
}

pub open spec fn steps(notices: Seq<NoticeView>, command: CommandView) -> StepView {
    StepView { notices, command }
}

pub open spec fn with_stage(p: PipelineView, stage: StageView) -> PipelineView {
    PipelineView { stage, ..p }
}

/// A request to the text model of the plan.
pub open spec fn chat_in(
    c: ChatPlanView,
    prompt: Seq<char>,
    text: Seq<char>,
    key: Seq<char>,
    temperature: u32,
) -> ChatRequestView {
    chat_request_of(base_url_of(c.provider), prompt, text, key, c.model, temperature)
}

/// The first text-model request of the plan.
pub open spec fn first_pass(c: ChatPlanView, text: Seq<char>, key: Seq<char>) -> ChatRequestView {
    chat_in(c, c.system_prompt, text, key, c.temperature)
}

/// The processing as it starts, from the recording's length in milliseconds:
/// a recording shorter than 0.4 s is dropped.
pub open spec fn start_of(plan: PlanView, target: Option<isize>, duration_ms: u64) -> (
    PipelineView,
    StepView,
) {
    let p = PipelineView { plan, target, stage: StageView::Saving };
    if duration_ms < 400 {
        (
            with_stage(p, StageView::Finished),
            steps(
                seq![NoticeView::RecordingStopped, NoticeView::ShowError(no_recording())],
                CommandView::Finish(Ok(())),
            ),
        )
    } else {
        (p, steps(seq![NoticeView::RecordingStopped], CommandView::SaveRecording))
    }
}

/// The processing with its text-model pass moved to the local server.
pub open spec fn localize(p: PipelineView) -> PipelineView {
    PipelineView { plan: localized_plan(p.plan), ..p }
}

/// The dictated text: the transcript, without the codeword where it starts
/// with it.
pub open spec fn dictated_text(t: Seq<char>) -> Seq<char> {
    match codeword_rest(t) {
        Some(r) => r,
        None => t,
    }
}

/// What follows a transcript: nothing to paste when the text is blank, else
/// the text-model pass where the plan has one (on the local server, and
/// without the codeword, when the dictation starts with the codeword), else
/// the transcript as it is goes to the clipboard.
pub open spec fn after_transcript(p: PipelineView, t: Seq<char>) -> (PipelineView, StepView) {
    let text = if p.plan.chat is Some {
        dictated_text(t)
    } else {
        t
    };
    if trimmed(text).len() == 0 {
        (
            with_stage(p, StageView::Finished),
            steps(seq![NoticeView::ShowError(no_recording())], CommandView::Finish(Ok(()))),
        )
    } else {
        let q = if codeword_rest(t) is Some && p.plan.chat is Some {
            localize(p)
        } else {
            p
        };
        match q.plan.chat {
            None => (
                with_stage(q, StageView::WritingClipboard { text }),
                steps(Seq::empty(), CommandView::WriteClipboard(text)),
            ),
            Some(c) => if c.provider == Provider::Local {
                (
                    with_stage(q, StageView::Chatting { text, key: Seq::empty() }),
                    steps(
                        seq![NoticeView::Status(c.processing_label)],
                        CommandView::Chat(first_pass(c, text, Seq::empty())),
                    ),
                )
            } else {
                (
                    with_stage(q, StageView::ChatKey { text }),
                    steps(Seq::empty(), CommandView::LookupKey(c.key_id)),
                )
            },
        }
    }
}

/// What follows the first text-model pass: the polishing pass where the plan
/// has one, else the clipboard.
pub open spec fn after_first_pass(
    p: PipelineView,
    first: Seq<char>,
    key: Seq<char>,
    notices: Seq<NoticeView>,
) -> (PipelineView, StepView) {
    let c = p.plan.chat.unwrap();
    if c.polish {
        (
            with_stage(p, StageView::Polishing { first, key }),
            steps(
                notices.push(NoticeView::Status("Wird sprachlich geglättet ..."@)),
                CommandView::Chat(chat_in(c, VENT_POLISH_PROMPT@, first, key, 20)),
            ),
        )
    } else {
        (
            with_stage(p, StageView::WritingClipboard { text: first }),
            steps(notices, CommandView::WriteClipboard(first)),
        )
    }
}

/// One step of the processing: the answer `e` to the last command moves it on.
pub open spec fn step_of(p: PipelineView, e: EventView) -> (PipelineView, StepView) {
    let none = Seq::<NoticeView>::empty();
    match p.stage {
        StageView::Saving => match e {
            EventView::Saved(Err(msg)) => (
                with_stage(p, StageView::Finished),
                steps(none, CommandView::Finish(Err(msg))),
            ),
            _ => {
                let status = seq![NoticeView::Status("Wird transkribiert ..."@)];
                match p.plan.transcriber {
                    TranscriberView::Local { url } => (
                        with_stage(p, StageView::Transcribing),
                        steps(
                            status,
                            CommandView::Transcribe(
                                transcription_request_of(
                                    url,
                                    Seq::empty(),
                                    p.plan.transcription_model,
                                    Some(p.plan.language),
                                ),
                            ),
                        ),
                    ),
                    TranscriberView::Cloud { provider, key_id } => (
                        with_stage(p, StageView::TranscriptionKey { provider }),
                        steps(status, CommandView::LookupKey(key_id)),
                    ),
                }
            },
        },
        StageView::TranscriptionKey { provider } => match e {
            EventView::KeyLookedUp(Ok(key)) => if provider == Provider::Local {
                (
                    with_stage(
                        p,
                        StageView::Removing {
                            result: Err(crate::provider::local_transcription_misuse()),
                        },
                    ),
                    steps(none, CommandView::RemoveRecording),
                )
            } else {
                (
                    with_stage(p, StageView::Transcribing),
                    steps(
                        none,
                        CommandView::Transcribe(
                            transcription_request_of(
                                base_url_of(provider),
                                key,
                                p.plan.transcription_model,
                                Some(p.plan.language),
                            ),
                        ),
                    ),
                )
            },
            EventView::KeyLookedUp(Err(msg)) => (
                with_stage(p, StageView::Removing { result: Err(msg) }),
                steps(none, CommandView::RemoveRecording),
            ),
            _ => (p, steps(none, CommandView::Finish(Ok(())))),
        },
        StageView::Transcribing => match e {
            EventView::Transcribed(r) => (
                with_stage(p, StageView::Removing { result: r }),
                steps(none, CommandView::RemoveRecording),
            ),
            _ => (p, steps(none, CommandView::Finish(Ok(())))),
        },
        StageView::Removing { result } => match result {
            Err(msg) => (
                with_stage(p, StageView::Finished),
                steps(seq![NoticeView::ShowError(msg)], CommandView::Finish(Err(msg))),
            ),
            Ok(t) => after_transcript(p, t),
        },
        StageView::ChatKey { text } => {
            let c = p.plan.chat.unwrap();
            match e {
                EventView::KeyLookedUp(Ok(key)) => (
                    with_stage(p, StageView::Chatting { text, key }),
                    steps(
                        seq![NoticeView::Status(c.processing_label)],
                        CommandView::Chat(first_pass(c, text, key)),
                    ),
                ),
                EventView::KeyLookedUp(Err(msg)) => if c.provider == Provider::Groq {
                    (
                        with_stage(localize(p), StageView::Chatting { text, key: Seq::empty() }),
                        steps(
                            seq![NoticeView::Status(c.processing_label)],
                            CommandView::Chat(first_pass(localized(c), text, Seq::empty())),
                        ),
                    )
                } else {
                    (
                        with_stage(p, StageView::Chatting { text, key: Seq::empty() }),
                        steps(
                            seq![NoticeView::ShowError(msg), NoticeView::Status(c.processing_label)],
                            CommandView::Chat(first_pass(c, text, Seq::empty())),
                        ),
                    )
                },
                _ => (p, steps(none, CommandView::Finish(Ok(())))),
            }
        },
        StageView::Chatting { text, key } => match e {
            EventView::Chatted(Ok(answer)) => after_first_pass(p, answer, key, none),
            EventView::Chatted(Err(msg)) => after_first_pass(
                p,
                text,
                key,
                seq![NoticeView::ShowError(msg)],
            ),
            EventView::ChatUnreachable(msg) => if p.plan.chat.unwrap().provider == Provider::Groq {
                (
                    with_stage(localize(p), StageView::RetryingLocally { text }),
                    steps(
                        none,
                        CommandView::Chat(
                            first_pass(localized(p.plan.chat.unwrap()), text, Seq::empty()),
                        ),
                    ),
                )
            } else {
                after_first_pass(p, text, key, seq![NoticeView::ShowError(msg)])
            },
            _ => (p, steps(none, CommandView::Finish(Ok(())))),
        },
        StageView::RetryingLocally { text } => match e {
            EventView::Chatted(Ok(answer)) => after_first_pass(p, answer, Seq::empty(), none),
            EventView::Chatted(Err(msg)) => after_first_pass(
                p,
                text,
                Seq::empty(),
                seq![NoticeView::ShowError(msg)],
            ),
            EventView::ChatUnreachable(msg) => after_first_pass(
                p,
                text,
                Seq::empty(),
                seq![NoticeView::ShowError(msg)],
            ),
            _ => (p, steps(none, CommandView::Finish(Ok(())))),
        },
        StageView::Polishing { first, key } => {
            let text = match e {
                EventView::Chatted(Ok(answer)) => answer,
                _ => first,
            };
            (
                with_stage(p, StageView::WritingClipboard { text }),
                steps(none, CommandView::WriteClipboard(text)),
            )
        },
        StageView::WritingClipboard { text } => match e {
            EventView::ClipboardWritten(Err(msg)) => (
                with_stage(p, StageView::Finished),
                steps(none, CommandView::Finish(Err("Clipboard-Fehler: "@ + msg))),
            ),
            _ => if p.plan.auto_paste {
                (
                    with_stage(p, StageView::Pasting),
                    steps(
                        seq![
                            NoticeView::TranscriptionResult(text),
                            NoticeView::Status("Wird eingefuegt ..."@),
                        ],
                        CommandView::Paste(p.target),
                    ),
                )
            } else {
                (
                    with_stage(p, StageView::Finished),
                    steps(
                        seq![NoticeView::TranscriptionResult(text)],
                        CommandView::Finish(Ok(())),
                    ),
                )
            },
        },
        StageView::Pasting => match e {
            EventView::Pasted(Err(msg)) => (
                with_stage(p, StageView::Finished),
                steps(seq![NoticeView::ShowError(paste_fallback(msg))], CommandView::Finish(Ok(()))),
            ),
            EventView::PasteAborted(msg) => (
                with_stage(p, StageView::Finished),
                steps(none, CommandView::Finish(Err(msg))),
            ),
            _ => (with_stage(p, StageView::Finished), steps(none, CommandView::Finish(Ok(())))),
        },
        StageView::Finished => (p, steps(none, CommandView::Finish(Ok(())))),
    }
}

fn step0(command: Command) -> (s: Step)
    ensures
        s.view() == steps(Seq::empty(), command.view()),
{
    let s = Step { notices: Vec::new(), command };
    assert(s.view().notices =~= Seq::<NoticeView>::empty());
    s
}

fn step1(n: Notice, command: Command) -> (s: Step)
    ensures
        s.view() == steps(seq![n.view()], command.view()),
{
    let mut notices = Vec::new();
    notices.push(n);
    let s = Step { notices, command };
    assert(s.view().notices =~= seq![n.view()]);
    s
}

fn step2(n: Notice, m: Notice, command: Command) -> (s: Step)
    ensures
        s.view() == steps(seq![n.view(), m.view()], command.view()),
{
    let mut notices = Vec::new();
    notices.push(n);
    notices.push(m);
    let s = Step { notices, command };
    assert(s.view().notices =~= seq![n.view(), m.view()]);
    s
}

fn status(s: &str) -> (n: Notice)
    ensures
        n.view() == NoticeView::Status(s@),
{
    Notice::Status(String::from_str(s))
}

fn first_pass_request(c: &ChatPlan, text: &str, key: &str) -> (q: ChatRequest)
    ensures
        q.view() == first_pass(c.view(), text@, key@),
{
    c.provider.chat_request(c.system_prompt.as_str(), text, key, c.model.as_str(), c.temperature)
}

impl Pipeline {
    /// Starts the processing of a recording of `duration_ms` milliseconds.
    pub fn start(plan: Plan, target: Option<isize>, duration_ms: u64) -> (r: (Pipeline, Step))
        ensures
            (r.0.view(), r.1.view()) == start_of(plan.view(), target, duration_ms),
            well_formed(r.0.view()),
    {
        if duration_ms < 400 {
            let s = step2(
                Notice::RecordingStopped,
                Notice::ShowError(String::from_str("Keine Aufnahme erkannt.")),
                Command::Finish(Ok(())),
            );
            (Pipeline { plan, target, stage: Stage::Finished }, s)
        } else {
            let s = step1(Notice::RecordingStopped, Command::SaveRecording);
            (Pipeline { plan, target, stage: Stage::Saving }, s)
        }
    }

    /// Whether the processing waits for `e`.
    pub fn accepts(&self, e: &Event) -> (r: bool)
        ensures
            r == accepts(self.stage.view(), e.view()),
    {
        match (&self.stage, e) {
            (Stage::Saving, Event::Saved(_)) => true,
            (Stage::TranscriptionKey { .. }, Event::KeyLookedUp(_)) => true,
            (Stage::Transcribing, Event::Transcribed(_)) => true,
            (Stage::Removing { .. }, Event::Removed) => true,
            (Stage::ChatKey { .. }, Event::KeyLookedUp(_)) => true,
            (Stage::Chatting { .. }, Event::Chatted(_)) => true,
            (Stage::Chatting { .. }, Event::ChatUnreachable(_)) => true,
            (Stage::RetryingLocally { .. }, Event::Chatted(_)) => true,
            (Stage::RetryingLocally { .. }, Event::ChatUnreachable(_)) => true,
            (Stage::Polishing { .. }, Event::Chatted(_)) => true,
            (Stage::Polishing { .. }, Event::ChatUnreachable(_)) => true,
            (Stage::WritingClipboard { .. }, Event::ClipboardWritten(_)) => true,
            (Stage::Pasting, Event::Pasted(_)) => true,
            (Stage::Pasting, Event::PasteAborted(_)) => true,
            _ => false,
        }
    }

    fn after_transcript(self, t: String) -> (r: (Pipeline, Step))
        requires
            well_formed(self.view()),
        ensures
            (r.0.view(), r.1.view()) == after_transcript(self.view(), t@),
            well_formed(r.0.view()),
    {
        proof {
            reveal_strlit("");
        }
        let Pipeline { plan, target, stage: _ } = self;
        let (t, confidential) = if plan.chat.is_some() {
            match confidential_text(t.as_str()) {
                Some(rest) => (rest, true),
                None => (t, false),
            }
        } else {
            (t, false)
        };
        if trim(t.as_str()).as_str().is_empty() {
            let s = step1(
                Notice::ShowError(String::from_str("Keine Aufnahme erkannt.")),
                Command::Finish(Ok(())),
            );
            return (Pipeline { plan, target, stage: Stage::Finished }, s);
        }
        let plan = if confidential && plan.chat.is_some() {
            localize_plan(plan)
        } else {
            plan
        };
        match &plan.chat {
            None => {
                let s = step0(Command::WriteClipboard(t.clone()));
                (Pipeline { plan, target, stage: Stage::WritingClipboard { text: t } }, s)
            },
            Some(c) => {
                if matches!(c.provider, Provider::Local) {
                    let q = first_pass_request(c, t.as_str(), "");
                    let s = step1(status(c.processing_label.as_str()), Command::Chat(q));
                    (
                        Pipeline {
                            plan,
                            target,
                            stage: Stage::Chatting { text: t, key: String::new() },
                        },
                        s,
                    )
                } else {
                    let s = step0(Command::LookupKey(c.key_id.clone()));
                    (Pipeline { plan, target, stage: Stage::ChatKey { text: t } }, s)
                }
            },
        }
    }

    fn after_first_pass(self, first: String, key: String, failure: Option<String>) -> (r: (
        Pipeline,
        Step,
    ))
        requires
            self.plan.chat is Some,
        ensures
            (r.0.view(), r.1.view()) == after_first_pass(
                self.view(),
                first@,
                key@,
                match failure {
                    Some(m) => seq![NoticeView::ShowError(m@)],
                    None => Seq::empty(),
                },
            ),
            well_formed(r.0.view()),
    {
        let Pipeline { plan, target, stage: _ } = self;
        let c = plan.chat.as_ref().unwrap();
        if c.polish {
            let q = c.provider.chat_request(
                VENT_POLISH_PROMPT,
                first.as_str(),
                key.as_str(),
                c.model.as_str(),
                20,
            );
            let polishing = status("Wird sprachlich geglättet ...");
            let s = match failure {
                Some(m) => step2(Notice::ShowError(m), polishing, Command::Chat(q)),
                None => step1(polishing, Command::Chat(q)),
            };
            proof {
                let st = NoticeView::Status("Wird sprachlich geglättet ..."@);
                assert(seq![st] =~= Seq::<NoticeView>::empty().push(st));
                assert forall|m: Seq<char>|
                    seq![NoticeView::ShowError(m), st] =~= #[trigger] seq![
                        NoticeView::ShowError(m),
                    ].push(st) by {}
            }
            (Pipeline { plan, target, stage: Stage::Polishing { first, key } }, s)
        } else {
            let command = Command::WriteClipboard(first.clone());
            let s = match failure {
                Some(m) => step1(Notice::ShowError(m), command),
                None => step0(command),
            };
            (Pipeline { plan, target, stage: Stage::WritingClipboard { text: first } }, s)
        }
    }

    /// Moves the processing on by the answer `e` to the last command.
    pub fn step(self, e: Event) -> (r: (Pipeline, Step))
        requires
            well_formed(self.view()),
            accepts(self.stage.view(), e.view()),
        ensures
            (r.0.view(), r.1.view()) == step_of(self.view(), e.view()),
            well_formed(r.0.view()),
    {
        let ghost old_view = self.view();
        proof {
            reveal_strlit("");
        }
        match self.stage {
            Stage::Saving => {
                let Pipeline { plan, target, stage: _ } = self;
                match e {
                    Event::Saved(Err(msg)) => {
                        let s = step0(Command::Finish(Err(msg)));
                        (Pipeline { plan, target, stage: Stage::Finished }, s)
                    },
                    _ => {
                        let announce = status("Wird transkribiert ...");
                        match &plan.transcriber {
                            Transcriber::Local { url } => {
                                let q = local_transcription_request(
                                    url.as_str(),
                                    plan.transcription_model.as_str(),
                                    Some(plan.language.as_str()),
                                );
                                let s = step1(announce, Command::Transcribe(q));
                                (Pipeline { plan, target, stage: Stage::Transcribing }, s)
                            },
                            Transcriber::Cloud { provider, key_id } => {
                                let provider = *provider;
                                let s = step1(announce, Command::LookupKey(key_id.clone()));
                                (
                                    Pipeline {
                                        plan,
                                        target,
                                        stage: Stage::TranscriptionKey { provider },
                                    },
                                    s,
                                )
                            },
                        }
                    },
                }
            },
            Stage::TranscriptionKey { provider } => {
                let Pipeline { plan, target, stage: _ } = self;
                match e {
                    Event::KeyLookedUp(Ok(key)) => {
                        match provider.transcription_request(
                            key.as_str(),
                            plan.transcription_model.as_str(),
                            Some(plan.language.as_str()),
                        ) {
                            Ok(q) => {
                                let s = step0(Command::Transcribe(q));
                                (Pipeline { plan, target, stage: Stage::Transcribing }, s)
                            },
                            Err(msg) => {
                                let s = step0(Command::RemoveRecording);
                                (
                                    Pipeline {
                                        plan,
                                        target,
                                        stage: Stage::Removing { result: Err(msg) },
                                    },
                                    s,
                                )
                            },
                        }
                    },
                    Event::KeyLookedUp(Err(msg)) => {
                        let s = step0(Command::RemoveRecording);
                        (Pipeline { plan, target, stage: Stage::Removing { result: Err(msg) } }, s)
                    },
                    _ => {
                        proof {
                            assert(false);
                        }
                        (Pipeline { plan, target, stage: Stage::Finished }, step0(
                            Command::Finish(Ok(())),
                        ))
                    },
                }
            },
            Stage::Transcribing => {
                let Pipeline { plan, target, stage: _ } = self;
                match e {
                    Event::Transcribed(r) => {
                        let s = step0(Command::RemoveRecording);
                        (Pipeline { plan, target, stage: Stage::Removing { result: r } }, s)
                    },
                    _ => {
                        proof {
                            assert(false);
                        }
                        (Pipeline { plan, target, stage: Stage::Finished }, step0(
                            Command::Finish(Ok(())),
                        ))
                    },
                }
            },
            Stage::Removing { result } => {
                let Pipeline { plan, target, stage: _ } = self;
                match result {
                    Err(msg) => {
                        let s = step1(Notice::ShowError(msg.clone()), Command::Finish(Err(msg)));
                        (Pipeline { plan, target, stage: Stage::Finished }, s)
                    },
                    Ok(t) => {
                        let p = Pipeline { plan, target, stage: Stage::Finished };
                        assert(p.view() == with_stage(old_view, StageView::Finished));
                        p.after_transcript(t)
                    },
                }
            },
            Stage::ChatKey { text } => {
                let Pipeline { plan, target, stage: _ } = self;
                let c = plan.chat.as_ref().unwrap();
                match e {
                    Event::KeyLookedUp(Ok(key)) => {
                        let q = first_pass_request(c, text.as_str(), key.as_str());
                        let s = step1(status(c.processing_label.as_str()), Command::Chat(q));
                        (Pipeline { plan, target, stage: Stage::Chatting { text, key } }, s)
                    },
                    Event::KeyLookedUp(Err(msg)) => {
                        proof {
                            reveal_strlit("");
                        }
                        if matches!(c.provider, Provider::Groq) {
                            let plan = localize_plan(plan);
                            let lc = plan.chat.as_ref().unwrap();
                            let q = first_pass_request(lc, text.as_str(), "");
                            let s = step1(status(lc.processing_label.as_str()), Command::Chat(q));
                            return (
                                Pipeline {
                                    plan,
                                    target,
                                    stage: Stage::Chatting { text, key: String::new() },
                                },
                                s,
                            );
                        }
                        let q = first_pass_request(c, text.as_str(), "");
                        let s = step2(
                            Notice::ShowError(msg),
                            status(c.processing_label.as_str()),
                            Command::Chat(q),
                        );
                        (
                            Pipeline {
                                plan,
                                target,
                                stage: Stage::Chatting { text, key: String::new() },
                            },
                            s,
                        )
                    },
                    _ => {
                        proof {
                            assert(false);
                        }
                        (Pipeline { plan, target, stage: Stage::Finished }, step0(
                            Command::Finish(Ok(())),
                        ))
                    },
                }
            },
            Stage::Chatting { text, key } => {
                let Pipeline { plan, target, stage: _ } = self;
                let p = Pipeline { plan, target, stage: Stage::Finished };
                match e {
                    Event::Chatted(Ok(answer)) => p.after_first_pass(answer, key, None),
                    Event::Chatted(Err(msg)) => p.after_first_pass(text, key, Some(msg)),
                    Event::ChatUnreachable(msg) => {
                        if matches!(p.plan.chat.as_ref().unwrap().provider, Provider::Groq) {
                            proof {
                                reveal_strlit("");
                            }
                            let Pipeline { plan, target, stage: _ } = p;
                            let plan = localize_plan(plan);
                            let lc = plan.chat.as_ref().unwrap();
                            let q = first_pass_request(lc, text.as_str(), "");
                            let s = step0(Command::Chat(q));
                            (Pipeline { plan, target, stage: Stage::RetryingLocally { text } }, s)
                        } else {
                            p.after_first_pass(text, key, Some(msg))
                        }
                    },
                    _ => {
                        proof {
                            assert(false);
                        }
                        (p, step0(Command::Finish(Ok(()))))
                    },
                }
            },
            Stage::RetryingLocally { text } => {
                let Pipeline { plan, target, stage: _ } = self;
                let p = Pipeline { plan, target, stage: Stage::Finished };
                match e {
                    Event::Chatted(Ok(answer)) => p.after_first_pass(answer, String::new(), None),
                    Event::Chatted(Err(msg)) => p.after_first_pass(text, String::new(), Some(msg)),
                    Event::ChatUnreachable(msg) => p.after_first_pass(
                        text,
                        String::new(),
                        Some(msg),
                    ),
                    _ => {
                        proof {
                            assert(false);
                        }
                        (p, step0(Command::Finish(Ok(()))))
                    },
                }
            },
            Stage::Polishing { first, key: _ } => {
                let Pipeline { plan, target, stage: _ } = self;
                let text = match e {
                    Event::Chatted(Ok(answer)) => answer,
                    _ => first,
                };
                let s = step0(Command::WriteClipboard(text.clone()));
                (Pipeline { plan, target, stage: Stage::WritingClipboard { text } }, s)
            },
            Stage::WritingClipboard { text } => {
                let Pipeline { plan, target, stage: _ } = self;
                match e {
                    Event::ClipboardWritten(Err(msg)) => {
                        let mut m = String::from_str("Clipboard-Fehler: ");
                        m.append(msg.as_str());
                        let s = step0(Command::Finish(Err(m)));
                        (Pipeline { plan, target, stage: Stage::Finished }, s)
                    },
                    _ => {
                        if plan.auto_paste {
                            let s = step2(
                                Notice::TranscriptionResult(text),
                                status("Wird eingefuegt ..."),
                                Command::Paste(target),
                            );
                            (Pipeline { plan, target, stage: Stage::Pasting }, s)
                        } else {
                            let s = step1(
                                Notice::TranscriptionResult(text),
                                Command::Finish(Ok(())),
                            );
                            (Pipeline { plan, target, stage: Stage::Finished }, s)
                        }
                    },
                }
            },
            Stage::Pasting => {
                let Pipeline { plan, target, stage: _ } = self;
                let s = match e {
                    Event::Pasted(Err(msg)) => {
                        let mut m = String::from_str(
                            "Text ist in der Zwischenablage - bitte Strg+V druecken. (",
                        );
                        m.append(msg.as_str());
                        m.append(")");
                        step1(Notice::ShowError(m), Command::Finish(Ok(())))
                    },
                    Event::PasteAborted(msg) => step0(Command::Finish(Err(msg))),
                    _ => step0(Command::Finish(Ok(()))),
                };
                (Pipeline { plan, target, stage: Stage::Finished }, s)
            },
            Stage::Finished => {
                proof {
                    assert(false);
                }
                (self, step0(Command::Finish(Ok(()))))
            },
        }
    }
}

// ── Laws ────────────────────────────────────────────────────────────────────

/// The key ids of a plan name the providers it uses, and a cloud transcriber
/// is never the local server.
pub open spec fn plan_consistent(plan: PlanView) -> bool {
    &&& match plan.transcriber {
        TranscriberView::Cloud { provider, key_id } => provider == provider_of_id(key_id)
            && provider != Provider::Local,
        TranscriberView::Local { .. } => true,
    }
    &&& match plan.chat {
        Some(c) => c.provider == Provider::Local || c.provider == provider_of_id(c.key_id),
        None => true,
    }
}

/// How far the processing is from its end.
pub open spec fn rank(stage: StageView) -> nat {
    match stage {
        StageView::Saving => 10,
        StageView::TranscriptionKey { .. } => 9,
        StageView::Transcribing => 8,
        StageView::Removing { .. } => 7,
        StageView::ChatKey { .. } => 6,
        StageView::Chatting { .. } => 5,
        StageView::RetryingLocally { .. } => 4,
        StageView::Polishing { .. } => 3,
        StageView::WritingClipboard { .. } => 2,
        StageView::Pasting => 1,
        StageView::Finished => 0,
    }
}

/// Every plan decided from settings is consistent.
pub proof fn lemma_plan_consistent(s: SettingsView, mode: Mode)
    ensures
        plan_consistent(plan_of(s, mode)),
{
}

/// Every step brings the processing closer to its end, and the command is
/// `Finish` exactly when the end is reached: the processing always ends, after
/// at most ten commands.
pub proof fn lemma_progress(p: PipelineView, e: EventView)
    requires
        well_formed(p),
        accepts(p.stage, e),
    ensures
        rank(step_of(p, e).0.stage) < rank(p.stage),
        (step_of(p, e).1.command is Finish) <==> step_of(p, e).0.stage is Finished,
{
}

/// The start decides the same way: a short recording ends at once.
pub proof fn lemma_start_progress(plan: PlanView, target: Option<isize>, duration_ms: u64)
    ensures
        (start_of(plan, target, duration_ms).1.command is Finish) <==> start_of(
            plan,
            target,
            duration_ms,
        ).0.stage is Finished,
        duration_ms < 400 <==> start_of(plan, target, duration_ms).0.stage is Finished,
{
}

/// The saved audio file is removed after every transcription attempt,
/// whether it succeeded or not, and also when the key for it is missing.
pub proof fn lemma_recording_removed(p: PipelineView, e: EventView)
    requires
        well_formed(p),
        accepts(p.stage, e),
    ensures
        p.stage is Transcribing ==> step_of(p, e).1.command is RemoveRecording,
        (p.stage is TranscriptionKey && (e matches EventView::KeyLookedUp(Err(_))))
            ==> step_of(p, e).1.command is RemoveRecording,
        step_of(p, e).0.stage is Removing ==> step_of(p, e).1.command is RemoveRecording,
{
}

/// A failed transcription is reported and ends the processing with its error.
pub proof fn lemma_transcription_failure(p: PipelineView, msg: Seq<char>)
    requires
        p.stage == (StageView::Removing { result: Err(msg) }),
    ensures
        step_of(p, EventView::Removed).1 == steps(
            seq![NoticeView::ShowError(msg)],
            CommandView::Finish(Err(msg)),
        ),
{
}

/// When the text model fails, the transcript itself goes on in its place.
pub proof fn lemma_chat_failure_keeps_transcript(
    p: PipelineView,
    text: Seq<char>,
    key: Seq<char>,
    msg: Seq<char>,
)
    requires
        well_formed(p),
        p.stage == (StageView::Chatting { text, key }),
    ensures
        ({
            let (q, st) = step_of(p, EventView::Chatted(Err(msg)));
            &&& st.notices[0] == NoticeView::ShowError(msg)
            &&& match st.command {
                CommandView::WriteClipboard(t) => t == text,
                CommandView::Chat(r) => r.messages[1].1 == text,
                _ => false,
            }
        }),
{
}

/// When the polishing pass fails, the first pass's text is kept.
pub proof fn lemma_polish_failure_keeps_first(
    p: PipelineView,
    first: Seq<char>,
    key: Seq<char>,
    msg: Seq<char>,
)
    requires
        p.stage == (StageView::Polishing { first, key }),
    ensures
        step_of(p, EventView::Chatted(Err(msg))).1.command == CommandView::WriteClipboard(first),
{
}

/// Dictation has no text-model pass, and a processing without one never asks
/// the text model.
pub proof fn lemma_dictate_never_chats(s: SettingsView, p: PipelineView, e: EventView)
    requires
        well_formed(p),
        accepts(p.stage, e),
        p.plan.chat is None,
    ensures
        plan_of(s, Mode::Dictate).chat is None,
        !(step_of(p, e).1.command is Chat),
{
}

/// A local provider needs no key: no key is looked up for it.
pub proof fn lemma_local_needs_no_key(p: PipelineView, e: EventView)
    requires
        well_formed(p),
        plan_consistent(p.plan),
        accepts(p.stage, e),
    ensures
        (step_of(p, e).1.command matches CommandView::LookupKey(id)) ==> provider_of_id(
            step_of(p, e).1.command->LookupKey_0,
        ) != Provider::Local,
{
}

/// The English-to-German mode transcribes English speech; the others use the
/// language of the settings.
pub proof fn lemma_transcription_language(s: SettingsView, mode: Mode)
    ensures
        plan_of(s, mode).language == (if mode == Mode::TranslateEnDe {
            "en"@
        } else {
            s.language
        }),
{
}

/// The text is put on the clipboard, and shown, before it is pasted; a paste
/// is asked only where the settings enable it.
pub proof fn lemma_clipboard_before_paste(p: PipelineView, e: EventView)
    requires
        well_formed(p),
        accepts(p.stage, e),
        step_of(p, e).1.command is Paste,
    ensures
        p.stage is WritingClipboard,
        e == EventView::ClipboardWritten(Ok(())),
        step_of(p, e).1.notices[0] == NoticeView::TranscriptionResult(p.stage->WritingClipboard_text),
        p.plan.auto_paste,
        step_of(p, e).1.command == CommandView::Paste(p.target),
{
    if let EventView::ClipboardWritten(Ok(u)) = e {
        assert(u == ());
    }
}

/// A failed paste does not fail the processing: the text stays on the
/// clipboard and the user is told to paste it by hand.
pub proof fn lemma_paste_failure_not_fatal(p: PipelineView, msg: Seq<char>)
    requires
        p.stage is Pasting,
    ensures
        step_of(p, EventView::Pasted(Err(msg))).1 == steps(
            seq![NoticeView::ShowError(paste_fallback(msg))],
            CommandView::Finish(Ok(())),
        ),
{
}

/// The local whisper URL never names `localhost`, whatever the settings hold.
pub proof fn lemma_loopback_url(url: Seq<char>)
    ensures
        !occurs_in(loopback_url(url), "localhost"@),
{
    reveal_strlit("localhost");
    reveal_strlit("127.0.0.1");
    assert(disjoint_chars("localhost"@, "127.0.0.1"@));
    lemma_replace_all_removes(url, "localhost"@, "127.0.0.1"@);
}

/// The local text-model request for `text`: no key, the local model.
pub open spec fn is_local_first_pass(r: ChatRequestView, c: ChatPlanView, text: Seq<char>) -> bool {
    &&& r.url == base_url_of(Provider::Local) + "/chat/completions"@
    &&& r.authorization == bearer(Seq::empty())
    &&& r.model == c.local_model
    &&& r.messages == seq![("system"@, c.system_prompt), ("user"@, text)]
}

/// With no Groq key stored, the text-model pass runs on the local server,
/// and so does a polishing pass after it.
pub proof fn lemma_missing_groq_key_runs_locally(p: PipelineView, text: Seq<char>, msg: Seq<char>)
    requires
        well_formed(p),
        p.stage == (StageView::ChatKey { text }),
        p.plan.chat.unwrap().provider == Provider::Groq,
    ensures
        ({
            let (q, st) = step_of(p, EventView::KeyLookedUp(Err(msg)));
            &&& st.command is Chat
            &&& is_local_first_pass(st.command->Chat_0, p.plan.chat.unwrap(), text)
            &&& q.plan.chat.unwrap().provider == Provider::Local
        }),
{
}

/// When Groq cannot be reached, the text-model pass is asked again of the
/// local server; the polishing pass after it runs there too.
pub proof fn lemma_unreachable_groq_runs_locally(
    p: PipelineView,
    text: Seq<char>,
    key: Seq<char>,
    msg: Seq<char>,
)
    requires
        well_formed(p),
        p.stage == (StageView::Chatting { text, key }),
        p.plan.chat.unwrap().provider == Provider::Groq,
    ensures
        ({
            let (q, st) = step_of(p, EventView::ChatUnreachable(msg));
            &&& st.command is Chat
            &&& is_local_first_pass(st.command->Chat_0, p.plan.chat.unwrap(), text)
            &&& q.plan.chat.unwrap().provider == Provider::Local
            &&& q.stage == (StageView::RetryingLocally { text })
        }),
{
}

/// When the local retry fails too, the transcript goes on in its place.
pub proof fn lemma_local_retry_failure_keeps_transcript(
    p: PipelineView,
    text: Seq<char>,
    e: EventView,
)
    requires
        well_formed(p),
        p.stage == (StageView::RetryingLocally { text }),
        e matches EventView::Chatted(Err(_)) || e is ChatUnreachable,
    ensures
        match step_of(p, e).1.command {
            CommandView::WriteClipboard(t) => t == text,
            CommandView::Chat(r) => r.messages[1].1 == text,
            _ => false,
        },
{
}

/// In a mode with a text-model pass, a dictation that starts with the
/// codeword `vertraulich` is passed to the local text model, without the
/// codeword.
pub proof fn lemma_codeword_runs_locally(p: PipelineView, t: Seq<char>, rest: Seq<char>)
    requires
        well_formed(p),
        p.stage == (StageView::Removing { result: Ok(t) }),
        p.plan.chat is Some,
        codeword_rest(t) == Some(rest),
        trimmed(rest).len() > 0,
    ensures
        ({
            let (q, st) = step_of(p, EventView::Removed);
            &&& st.command is Chat
            &&& is_local_first_pass(st.command->Chat_0, p.plan.chat.unwrap(), rest)
            &&& q.plan.chat.unwrap().provider == Provider::Local
        }),
{
}

/// Without a text-model pass, a transcript that is not blank goes to the
/// clipboard exactly as it came, codeword or not.
pub proof fn lemma_plain_dictation_unchanged(p: PipelineView, t: Seq<char>)
    requires
        well_formed(p),
        p.stage == (StageView::Removing { result: Ok(t) }),
        p.plan.chat is None,
        trimmed(t).len() > 0,
    ensures
        step_of(p, EventView::Removed).1 == steps(Seq::empty(), CommandView::WriteClipboard(t)),
        step_of(p, EventView::Removed).0.stage == (StageView::WritingClipboard { text: t }),
{
}

/// What a recording's processing is decided from: a text-model pass exactly
/// in the modes other than plain dictation, with that mode's prompt, label
/// and temperature, on the text-model provider and model of the settings and
/// with its key; the transcriber, model and auto-paste of the settings.
pub proof fn lemma_plan_follows_settings(s: SettingsView, mode: Mode)
    ensures
        (plan_of(s, mode).chat is Some) <==> mode != Mode::Dictate,
        mode != Mode::Dictate ==> ({
            let c = plan_of(s, mode).chat.unwrap();
            &&& c.system_prompt == system_prompt_of(mode)
            &&& c.temperature == temperature_of(mode)
            &&& c.processing_label == processing_label_of(mode)
            &&& c.polish == (mode == Mode::Vent)
            &&& c.key_id == s.chat_provider
            &&& (c.provider == Provider::Local <==> s.chat_provider == "local"@)
            &&& (c.provider == Provider::OpenAi <==> s.chat_provider == "openai"@)
            &&& c.model == (if s.chat_provider == "local"@ {
                s.local_chat_model
            } else {
                s.chat_model
            })
            &&& c.local_model == s.local_chat_model
        }),
        mode == Mode::Translate ==> plan_of(s, mode).chat == Some(
            ChatPlanView {
                system_prompt: TRANSLATE_PROMPT@,
                temperature: 0,
                ..plan_of(s, mode).chat.unwrap()
            },
        ),
        (plan_of(s, mode).transcriber is Local) <==> s.provider == "local"@,
        s.provider == "local"@ ==> plan_of(s, mode).transcriber == (TranscriberView::Local {
            url: loopback_url(s.local_stt_url),
        }),
        s.provider == "openai"@ ==> plan_of(s, mode).transcriber == (TranscriberView::Cloud {
            provider: Provider::OpenAi,
            key_id: "openai"@,
        }),
        s.provider != "local"@ && s.provider != "openai"@ ==> plan_of(s, mode).transcriber == (
        TranscriberView::Cloud { provider: Provider::Groq, key_id: s.provider }),
        plan_of(s, mode).transcription_model == s.transcription_model,
        plan_of(s, mode).auto_paste == s.auto_paste_enabled,
{
    reveal_strlit("local");
    reveal_strlit("openai");
    assert("local"@.len() != "openai"@.len());
}

/// A cloud transcription goes to the provider it was planned for, with the
/// key found for it: `.../audio/transcriptions` under that provider's base
/// URL, authorised as `Bearer <key>`, with the planned model.
pub proof fn lemma_cloud_transcription_uses_its_provider(
    p: PipelineView,
    provider: Provider,
    key: Seq<char>,
)
    requires
        p.stage == (StageView::TranscriptionKey { provider }),
        provider != Provider::Local,
    ensures
        ({
            let (q, st) = step_of(p, EventView::KeyLookedUp(Ok(key)));
            &&& st.command is Transcribe
            &&& st.command->Transcribe_0.url == base_url_of(provider) + "/audio/transcriptions"@
            &&& st.command->Transcribe_0.authorization == "Bearer "@ + key
            &&& st.command->Transcribe_0.model == p.plan.transcription_model
            &&& q.stage is Transcribing
        }),
        provider == Provider::OpenAi ==> step_of(
            p,
            EventView::KeyLookedUp(Ok(key)),
        ).1.command->Transcribe_0.url == "https://api.openai.com/v1/audio/transcriptions"@,
        provider == Provider::Groq ==> step_of(
            p,
            EventView::KeyLookedUp(Ok(key)),
        ).1.command->Transcribe_0.url == "https://api.groq.com/openai/v1/audio/transcriptions"@,
{
    reveal_strlit("https://api.openai.com/v1");
    reveal_strlit("https://api.groq.com/openai/v1");
    reveal_strlit("/audio/transcriptions");
    reveal_strlit("https://api.openai.com/v1/audio/transcriptions");
    reveal_strlit("https://api.groq.com/openai/v1/audio/transcriptions");
    assert("https://api.openai.com/v1"@ + "/audio/transcriptions"@
        =~= "https://api.openai.com/v1/audio/transcriptions"@);
    assert("https://api.groq.com/openai/v1"@ + "/audio/transcriptions"@
        =~= "https://api.groq.com/openai/v1/audio/transcriptions"@);
}

/// From the saved recording to the cloud transcription: the key is looked up
/// under the planned key id, and the audio then goes to the planned
/// provider with the key that was found.
pub proof fn lemma_cloud_transcription_from_saved(
    p: PipelineView,
    provider: Provider,
    key_id: Seq<char>,
    key: Seq<char>,
)
    requires
        p.stage is Saving,
        p.plan.transcriber == (TranscriberView::Cloud { provider, key_id }),
        provider != Provider::Local,
    ensures
        ({
            let (p1, st1) = step_of(p, EventView::Saved(Ok(())));
            let (p2, st2) = step_of(p1, EventView::KeyLookedUp(Ok(key)));
            &&& st1.command == CommandView::LookupKey(key_id)
            &&& st2.command is Transcribe
            &&& st2.command->Transcribe_0.url == base_url_of(provider) + "/audio/transcriptions"@
            &&& st2.command->Transcribe_0.authorization == "Bearer "@ + key
            &&& p2.stage is Transcribing
        }),
{
    let (p1, st1) = step_of(p, EventView::Saved(Ok(())));
    lemma_cloud_transcription_uses_its_provider(p1, provider, key);
}

/// The local whisper server is asked at its planned URL, with no key.
pub proof fn lemma_local_transcription_request(p: PipelineView, url: Seq<char>)
    requires
        p.stage is Saving,
        p.plan.transcriber == (TranscriberView::Local { url }),
    ensures
        ({
            let (q, st) = step_of(p, EventView::Saved(Ok(())));
            &&& st.command is Transcribe
            &&& st.command->Transcribe_0.url == url + "/audio/transcriptions"@
            &&& st.command->Transcribe_0.authorization == "Bearer "@
            &&& st.command->Transcribe_0.model == p.plan.transcription_model
            &&& q.stage is Transcribing
        }),
{
    reveal_strlit("Bearer ");
    assert("Bearer "@ + Seq::<char>::empty() =~= "Bearer "@);
}

/// Every transcription request, local or cloud, carries the planned model
/// and the planned language without surrounding white space; the language is
/// left out only where nothing remains of it.
pub proof fn lemma_transcription_carries_language(p: PipelineView, e: EventView)
    requires
        well_formed(p),
        accepts(p.stage, e),
        step_of(p, e).1.command is Transcribe,
    ensures
        step_of(p, e).1.command->Transcribe_0.model == p.plan.transcription_model,
        trimmed(p.plan.language).len() > 0 ==> step_of(p, e).1.command->Transcribe_0.language
            == Some(trimmed(p.plan.language)),
        trimmed(p.plan.language).len() == 0 ==> step_of(
            p,
            e,
        ).1.command->Transcribe_0.language is None,
{
}

/// The first text-model pass uses the key that was found for the planned
/// provider: the request goes to that provider's chat endpoint, authorised
/// as `Bearer <key>`, with the planned model, prompt and temperature, and
/// the key is kept for a polishing pass.
pub proof fn lemma_first_pass_uses_found_key(p: PipelineView, text: Seq<char>, key: Seq<char>)
    requires
        well_formed(p),
        p.stage == (StageView::ChatKey { text }),
    ensures
        ({
            let c = p.plan.chat.unwrap();
            let (q, st) = step_of(p, EventView::KeyLookedUp(Ok(key)));
            &&& q.stage == (StageView::Chatting { text, key })
            &&& q.plan == p.plan
            &&& st.command is Chat
            &&& st.command->Chat_0.url == base_url_of(c.provider) + "/chat/completions"@
            &&& st.command->Chat_0.authorization == "Bearer "@ + key
            &&& st.command->Chat_0.model == c.model
            &&& st.command->Chat_0.messages == seq![("system"@, c.system_prompt), ("user"@, text)]
            &&& st.command->Chat_0.temperature == c.temperature
        }),
{
}

/// The polishing pass asks the same provider and model with the same key as
/// the first pass: the key of the first pass is carried into the polishing
/// stage (none after the local retry), and the polishing request goes to the
/// provider's chat endpoint, authorised as `Bearer <key>`, with the polishing
/// prompt, the first pass's text and temperature 0.2.
pub proof fn lemma_polish_uses_first_pass_key(p: PipelineView, e: EventView)
    requires
        well_formed(p),
        accepts(p.stage, e),
        step_of(p, e).0.stage is Polishing,
    ensures
        ({
            let (q, st) = step_of(p, e);
            let c = q.plan.chat.unwrap();
            let first = q.stage->Polishing_first;
            let key = q.stage->Polishing_key;
            &&& st.command is Chat
            &&& st.command->Chat_0.url == base_url_of(c.provider) + "/chat/completions"@
            &&& st.command->Chat_0.authorization == "Bearer "@ + key
            &&& st.command->Chat_0.model == c.model
            &&& st.command->Chat_0.messages == seq![
                ("system"@, VENT_POLISH_PROMPT@),
                ("user"@, first),
            ]
            &&& st.command->Chat_0.temperature == 20
            &&& q.plan == p.plan
            &&& (p.stage matches StageView::Chatting { key: k, .. } ==> key == k)
            &&& (p.stage is RetryingLocally ==> key == Seq::<char>::empty())
        }),
{
}

/// The answer of the first text-model pass is what goes on: into the
/// polishing pass, with the same key, where the plan has one, else onto the
/// clipboard.
pub proof fn lemma_first_pass_answer_goes_on(
    p: PipelineView,
    text: Seq<char>,
    key: Seq<char>,
    answer: Seq<char>,
)
    requires
        well_formed(p),
        p.stage == (StageView::Chatting { text, key }),
    ensures
        ({
            let (q, st) = step_of(p, EventView::Chatted(Ok(answer)));
            &&& p.plan.chat.unwrap().polish ==> q.stage == (StageView::Polishing {
                first: answer,
                key,
            }) && st.command is Chat && st.command->Chat_0.messages[1] == ("user"@, answer)
            &&& !p.plan.chat.unwrap().polish ==> q.stage == (StageView::WritingClipboard {
                text: answer,
            }) && st.command == CommandView::WriteClipboard(answer)
        }),
{
}

/// The polished text is what goes onto the clipboard.
pub proof fn lemma_polished_text_goes_to_clipboard(
    p: PipelineView,
    first: Seq<char>,
    key: Seq<char>,
    answer: Seq<char>,
)
    requires
        p.stage == (StageView::Polishing { first, key }),
    ensures
        step_of(p, EventView::Chatted(Ok(answer))).0.stage == (StageView::WritingClipboard {
            text: answer,
        }),
        step_of(p, EventView::Chatted(Ok(answer))).1.command == CommandView::WriteClipboard(answer),
{
}

/// Without a text-model pass, a transcript that is not blank reaches the
/// clipboard unchanged once the recording has been removed.
pub proof fn lemma_transcript_reaches_clipboard(p: PipelineView, t: Seq<char>)
    requires
        well_formed(p),
        p.stage is Transcribing,
        p.plan.chat is None,
        trimmed(t).len() > 0,
    ensures
        ({
            let (p1, st1) = step_of(p, EventView::Transcribed(Ok(t)));
            let (p2, st2) = step_of(p1, EventView::Removed);
            &&& st1.command is RemoveRecording
            &&& st2.command == CommandView::WriteClipboard(t)
            &&& p2.stage == (StageView::WritingClipboard { text: t })
        }),
{
    let (p1, st1) = step_of(p, EventView::Transcribed(Ok(t)));
    lemma_plain_dictation_unchanged(p1, t);
}

/// Once the text is on the clipboard it is shown, and pasted into the
/// window that was in front at the start exactly where the settings enable
/// auto-paste; otherwise the processing ends there.
pub proof fn lemma_auto_paste(p: PipelineView, text: Seq<char>)
    requires
        p.stage == (StageView::WritingClipboard { text }),
    ensures
        ({
            let (q, st) = step_of(p, EventView::ClipboardWritten(Ok(())));
            &&& st.notices[0] == NoticeView::TranscriptionResult(text)
            &&& p.plan.auto_paste ==> st.command == CommandView::Paste(p.target) && q.stage
                is Pasting
            &&& !p.plan.auto_paste ==> st.command == CommandView::Finish(Ok(())) && q.stage
                is Finished
        }),
{
}

} // verus!
