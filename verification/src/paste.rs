//! Pasting at the cursor: remember the window in front when the recording
//! starts, bring it back to the front afterwards, and press Ctrl+V in it.
//! The text stays on the clipboard in case the paste is blocked.
//!
//! The steps are decided here; the caller performs them (window calls,
//! simulated keys, the short pauses between them).

use vstd::prelude::*;
use vstd::string::*;

verus! {

/// The window to paste into, from the window in front (`0` when there is
/// none), the process that owns it and this process: none when it is ours.
pub fn capture_foreground_window(hwnd: isize, owner_pid: u32, own_pid: u32) -> (t: Option<isize>)
    ensures
        t == (if hwnd == 0 || owner_pid == own_pid {
            None
        } else {
            Some(hwnd)
        }),
{
    if hwnd == 0 {
        return None;
    }
    if owner_pid == own_pid {
        return None;
    }
    Some(hwnd)
}

/// How many times the target window is brought to the front before giving up.
pub const FOCUS_ATTEMPTS: u32 = 5;

/// The error where pasting is not supported.
pub const PASTE_UNSUPPORTED: &'static str = "Auto-Einfuegen wird auf dieser Plattform nicht unterstuetzt.";

/// The next thing to do; each action but `Finish` is answered by an event.
#[derive(Debug, PartialEq, Eq)]
pub enum PasteAction {
    /// Pause briefly (50 ms); answered by `Waited`.
    Wait,
    /// Ask which window is in front; answered by `Foreground`.
    QueryForeground,
    /// Bring the window to the front and pause briefly; answered by `Raised`.
    Raise(isize),
    /// Set up the key simulation; answered by `KeyboardOpened`.
    OpenKeyboard,
    /// Press Ctrl; answered by `KeyDone`.
    PressControl,
    /// Press and release V; answered by `KeyDone`.
    ClickV,
    /// Release Ctrl; answered by `KeyDone`.
    ReleaseControl,
    Finish(Result<(), String>),
}

pub enum PasteActionView {
    Wait,
    QueryForeground,
    Raise(isize),
    OpenKeyboard,
    PressControl,
    ClickV,
    ReleaseControl,
    Finish(Result<(), Seq<char>>),
}

impl PasteAction {
    pub open spec fn view(&self) -> PasteActionView {
        match self {
            PasteAction::Wait => PasteActionView::Wait,
            PasteAction::QueryForeground => PasteActionView::QueryForeground,
            PasteAction::Raise(h) => PasteActionView::Raise(*h),
            PasteAction::OpenKeyboard => PasteActionView::OpenKeyboard,
            PasteAction::PressControl => PasteActionView::PressControl,
            PasteAction::ClickV => PasteActionView::ClickV,
            PasteAction::ReleaseControl => PasteActionView::ReleaseControl,
            PasteAction::Finish(r) => PasteActionView::Finish(unit_view(*r)),
        }
    }
}

pub open spec fn unit_view(r: Result<(), String>) -> Result<(), Seq<char>> {
    match r {
        Ok(()) => Ok(()),
        Err(e) => Err(e@),
    }
}

#[derive(Debug, PartialEq, Eq)]
pub enum PasteEvent {
    Waited,
    Foreground(isize),
    Raised,
    KeyboardOpened(Result<(), String>),
    KeyDone(Result<(), String>),
}

pub enum PasteEventView {
    Waited,
    Foreground(isize),
    Raised,
    KeyboardOpened(Result<(), Seq<char>>),
    KeyDone(Result<(), Seq<char>>),
}

impl PasteEvent {
    pub open spec fn view(&self) -> PasteEventView {
        match self {
            PasteEvent::Waited => PasteEventView::Waited,
            PasteEvent::Foreground(h) => PasteEventView::Foreground(*h),
            PasteEvent::Raised => PasteEventView::Raised,
            PasteEvent::KeyboardOpened(r) => PasteEventView::KeyboardOpened(unit_view(*r)),
            PasteEvent::KeyDone(r) => PasteEventView::KeyDone(unit_view(*r)),
        }
    }
}

#[derive(Debug, PartialEq, Eq)]
pub enum PasteStage {
    Settling,
    Checking { attempt: u32 },
    Raising { attempt: u32 },
    OpeningKeyboard,
    PressingControl,
    ClickingV,
    ReleasingControl { click: Result<(), String> },
    Done,
}

pub enum PasteStageView {
    Settling,
    Checking { attempt: u32 },
    Raising { attempt: u32 },
    OpeningKeyboard,
    PressingControl,
    ClickingV,
    ReleasingControl { click: Result<(), Seq<char>> },
    Done,
}

impl PasteStage {
    pub open spec fn view(&self) -> PasteStageView {
        match self {
            PasteStage::Settling => PasteStageView::Settling,
            PasteStage::Checking { attempt } => PasteStageView::Checking { attempt: *attempt },
            PasteStage::Raising { attempt } => PasteStageView::Raising { attempt: *attempt },
            PasteStage::OpeningKeyboard => PasteStageView::OpeningKeyboard,
            PasteStage::PressingControl => PasteStageView::PressingControl,
            PasteStage::ClickingV => PasteStageView::ClickingV,
            PasteStage::ReleasingControl { click } => PasteStageView::ReleasingControl {
                click: unit_view(*click),
            },
            PasteStage::Done => PasteStageView::Done,
        }
    }
}

/// A paste in progress.
#[derive(Debug, PartialEq, Eq)]
pub struct Paste {
    pub target: Option<isize>,
    pub stage: PasteStage,
}

pub struct PasteView {
    pub target: Option<isize>,
    pub stage: PasteStageView,
}

impl Paste {
    pub open spec fn view(&self) -> PasteView {
        PasteView { target: self.target, stage: self.stage.view() }
    }
}

/// Focus attempts stay below the limit, and only a known window is raised.
pub open spec fn paste_well_formed(p: PasteView) -> bool {
    match p.stage {
        PasteStageView::Checking { attempt } => attempt < FOCUS_ATTEMPTS && p.target is Some,
        PasteStageView::Raising { attempt } => attempt < FOCUS_ATTEMPTS && p.target is Some,
        _ => true,
    }
}

pub open spec fn paste_accepts(stage: PasteStageView, e: PasteEventView) -> bool {
    match stage {
        PasteStageView::Settling => e is Waited,
        PasteStageView::Checking { .. } => e is Foreground,
        PasteStageView::Raising { .. } => e is Raised,
        PasteStageView::OpeningKeyboard => e is KeyboardOpened,
        PasteStageView::PressingControl => e is KeyDone,
        PasteStageView::ClickingV => e is KeyDone,
        PasteStageView::ReleasingControl { .. } => e is KeyDone,
        PasteStageView::Done => false,
    }
}

/// The outcome once Ctrl has been released: the failure of the V key first,
/// then that of the release.
pub open spec fn key_outcome(click: Result<(), Seq<char>>, release: Result<(), Seq<char>>) -> Result<
    (),
    Seq<char>,
> {
    match click {
        Err(e) => Err("V konnte nicht gedrueckt werden: "@ + e),
        Ok(()) => match release {
            Err(e) => Err("Strg konnte nicht losgelassen werden: "@ + e),
            Ok(()) => Ok(()),
        },
    }
}

pub open spec fn paste_start_of(target: Option<isize>) -> (PasteView, PasteActionView) {
    (PasteView { target, stage: PasteStageView::Settling }, PasteActionView::Wait)
}

pub open spec fn paste_step_of(p: PasteView, e: PasteEventView) -> (PasteView, PasteActionView) {
    let at = |stage: PasteStageView| PasteView { target: p.target, stage };
    match p.stage {
        PasteStageView::Settling => match p.target {
            Some(_) => (at(PasteStageView::Checking { attempt: 0 }), PasteActionView::QueryForeground),
            None => (at(PasteStageView::OpeningKeyboard), PasteActionView::OpenKeyboard),
        },
        PasteStageView::Checking { attempt } => match e {
            PasteEventView::Foreground(front) => if Some(front) == p.target {
                (at(PasteStageView::OpeningKeyboard), PasteActionView::OpenKeyboard)
            } else {
                (
                    at(PasteStageView::Raising { attempt }),
                    PasteActionView::Raise(p.target.unwrap()),
                )
            },
            _ => (p, PasteActionView::Finish(Ok(()))),
        },
        PasteStageView::Raising { attempt } => if attempt + 1 < FOCUS_ATTEMPTS {
            (
                at(PasteStageView::Checking { attempt: (attempt + 1) as u32 }),
                PasteActionView::QueryForeground,
            )
        } else {
            (at(PasteStageView::OpeningKeyboard), PasteActionView::OpenKeyboard)
        },
        PasteStageView::OpeningKeyboard => match e {
            PasteEventView::KeyboardOpened(Err(msg)) => (
                at(PasteStageView::Done),
                PasteActionView::Finish(Err("Eingabe-Simulation nicht verfuegbar: "@ + msg)),
            ),
            _ => (at(PasteStageView::PressingControl), PasteActionView::PressControl),
        },
        PasteStageView::PressingControl => match e {
            PasteEventView::KeyDone(Err(msg)) => (
                at(PasteStageView::Done),
                PasteActionView::Finish(Err("Strg konnte nicht gedrueckt werden: "@ + msg)),
            ),
            _ => (at(PasteStageView::ClickingV), PasteActionView::ClickV),
        },
        PasteStageView::ClickingV => match e {
            PasteEventView::KeyDone(click) => (
                at(PasteStageView::ReleasingControl { click }),
                PasteActionView::ReleaseControl,
            ),
            _ => (p, PasteActionView::Finish(Ok(()))),
        },
        PasteStageView::ReleasingControl { click } => match e {
            PasteEventView::KeyDone(release) => (
                at(PasteStageView::Done),
                PasteActionView::Finish(key_outcome(click, release)),
            ),
            _ => (p, PasteActionView::Finish(Ok(()))),
        },
        PasteStageView::Done => (p, PasteActionView::Finish(Ok(()))),
    }
}

fn with_prefix(prefix: &str, msg: String) -> (m: String)
    ensures
        m@ == prefix@ + msg@,
{
    let mut m = String::from_str(prefix);
    m.append(msg.as_str());
    m
}

/// Starts a paste into `target` (or into whatever window is in front).
pub fn paste_at_cursor(target: Option<isize>) -> (r: (Paste, PasteAction))
    ensures
        (r.0.view(), r.1.view()) == paste_start_of(target),
        paste_well_formed(r.0.view()),
{
    (Paste { target, stage: PasteStage::Settling }, PasteAction::Wait)
}

impl Paste {
    pub fn accepts(&self, e: &PasteEvent) -> (r: bool)
        ensures
            r == paste_accepts(self.stage.view(), e.view()),
    {
        match (&self.stage, e) {
            (PasteStage::Settling, PasteEvent::Waited) => true,
            (PasteStage::Checking { .. }, PasteEvent::Foreground(_)) => true,
            (PasteStage::Raising { .. }, PasteEvent::Raised) => true,
            (PasteStage::OpeningKeyboard, PasteEvent::KeyboardOpened(_)) => true,
            (PasteStage::PressingControl, PasteEvent::KeyDone(_)) => true,
            (PasteStage::ClickingV, PasteEvent::KeyDone(_)) => true,
            (PasteStage::ReleasingControl { .. }, PasteEvent::KeyDone(_)) => true,
            _ => false,
        }
    }

    /// Moves the paste on by the answer `e` to the last action.
    pub fn step(self, e: PasteEvent) -> (r: (Paste, PasteAction))
        requires
            paste_well_formed(self.view()),
            paste_accepts(self.stage.view(), e.view()),
        ensures
            (r.0.view(), r.1.view()) == paste_step_of(self.view(), e.view()),
            paste_well_formed(r.0.view()),
    {
        let target = self.target;
        match self.stage {
            PasteStage::Settling => match target {
                Some(_) => (
                    Paste { target, stage: PasteStage::Checking { attempt: 0 } },
                    PasteAction::QueryForeground,
                ),
                None => (
                    Paste { target, stage: PasteStage::OpeningKeyboard },
                    PasteAction::OpenKeyboard,
                ),
            },
            PasteStage::Checking { attempt } => match e {
                PasteEvent::Foreground(front) => {
                    let h = target.unwrap();
                    if front == h {
                        (
                            Paste { target, stage: PasteStage::OpeningKeyboard },
                            PasteAction::OpenKeyboard,
                        )
                    } else {
                        (Paste { target, stage: PasteStage::Raising { attempt } }, PasteAction::Raise(h))
                    }
                },
                _ => {
                    proof {
                        assert(false);
                    }
                    (Paste { target, stage: PasteStage::Done }, PasteAction::Finish(Ok(())))
                },
            },
            PasteStage::Raising { attempt } => {
                if attempt + 1 < FOCUS_ATTEMPTS {
                    (
                        Paste { target, stage: PasteStage::Checking { attempt: attempt + 1 } },
                        PasteAction::QueryForeground,
                    )
                } else {
                    (
                        Paste { target, stage: PasteStage::OpeningKeyboard },
                        PasteAction::OpenKeyboard,
                    )
                }
            },
            PasteStage::OpeningKeyboard => match e {
                PasteEvent::KeyboardOpened(Err(msg)) => (
                    Paste { target, stage: PasteStage::Done },
                    PasteAction::Finish(
                        Err(with_prefix("Eingabe-Simulation nicht verfuegbar: ", msg)),
                    ),
                ),
                _ => (
                    Paste { target, stage: PasteStage::PressingControl },
                    PasteAction::PressControl,
                ),
            },
            PasteStage::PressingControl => match e {
                PasteEvent::KeyDone(Err(msg)) => (
                    Paste { target, stage: PasteStage::Done },
                    PasteAction::Finish(Err(with_prefix("Strg konnte nicht gedrueckt werden: ", msg))),
                ),
                _ => (Paste { target, stage: PasteStage::ClickingV }, PasteAction::ClickV),
            },
            PasteStage::ClickingV => match e {
                PasteEvent::KeyDone(click) => (
                    Paste { target, stage: PasteStage::ReleasingControl { click } },
                    PasteAction::ReleaseControl,
                ),
                _ => {
                    proof {
                        assert(false);
                    }
                    (Paste { target, stage: PasteStage::Done }, PasteAction::Finish(Ok(())))
                },
            },
            PasteStage::ReleasingControl { click } => match e {
                PasteEvent::KeyDone(release) => {
                    let outcome = match click {
                        Err(msg) => Err(with_prefix("V konnte nicht gedrueckt werden: ", msg)),
                        Ok(()) => match release {
                            Err(msg) => Err(
                                with_prefix("Strg konnte nicht losgelassen werden: ", msg),
                            ),
                            Ok(()) => Ok(()),
                        },
                    };
                    (Paste { target, stage: PasteStage::Done }, PasteAction::Finish(outcome))
                },
                _ => {
                    proof {
                        assert(false);
                    }
                    (Paste { target, stage: PasteStage::Done }, PasteAction::Finish(Ok(())))
                },
            },
            PasteStage::Done => {
                proof {
                    assert(false);
                }
                (Paste { target, stage: PasteStage::Done }, PasteAction::Finish(Ok(())))
            },
        }
    }
}

// ── Laws ────────────────────────────────────────────────────────────────────

/// How far the paste is from its end.
pub open spec fn paste_rank(stage: PasteStageView) -> nat {
    match stage {
        PasteStageView::Settling => (2 * FOCUS_ATTEMPTS + 6) as nat,
        PasteStageView::Checking { attempt } => (2 * (FOCUS_ATTEMPTS - attempt) + 5) as nat,
        PasteStageView::Raising { attempt } => (2 * (FOCUS_ATTEMPTS - attempt) + 4) as nat,
        PasteStageView::OpeningKeyboard => 4,
        PasteStageView::PressingControl => 3,
        PasteStageView::ClickingV => 2,
        PasteStageView::ReleasingControl { .. } => 1,
        PasteStageView::Done => 0,
    }
}

/// Every step brings the paste closer to its end; the action is `Finish`
/// exactly when the end is reached. With at most five focus attempts the
/// paste ends after at most sixteen actions.
pub proof fn lemma_paste_progress(p: PasteView, e: PasteEventView)
    requires
        paste_well_formed(p),
        paste_accepts(p.stage, e),
    ensures
        paste_rank(paste_step_of(p, e).0.stage) < paste_rank(p.stage),
        (paste_step_of(p, e).1 is Finish) <==> paste_step_of(p, e).0.stage is Done,
{
}

/// Ctrl is always released once it is pressed: a successful press is
/// followed by the V key, and the V key, whatever its outcome, by the
/// release; only after the release does the paste finish.
pub proof fn lemma_control_released(p: PasteView, e: PasteEventView)
    requires
        paste_well_formed(p),
        paste_accepts(p.stage, e),
    ensures
        p.stage is PressingControl && e == PasteEventView::KeyDone(Ok(())) ==> paste_step_of(
            p,
            e,
        ).1 is ClickV,
        p.stage is ClickingV ==> paste_step_of(p, e).1 is ReleaseControl,
        paste_step_of(p, e).0.stage is ClickingV ==> p.stage is PressingControl,
        (paste_step_of(p, e).1 is Finish && p.stage is PressingControl) ==> e matches PasteEventView::KeyDone(Err(_)),
{
}

/// Only the remembered window is raised, and only while it is not in front.
pub proof fn lemma_raise_only_target(p: PasteView, e: PasteEventView)
    requires
        paste_well_formed(p),
        paste_accepts(p.stage, e),
        paste_step_of(p, e).1 is Raise,
    ensures
        p.target == Some(paste_step_of(p, e).1->Raise_0),
        e != PasteEventView::Foreground(paste_step_of(p, e).1->Raise_0),
{
}

} // verus!
