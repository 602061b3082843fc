//! The recording state and the decisions around it: a hotkey starts a
//! recording when none runs and stops it otherwise; the status window is
//! hidden a while after a recording, unless a new one has begun.

use vstd::prelude::*;
use vstd::string::*;

use crate::modes::Mode;
use crate::text::str_equal;

verus! {

/// The state shared between the hotkeys.
#[derive(Debug, PartialEq, Eq)]
pub struct Session {
    pub is_recording: bool,
    /// A recorder runs (the caller holds it).
    pub has_recorder: bool,
    /// The window to paste into afterwards.
    pub target_hwnd: Option<isize>,
    pub active_mode: Option<Mode>,
}

/// What a hotkey press does.
#[derive(Clone, Copy, Debug, PartialEq, Eq, Structural)]
pub enum Toggle {
    Start,
    Stop,
}

/// What the recording being stopped leaves for the processing.
#[derive(Debug, PartialEq, Eq)]
pub struct Stopped {
    pub target_hwnd: Option<isize>,
    pub mode: Mode,
}

pub open spec fn idle() -> Session {
    Session { is_recording: false, has_recorder: false, target_hwnd: None, active_mode: None }
}

pub open spec fn toggle_of(s: Session) -> Toggle {
    if s.is_recording {
        Toggle::Stop
    } else {
        Toggle::Start
    }
}

/// The state once a recorder runs for `mode`.
pub open spec fn recording(target: Option<isize>, mode: Mode) -> Session {
    Session { is_recording: true, has_recorder: true, target_hwnd: target, active_mode: Some(mode) }
}

/// What stopping hands on: the target window and the mode (`Dictate` where
/// none was kept), or nothing when no recorder ran.
pub open spec fn stopped_of(s: Session) -> Option<(Option<isize>, Mode)> {
    if s.has_recorder {
        Some(
            (
                s.target_hwnd,
                match s.active_mode {
                    Some(m) => m,
                    None => Mode::Dictate,
                },
            ),
        )
    } else {
        None
    }
}

impl Session {
    pub fn new() -> (s: Session)
        ensures
            s == idle(),
    {
        Session { is_recording: false, has_recorder: false, target_hwnd: None, active_mode: None }
    }

    /// A press starts a recording when none runs and stops it otherwise.
    pub fn on_hotkey(&self) -> (t: Toggle)
        ensures
            t == toggle_of(*self),
    {
        if self.is_recording {
            Toggle::Stop
        } else {
            Toggle::Start
        }
    }

    /// A recorder has started for `mode`, to paste into `target` afterwards.
    pub fn begin(&mut self, target: Option<isize>, mode: Mode)
        ensures
            *final(self) == recording(target, mode),
    {
        self.has_recorder = true;
        self.target_hwnd = target;
        self.active_mode = Some(mode);
        self.is_recording = true;
    }

    /// Stops the recording: the state becomes idle, and what the recording
    /// left is handed on; nothing when no recorder ran. A missing mode is
    /// taken as `Dictate`.
    pub fn end(&mut self) -> (r: Option<Stopped>)
        ensures
            *final(self) == idle(),
            match r {
                Some(st) => stopped_of(*old(self)) == Some((st.target_hwnd, st.mode)),
                None => stopped_of(*old(self)) is None,
            },
    {
        let had = self.has_recorder;
        let target = self.target_hwnd;
        let mode = self.active_mode;
        self.is_recording = false;
        self.has_recorder = false;
        self.target_hwnd = None;
        self.active_mode = None;
        if !had {
            return None;
        }
        let mode = match mode {
            Some(m) => m,
            None => Mode::Dictate,
        };
        Some(Stopped { target_hwnd: target, mode })
    }

    /// Whether the status window may be hidden after its delay: not while a
    /// new recording runs.
    pub fn hud_may_hide(&self) -> (r: bool)
        ensures
            r == !self.is_recording,
    {
        !self.is_recording
    }
}

/// Why a recording cannot start: a cloud transcription provider without a
/// stored key. The local provider needs none.
pub open spec fn start_refusal_of(provider: Seq<char>, has_key: bool) -> Option<Seq<char>> {
    if provider != "local"@ && !has_key {
        Some(
            "Kein API-Schluessel fuer "@ + provider
                + ". Bitte in den Einstellungen eintragen."@,
        )
    } else {
        None
    }
}

/// Checks the settings before a recording starts.
pub fn start_refusal(provider: &str, has_key: bool) -> (r: Option<String>)
    ensures
        match r {
            Some(m) => start_refusal_of(provider@, has_key) == Some(m@),
            None => start_refusal_of(provider@, has_key) is None,
        },
{
    if !str_equal(provider, "local") && !has_key {
        let mut m = String::from_str("Kein API-Schluessel fuer ");
        m.append(provider);
        m.append(". Bitte in den Einstellungen eintragen.");
        Some(m)
    } else {
        None
    }
}

// ── Windows and tray ────────────────────────────────────────────────────────

/// What a click on the tray icon does to the status window.
#[derive(Clone, Copy, Debug, PartialEq, Eq, Structural)]
pub enum WindowToggle {
    Hide,
    ShowAndFocus,
}

pub fn toggle_main_window(visible: bool) -> (t: WindowToggle)
    ensures
        t == (if visible {
            WindowToggle::Hide
        } else {
            WindowToggle::ShowAndFocus
        }),
{
    if visible {
        WindowToggle::Hide
    } else {
        WindowToggle::ShowAndFocus
    }
}

/// The entries of the tray menu.
#[derive(Clone, Copy, Debug, PartialEq, Eq, Structural)]
pub enum MenuCommand {
    Quit,
    OpenSettings,
    ShowMain,
    Ignore,
}

pub open spec fn menu_command_of(id: Seq<char>) -> MenuCommand {
    if id == "quit"@ {
        MenuCommand::Quit
    } else if id == "settings"@ {
        MenuCommand::OpenSettings
    } else if id == "show"@ {
        MenuCommand::ShowMain
    } else {
        MenuCommand::Ignore
    }
}

pub fn menu_command(id: &str) -> (c: MenuCommand)
    ensures
        c == menu_command_of(id@),
{
    if str_equal(id, "quit") {
        MenuCommand::Quit
    } else if str_equal(id, "settings") {
        MenuCommand::OpenSettings
    } else if str_equal(id, "show") {
        MenuCommand::ShowMain
    } else {
        MenuCommand::Ignore
    }
}

/// Halving rounded toward zero.
pub open spec fn half_toward_zero(d: int) -> int {
    if d >= 0 {
        d / 2
    } else {
        -((-d) / 2)
    }
}

/// Where the status window is placed: at the right edge of the monitor,
/// `margin` pixels in, and centred in height.
pub open spec fn right_center_of(
    monitor_x: int,
    monitor_y: int,
    monitor_w: int,
    monitor_h: int,
    win_w: int,
    win_h: int,
    margin: int,
) -> (int, int) {
    (
        monitor_x + monitor_w - win_w - margin,
        monitor_y + half_toward_zero(monitor_h - win_h),
    )
}

pub open spec fn fits_i32(v: int) -> bool {
    i32::MIN <= v <= i32::MAX
}

pub fn position_right_center(
    monitor_x: i32,
    monitor_y: i32,
    monitor_w: u32,
    monitor_h: u32,
    win_w: u32,
    win_h: u32,
    margin: i32,
) -> (r: (i32, i32))
    requires
        monitor_w <= i32::MAX,
        monitor_h <= i32::MAX,
        win_w <= i32::MAX,
        win_h <= i32::MAX,
        fits_i32(monitor_x + monitor_w),
        fits_i32(monitor_x + monitor_w - win_w),
        fits_i32(monitor_x + monitor_w - win_w - margin),
        fits_i32(monitor_y + half_toward_zero(monitor_h - win_h)),
    ensures
        (r.0 as int, r.1 as int) == right_center_of(
            monitor_x as int,
            monitor_y as int,
            monitor_w as int,
            monitor_h as int,
            win_w as int,
            win_h as int,
            margin as int,
        ),
{
    let mw = monitor_w as i32;
    let mh = monitor_h as i32;
    let ww = win_w as i32;
    let wh = win_h as i32;
    let x = monitor_x + mw - ww - margin;
    let d = mh - wh;
    let half = if d >= 0 {
        d / 2
    } else {
        -((-d) / 2)
    };
    let y = monitor_y + half;
    (x, y)
}

// ── Laws ────────────────────────────────────────────────────────────────────

/// Starting a recording and stopping it hands back the window and the mode
/// it started with and leaves the state idle; a hotkey stops a running
/// recording and starts one when idle.
pub proof fn lemma_begin_end(target: Option<isize>, mode: Mode)
    ensures
        stopped_of(recording(target, mode)) == Some((target, mode)),
        toggle_of(recording(target, mode)) == Toggle::Stop,
        toggle_of(idle()) == Toggle::Start,
        stopped_of(idle()) is None,
{
}

/// Every transcription provider but the local one needs a stored key before
/// a recording may start: without one the start is refused with a message
/// that names the provider, with one it is not refused. The local provider
/// is never refused.
pub proof fn lemma_cloud_provider_needs_key(provider: Seq<char>, has_key: bool)
    ensures
        provider != "local"@ ==> start_refusal_of(provider, false) == Some(
            "Kein API-Schluessel fuer "@ + provider + ". Bitte in den Einstellungen eintragen."@,
        ),
        provider != "local"@ ==> start_refusal_of(provider, true) is None,
        start_refusal_of("local"@, has_key) is None,
{
}

} // verus!
