use blixt::modes::Mode;
use blixt::session::{
    menu_command, position_right_center, start_refusal, toggle_main_window, MenuCommand, Session,
    Toggle, WindowToggle,
};

#[test]
fn hotkey_toggles_recording() {
    let mut s = Session::new();
    assert_eq!(s.on_hotkey(), Toggle::Start);
    assert!(s.hud_may_hide());
    s.begin(Some(5), Mode::Vent);
    assert_eq!(s.on_hotkey(), Toggle::Stop);
    assert!(!s.hud_may_hide());
    let st = s.end().unwrap();
    assert_eq!(st.target_hwnd, Some(5));
    assert_eq!(st.mode, Mode::Vent);
    assert_eq!(s, Session::new());
    assert_eq!(s.on_hotkey(), Toggle::Start);
    assert!(s.end().is_none());
}

#[test]
fn missing_mode_is_dictation() {
    let mut s = Session { is_recording: true, has_recorder: true, target_hwnd: None, active_mode: None };
    assert_eq!(s.end().unwrap().mode, Mode::Dictate);
}

#[test]
fn cloud_provider_needs_a_key_to_start() {
    assert_eq!(
        start_refusal("groq", false),
        Some("Kein API-Schluessel fuer groq. Bitte in den Einstellungen eintragen.".to_string())
    );
    assert_eq!(start_refusal("groq", true), None);
    assert_eq!(start_refusal("local", false), None);
}

#[test]
fn tray() {
    assert_eq!(toggle_main_window(true), WindowToggle::Hide);
    assert_eq!(toggle_main_window(false), WindowToggle::ShowAndFocus);
    assert_eq!(menu_command("quit"), MenuCommand::Quit);
    assert_eq!(menu_command("settings"), MenuCommand::OpenSettings);
    assert_eq!(menu_command("show"), MenuCommand::ShowMain);
    assert_eq!(menu_command("other"), MenuCommand::Ignore);
}

#[test]
fn status_window_position() {
    assert_eq!(position_right_center(0, 0, 1920, 1080, 320, 200, 24), (1576, 440));
    assert_eq!(position_right_center(-1920, 0, 1920, 1080, 320, 201, 36), (-356, 439));
    assert_eq!(position_right_center(0, 0, 100, 100, 50, 301, 0), (50, -100));
}
