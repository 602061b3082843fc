use blixt::paste::{capture_foreground_window, paste_at_cursor, Paste, PasteAction, PasteEvent};

fn run(p: Paste, e: PasteEvent) -> (Paste, PasteAction) {
    assert!(p.accepts(&e));
    p.step(e)
}

#[test]
fn foreground_window_capture() {
    assert_eq!(capture_foreground_window(0, 5, 9), None);
    assert_eq!(capture_foreground_window(77, 9, 9), None);
    assert_eq!(capture_foreground_window(77, 5, 9), Some(77));
}

#[test]
fn paste_into_window_already_in_front() {
    let (p, a) = paste_at_cursor(Some(10));
    assert_eq!(a, PasteAction::Wait);
    let (p, a) = run(p, PasteEvent::Waited);
    assert_eq!(a, PasteAction::QueryForeground);
    let (p, a) = run(p, PasteEvent::Foreground(10));
    assert_eq!(a, PasteAction::OpenKeyboard);
    let (p, a) = run(p, PasteEvent::KeyboardOpened(Ok(())));
    assert_eq!(a, PasteAction::PressControl);
    let (p, a) = run(p, PasteEvent::KeyDone(Ok(())));
    assert_eq!(a, PasteAction::ClickV);
    let (p, a) = run(p, PasteEvent::KeyDone(Ok(())));
    assert_eq!(a, PasteAction::ReleaseControl);
    let (_, a) = run(p, PasteEvent::KeyDone(Ok(())));
    assert_eq!(a, PasteAction::Finish(Ok(())));
}

#[test]
fn focus_is_tried_five_times() {
    let (p, _) = paste_at_cursor(Some(10));
    let (mut p, _) = run(p, PasteEvent::Waited);
    for _ in 0..5 {
        let (q, a) = run(p, PasteEvent::Foreground(99));
        assert_eq!(a, PasteAction::Raise(10));
        let (q, a) = run(q, PasteEvent::Raised);
        p = q;
        if a == PasteAction::OpenKeyboard {
            return;
        }
        assert_eq!(a, PasteAction::QueryForeground);
    }
    panic!("more than five attempts");
}

#[test]
fn without_target_keys_are_sent_at_once() {
    let (p, _) = paste_at_cursor(None);
    let (_, a) = run(p, PasteEvent::Waited);
    assert_eq!(a, PasteAction::OpenKeyboard);
}

#[test]
fn control_is_released_when_v_fails() {
    let (p, _) = paste_at_cursor(None);
    let (p, _) = run(p, PasteEvent::Waited);
    let (p, _) = run(p, PasteEvent::KeyboardOpened(Ok(())));
    let (p, _) = run(p, PasteEvent::KeyDone(Ok(())));
    let (p, a) = run(p, PasteEvent::KeyDone(Err("blocked".to_string())));
    assert_eq!(a, PasteAction::ReleaseControl);
    let (_, a) = run(p, PasteEvent::KeyDone(Err("also".to_string())));
    assert_eq!(a, PasteAction::Finish(Err("V konnte nicht gedrueckt werden: blocked".to_string())));
}

#[test]
fn paste_errors() {
    let (p, _) = paste_at_cursor(None);
    let (p, _) = run(p, PasteEvent::Waited);
    let (_, a) = run(p, PasteEvent::KeyboardOpened(Err("no display".to_string())));
    assert_eq!(a, PasteAction::Finish(Err("Eingabe-Simulation nicht verfuegbar: no display".to_string())));

    let (p, _) = paste_at_cursor(None);
    let (p, _) = run(p, PasteEvent::Waited);
    let (p, _) = run(p, PasteEvent::KeyboardOpened(Ok(())));
    let (_, a) = run(p, PasteEvent::KeyDone(Err("x".to_string())));
    assert_eq!(a, PasteAction::Finish(Err("Strg konnte nicht gedrueckt werden: x".to_string())));

    let (p, _) = paste_at_cursor(None);
    let (p, _) = run(p, PasteEvent::Waited);
    let (p, _) = run(p, PasteEvent::KeyboardOpened(Ok(())));
    let (p, _) = run(p, PasteEvent::KeyDone(Ok(())));
    let (p, _) = run(p, PasteEvent::KeyDone(Ok(())));
    let (_, a) = run(p, PasteEvent::KeyDone(Err("y".to_string())));
    assert_eq!(a, PasteAction::Finish(Err("Strg konnte nicht losgelassen werden: y".to_string())));
}
