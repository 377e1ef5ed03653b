use light_editor::session::{DialogPoll, SceneSession, SessionPhase};

#[test]
fn open_then_select_loads_exactly_once() {
    let mut session = SceneSession::new();
    assert_eq!(session.phase, SessionPhase::Empty);
    assert!(session.opened_file.is_none());
    assert!(!session.loaded());

    let accepted = session.request_open();
    assert!(accepted);
    assert_eq!(session.phase, SessionPhase::DialogOpen);

    // the dialog may stay open for any number of frames
    assert_eq!(session.advance_dialog(DialogPoll::StillOpen), None);
    assert_eq!(session.phase, SessionPhase::DialogOpen);

    let load = session.advance_dialog(DialogPoll::Resolved(Some(String::from("bg.png"))));
    assert_eq!(load, Some(String::from("bg.png")));
    assert_eq!(session.phase, SessionPhase::Loaded);
    assert!(session.loaded());
    assert_eq!(session.opened_file, Some(String::from("bg.png")));

    // once loaded, nothing requests a second texture load
    let again = session.advance_dialog(DialogPoll::Resolved(Some(String::from("bg.png"))));
    assert_eq!(again, None);
    assert_eq!(session.phase, SessionPhase::Loaded);
}

#[test]
fn dismissal_returns_to_empty_without_a_load() {
    let mut session = SceneSession::new();
    session.request_open();
    let load = session.advance_dialog(DialogPoll::Resolved(None));
    assert_eq!(load, None);
    assert_eq!(session.phase, SessionPhase::Empty);
    assert!(session.opened_file.is_none());

    // the Open control works again after a dismissal
    assert!(session.request_open());
    assert_eq!(session.phase, SessionPhase::DialogOpen);
}

#[test]
fn open_fires_only_from_empty() {
    let mut session = SceneSession::new();
    assert!(session.request_open());
    // a second click while the dialog is open is ignored
    assert!(!session.request_open());
    assert_eq!(session.phase, SessionPhase::DialogOpen);

    session.advance_dialog(DialogPoll::Resolved(Some(String::from("bg.png"))));
    // the panel hides the control once loaded; a stray click is ignored
    assert!(!session.request_open());
    assert_eq!(session.phase, SessionPhase::Loaded);
    assert_eq!(session.opened_file, Some(String::from("bg.png")));
}

#[test]
fn polls_outside_dialog_open_change_nothing() {
    let mut session = SceneSession::new();
    assert_eq!(session.advance_dialog(DialogPoll::StillOpen), None);
    assert_eq!(session.advance_dialog(DialogPoll::Resolved(Some(String::from("a.png")))), None);
    assert_eq!(session.phase, SessionPhase::Empty);
    assert!(session.opened_file.is_none());
}
