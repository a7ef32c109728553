use powertoys_roulette::session::SpinSession;

#[test]
fn new_session_is_idle() {
    let session = SpinSession::new(false);
    let s = session.state();
    assert!(!s.spinning);
    assert!(!s.show_message);
    assert!(s.winner.is_none());
    assert!(!s.auto_run);
    assert!(!s.auto_run_started);
    assert_eq!(session.wheel().items().len(), 17);
    assert!(session.winning_item().is_none());
}

#[test]
fn click_starts_a_spin_once() {
    let mut session = SpinSession::new(false);
    assert!(session.click_spin());
    assert!(session.is_spinning());
    assert!(!session.click_spin());
    assert!(session.is_spinning());
}

#[test]
fn finish_picks_segment_under_pointer() {
    let mut session = SpinSession::new(false);
    assert!(session.click_spin());
    let outcome = session.finish_spin(20);
    assert_eq!(outcome.segment, 3);
    assert_eq!(outcome.launch, "explorer.exe");
    assert!(!outcome.close_window);
    assert!(!session.is_spinning());
    assert_eq!(session.state().winner, Some(3));
    assert_eq!(session.winning_item().unwrap().name, "Explorer");
}

#[test]
fn new_spin_clears_the_winner() {
    let mut session = SpinSession::new(false);
    session.click_spin();
    session.finish_spin(4);
    assert!(session.winning_item().is_some());
    assert!(session.click_spin());
    assert!(session.winning_item().is_none());
    let outcome = session.finish_spin(8);
    assert_eq!(outcome.launch, "powershell.exe");
}

#[test]
fn normal_mode_never_auto_starts() {
    let mut session = SpinSession::new(false);
    for _ in 0..5 {
        assert!(!session.auto_start());
    }
    assert!(!session.is_spinning());
}

#[test]
fn auto_run_starts_once_and_closes() {
    let mut session = SpinSession::new(true);
    assert!(session.is_auto_run());
    assert!(session.auto_start());
    assert!(session.is_spinning());
    assert!(session.state().auto_run_started);
    assert!(!session.auto_start());
    let outcome = session.finish_spin(0);
    assert_eq!(outcome.launch, "notepad.exe");
    assert!(outcome.close_window);
    assert!(!session.auto_start());
    assert!(!session.is_spinning());
}

#[test]
fn auto_run_waits_for_running_spin() {
    let mut session = SpinSession::new(true);
    assert!(session.click_spin());
    assert!(!session.auto_start());
    session.finish_spin(1);
    assert!(session.auto_start());
    assert!(!session.auto_start());
}
