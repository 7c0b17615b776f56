use qwerty::session::{
    bytes_eq, exit_token_bytes, format_count, quit_token_bytes, start_token_bytes, Session,
    SessionCmd, SessionPhase,
};

#[test]
fn token_bytes_are_the_literals() {
    assert_eq!(start_token_bytes(), b"/start/".to_vec());
    assert_eq!(exit_token_bytes(), b"/exit/".to_vec());
    assert_eq!(quit_token_bytes(), b"quit".to_vec());
}

#[test]
fn handshake_accepts_only_the_start_marker() {
    let mut s = Session::new();
    assert!(s.on_first_token(b"/start/").is_ok());
    assert!(matches!(s.phase, SessionPhase::Ready));
}

#[test]
fn handshake_rejects_any_other_first_token() {
    for bad in [&b"start"[..], b"/exit/", b"", b"/start//", b"hello"] {
        let mut s = Session::new();
        assert!(s.on_first_token(bad).is_err());
        assert!(matches!(s.phase, SessionPhase::Failed));
    }
}

#[test]
fn exit_token_ends_the_session_without_a_prompt() {
    let mut s = Session::new();
    s.on_first_token(b"/start/").unwrap();
    let cmd = s.on_token(b"/exit/");
    assert!(matches!(cmd, SessionCmd::Exit));
    assert!(matches!(s.phase, SessionPhase::Ended));
}

#[test]
fn start_token_in_ready_state_is_a_keepalive() {
    let mut s = Session::new();
    s.on_first_token(b"/start/").unwrap();
    let cmd = s.on_token(b"/start/");
    assert!(matches!(cmd, SessionCmd::KeepAlive));
    assert!(matches!(s.phase, SessionPhase::Ready));
}

#[test]
fn any_other_token_is_the_word_to_prompt() {
    let mut s = Session::new();
    s.on_first_token(b"/start/").unwrap();
    let cmd = s.on_token(b"cat");
    assert!(matches!(cmd, SessionCmd::Prompt));
    assert!(matches!(s.phase, SessionPhase::Ready));
    let cmd = s.on_token(b"exit");
    assert!(matches!(cmd, SessionCmd::Prompt));
}

#[test]
fn format_count_gives_decimal_ascii() {
    assert_eq!(format_count(0), b"0".to_vec());
    assert_eq!(format_count(1), b"1".to_vec());
    assert_eq!(format_count(7), b"7".to_vec());
    assert_eq!(format_count(10), b"10".to_vec());
    assert_eq!(format_count(11), b"11".to_vec());
    assert_eq!(format_count(4294967295), b"4294967295".to_vec());
}

#[test]
fn bytes_eq_compares_contents() {
    assert!(bytes_eq(b"", b""));
    assert!(bytes_eq(b"cat", b"cat"));
    assert!(!bytes_eq(b"cat", b"car"));
    assert!(!bytes_eq(b"cat", b"cats"));
    assert!(!bytes_eq(b"cats", b"cat"));
}
