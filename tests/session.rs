use rlwrap::config::RlwrapConfig;
use rlwrap::session::{Descriptors, FdOp, Key, KeyOutcome, Printed, Session, SessionError};

fn fds() -> Descriptors {
    Descriptors { stdin: 10, stdout: 11, stderr: 12, pty: 13 }
}

fn session(stop_on_ctrl_c: bool) -> Session {
    Session::new(RlwrapConfig { prefix: "> ".to_string(), stop_on_ctrl_c }, fds(), (80, 24))
}

fn type_str(s: &mut Session, text: &str) -> Vec<String> {
    let mut sent = Vec::new();
    for c in text.chars() {
        if let KeyOutcome::Submit(t) = s.handle_key(Key::Char(c)) {
            sent.push(t);
        }
    }
    sent
}

fn plan() -> Vec<FdOp> {
    vec![
        FdOp::Redirect { saved: 10, target: 0 },
        FdOp::Redirect { saved: 11, target: 1 },
        FdOp::Redirect { saved: 12, target: 2 },
        FdOp::Close(13),
        FdOp::Close(10),
        FdOp::Close(11),
        FdOp::Close(12),
    ]
}

#[test]
fn default_config() {
    let c = RlwrapConfig::default();
    assert_eq!(c.prefix, "> ");
    assert!(c.stop_on_ctrl_c);
}

#[test]
fn new_session_is_empty_and_running() {
    let s = session(true);
    assert_eq!(s.buffer(), "");
    assert_eq!(s.cursor(), 0);
    assert!(s.is_running());
    assert!(s.has_output());
    assert!(!s.is_draining());
    assert_eq!(s.descriptors(), fds());
}

#[test]
fn abc_then_two_backspaces() {
    let mut s = session(true);
    assert!(type_str(&mut s, "abc").is_empty());
    s.handle_key(Key::Backspace);
    s.handle_key(Key::Backspace);
    assert_eq!(s.buffer(), "a");
    assert_eq!(s.cursor(), 1);
}

#[test]
fn line_break_forwards_line_once() {
    let mut s = session(true);
    let sent = type_str(&mut s, "hi\n");
    assert_eq!(sent, vec!["hi\n".to_string()]);
    assert_eq!(sent[0].as_bytes(), b"hi\n");
    assert_eq!(s.buffer(), "");
    assert_eq!(s.cursor(), 0);
}

#[test]
fn eof_on_empty_buffer_forwards_one_byte() {
    let mut s = session(true);
    match s.handle_key(Key::Ctrl('d')) {
        KeyOutcome::Submit(t) => assert_eq!(t.as_bytes(), &[4u8]),
        _ => panic!("expected a submitted line"),
    }
    assert_eq!(s.buffer(), "");
    assert_eq!(s.cursor(), 0);
}

#[test]
fn eof_appends_to_the_whole_line() {
    let mut s = session(true);
    type_str(&mut s, "ab");
    s.handle_key(Key::Left);
    match s.handle_key(Key::Ctrl('d')) {
        KeyOutcome::Submit(t) => assert_eq!(t, "ab\u{4}"),
        _ => panic!("expected a submitted line"),
    }
    assert_eq!(s.cursor(), 0);
}

#[test]
fn line_break_inside_line_forwards_whole_buffer() {
    let mut s = session(true);
    type_str(&mut s, "ab");
    s.handle_key(Key::Left);
    let sent = type_str(&mut s, "\n");
    assert_eq!(sent, vec!["a\nb".to_string()]);
    assert_eq!(s.buffer(), "");
}

#[test]
fn insert_in_the_middle() {
    let mut s = session(true);
    type_str(&mut s, "ac");
    s.handle_key(Key::Left);
    type_str(&mut s, "b");
    assert_eq!(s.buffer(), "abc");
    assert_eq!(s.cursor(), 2);
}

#[test]
fn arrows_stop_at_line_ends() {
    let mut s = session(true);
    s.handle_key(Key::Left);
    assert_eq!(s.cursor(), 0);
    type_str(&mut s, "xy");
    s.handle_key(Key::Right);
    assert_eq!(s.cursor(), 2);
    s.handle_key(Key::Left);
    s.handle_key(Key::Left);
    s.handle_key(Key::Left);
    assert_eq!(s.cursor(), 0);
    s.handle_key(Key::Right);
    assert_eq!(s.cursor(), 1);
}

#[test]
fn backspace_at_line_start_changes_nothing() {
    let mut s = session(true);
    s.handle_key(Key::Backspace);
    assert_eq!(s.buffer(), "");
    type_str(&mut s, "xy");
    s.handle_key(Key::Left);
    s.handle_key(Key::Left);
    s.handle_key(Key::Backspace);
    assert_eq!(s.buffer(), "xy");
    assert_eq!(s.cursor(), 0);
}

#[test]
fn other_keys_change_nothing() {
    let mut s = session(true);
    type_str(&mut s, "q");
    assert!(matches!(s.handle_key(Key::Other), KeyOutcome::Edited));
    assert!(matches!(s.handle_key(Key::Ctrl('x')), KeyOutcome::Edited));
    assert_eq!(s.buffer(), "q");
    assert_eq!(s.cursor(), 1);
}

#[test]
fn cursor_stays_within_line_over_many_keys() {
    let mut s = session(false);
    let keys = [
        Key::Char('a'), Key::Left, Key::Left, Key::Backspace, Key::Char('b'), Key::Right,
        Key::Right, Key::Char('c'), Key::Backspace, Key::Backspace, Key::Backspace, Key::Right,
        Key::Char('\n'), Key::Char('d'), Key::Ctrl('c'), Key::Ctrl('d'), Key::Left, Key::Other,
    ];
    for k in keys {
        s.handle_key(k);
        assert!(s.cursor() <= s.buffer().chars().count());
    }
}

#[test]
fn interrupt_with_stop_configured() {
    let mut s = session(true);
    type_str(&mut s, "ab");
    match s.handle_key(Key::Ctrl('c')) {
        KeyOutcome::Interrupt(Some(ops)) => assert_eq!(ops, plan()),
        _ => panic!("expected an interrupt that stops"),
    }
    assert!(s.is_running());
    assert!(!s.has_output());
    s.finish_stop();
    assert!(!s.is_running());
    assert_eq!(s.stop(), Err(SessionError::NotRunning));
}

#[test]
fn interrupt_without_stop_configured() {
    let mut s = session(false);
    assert!(matches!(s.handle_key(Key::Ctrl('c')), KeyOutcome::Interrupt(None)));
    assert!(s.is_running());
    assert!(s.has_output());
}

#[test]
fn interrupt_on_stopped_session_still_interrupts() {
    let mut s = session(true);
    assert!(s.stop().is_ok());
    s.finish_stop();
    assert!(matches!(s.handle_key(Key::Ctrl('c')), KeyOutcome::Interrupt(None)));
    assert!(!s.is_running());
}

#[test]
fn interrupt_after_unfinished_release_releases_again() {
    let mut s = session(true);
    assert!(s.stop().is_ok());
    // The release failed: no finish_stop. The interrupt key releases again.
    match s.handle_key(Key::Ctrl('c')) {
        KeyOutcome::Interrupt(Some(ops)) => assert_eq!(ops, plan()),
        _ => panic!("expected an interrupt that stops"),
    }
    s.finish_stop();
    assert_eq!(s.stop(), Err(SessionError::NotRunning));
}

#[test]
fn interrupt_during_graceful_stop_raises_signal_only() {
    let mut s = session(true);
    assert!(s.begin_graceful_stop().is_ok());
    assert!(matches!(s.handle_key(Key::Ctrl('c')), KeyOutcome::Interrupt(None)));
    assert!(s.is_running());
    assert!(s.is_draining());
    s.finish_stop();
    assert!(!s.is_running());
    assert!(!s.is_draining());
}

#[test]
fn graceful_stop_hands_out_restores_then_closes() {
    let mut s = session(true);
    let (restores, closes) = s.begin_graceful_stop().unwrap();
    assert_eq!(restores, plan()[..3].to_vec());
    assert_eq!(closes, plan()[3..].to_vec());
    assert!(s.is_running());
    assert!(!s.has_output());
    assert_eq!(s.redraw(), None);
    s.finish_stop();
    assert_eq!(s.begin_graceful_stop(), Err(SessionError::NotRunning));
    assert_eq!(s.stop(), Err(SessionError::NotRunning));
}

#[test]
fn failed_release_leaves_session_running() {
    let mut s = session(true);
    assert_eq!(s.stop(), Ok(plan()));
    // The caller's descriptor operations failed: no finish_stop.
    assert!(s.is_running());
    assert!(!s.has_output());
    assert_eq!(s.stop(), Ok(plan()));
    s.finish_stop();
    assert!(!s.is_running());
}

#[test]
fn stop_releases_descriptors_in_order() {
    let mut s = session(true);
    assert_eq!(s.stop(), Ok(plan()));
    assert!(s.is_running());
    assert_eq!(s.redraw(), None);
    s.finish_stop();
    assert!(!s.is_running());
}

#[test]
fn stop_twice_is_refused() {
    let mut s = session(true);
    assert!(s.stop().is_ok());
    s.finish_stop();
    assert_eq!(s.stop(), Err(SessionError::NotRunning));
    assert!(!s.is_running());
}

#[test]
fn redraw_text_is_exact() {
    let mut s = session(true);
    type_str(&mut s, "ab");
    assert_eq!(s.redraw(), Some("\x1b[24;0H\x1b[2K\r> ab\x1b[24;5H".to_string()));
    s.handle_key(Key::Left);
    assert_eq!(s.redraw(), Some("\x1b[24;0H\x1b[2K\r> ab\x1b[24;4H".to_string()));
}

#[test]
fn two_redraws_render_identically() {
    let mut s = session(true);
    type_str(&mut s, "hello");
    let first = s.redraw();
    let second = s.redraw();
    assert!(first.is_some());
    assert_eq!(first, second);
}

#[test]
fn cursor_column_is_capped() {
    let prefix: String = std::iter::repeat('p').take(70000).collect();
    let s = Session::new(RlwrapConfig { prefix: prefix.clone(), stop_on_ctrl_c: true }, fds(), (80, 3));
    let expected = format!("\x1b[3;0H\x1b[2K\r{}\x1b[3;65535H", prefix);
    assert_eq!(s.redraw(), Some(expected));
}

#[test]
fn print_above_prompt_line() {
    let mut s = session(true);
    type_str(&mut s, "x");
    match s.print("out") {
        Printed::Terminal(t) => {
            assert_eq!(t, "\x1b[2K\rout\r\n\x1b[24;0H\x1b[2K\r> x\x1b[24;4H")
        }
        Printed::Stdout(_) => panic!("expected terminal output"),
    }
}

#[test]
fn print_after_stop_goes_to_stdout() {
    let mut s = session(true);
    s.stop().unwrap();
    match s.print("late") {
        Printed::Stdout(t) => assert_eq!(t, "late\n"),
        Printed::Terminal(_) => panic!("expected standard output"),
    }
}
