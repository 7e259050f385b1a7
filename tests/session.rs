use mannager::platform::TargetOs;
use mannager::supervisor::{Action, Event, Phase, Session, SessionError};
use mannager::terminal::{frame_input, LineFramer, TerminalText};

fn feed(s: &mut Session, bytes: &[u8]) -> Vec<TerminalText> {
    let mut out = vec![];
    for b in bytes {
        if let Action::Emit(t) = s.step(Event::Byte(*b)) {
            out.push(t);
        }
    }
    out
}

#[test]
fn crlf_ends_a_line_on_linux() {
    let mut f = LineFramer::new(TargetOs::Linux);
    let mut got = vec![];
    for b in b"hello\nworld\r\n" {
        if let Some(t) = f.push_byte(*b) {
            got.push(t);
        }
    }
    assert_eq!(got, vec![TerminalText::Output("hello\nworld\r\n".to_string())]);
}

#[test]
fn lf_ends_a_line_on_windows() {
    let mut f = LineFramer::new(TargetOs::Windows);
    let mut got = vec![];
    for b in b"ab\ncd\n" {
        if let Some(t) = f.push_byte(*b) {
            got.push(t);
        }
    }
    assert_eq!(
        got,
        vec![TerminalText::Output("ab\n".to_string()), TerminalText::Output("cd\n".to_string())]
    );
}

#[test]
fn invalid_utf8_line_is_dropped() {
    let mut f = LineFramer::new(TargetOs::Windows);
    assert_eq!(f.push_byte(0xff), None);
    assert_eq!(f.push_byte(b'\n'), None);
    assert_eq!(f.push_byte(b'o'), None);
    assert_eq!(f.push_byte(b'\n'), Some(TerminalText::Output("o\n".to_string())));
}

#[test]
fn input_framing_per_platform() {
    assert_eq!(frame_input("status", TargetOs::Linux), b"status\n\0".to_vec());
    assert_eq!(frame_input("status", TargetOs::Windows), b"status\n".to_vec());
}

#[test]
fn input_before_output_is_written_and_echo_classified() {
    let mut s = Session::new(TargetOs::Linux);
    match s.step(Event::Input("map cp_badlands".to_string())) {
        Action::Write(b) => assert_eq!(b, b"map cp_badlands\n\0".to_vec()),
        _ => panic!("input was not written"),
    }
    assert!(matches!(s.step(Event::Spawned), Action::Nothing));
    assert_eq!(s.phase(), Phase::Running);
    let lines = feed(&mut s, b"map cp_badlands\r\nLoading map\r\n");
    assert_eq!(
        lines,
        vec![
            TerminalText::Input("map cp_badlands\r\n".to_string()),
            TerminalText::Output("Loading map\r\n".to_string()),
        ]
    );
}

#[test]
fn abort_mid_output_silences_the_session() {
    let mut s = Session::new(TargetOs::Linux);
    s.step(Event::Spawned);
    let before = feed(&mut s, b"one\r\ntw");
    assert_eq!(before.len(), 1);
    assert!(matches!(s.step(Event::Abort), Action::Release));
    assert_eq!(s.phase(), Phase::Aborted);
    assert!(feed(&mut s, b"o\r\nthree\r\n").is_empty());
    assert!(matches!(s.step(Event::Input("quit".to_string())), Action::Nothing));
    assert!(matches!(s.step(Event::Abort), Action::Nothing));
}

#[test]
fn read_failure_stops_with_communication_error() {
    let mut s = Session::new(TargetOs::Windows);
    s.step(Event::Spawned);
    match s.step(Event::ReadFailed("eof".to_string())) {
        Action::Fail(SessionError::CommunicationError(m)) => assert_eq!(m, "eof"),
        _ => panic!("expected a communication error"),
    }
    assert_eq!(s.phase(), Phase::Stopped);
}

#[test]
fn spawn_failure_stops_with_spawn_error() {
    let mut s = Session::new(TargetOs::Linux);
    match s.step(Event::SpawnFailed("no such file".to_string())) {
        Action::Fail(SessionError::SpawnProcessError(m)) => assert_eq!(m, "no such file"),
        _ => panic!("expected a spawn error"),
    }
    assert_eq!(s.phase(), Phase::Stopped);
    assert!(matches!(s.step(Event::Spawned), Action::Nothing));
}

#[test]
fn multibyte_text_is_decoded() {
    let mut f = LineFramer::new(TargetOs::Linux);
    let mut got = None;
    for b in "café\r\n".as_bytes() {
        got = f.push_byte(*b);
    }
    assert_eq!(got, Some(TerminalText::Output("café\r\n".to_string())));
    assert!(got.unwrap().text().ends_with("é\r\n"));
}
