use game_docker_wrapper::relay::relay_line;
use game_docker_wrapper::shutdown::ShutdownConfig;
use game_docker_wrapper::supervisor::{Action, Event, Phase, Supervisor};

fn config(command: Option<&str>, before: bool, after: bool) -> ShutdownConfig {
    ShutdownConfig::new(command.map(|c| c.as_bytes().to_vec()), before, after)
}

fn started(cfg: ShutdownConfig) -> Supervisor {
    let mut sup = Supervisor::new(cfg);
    assert_eq!(sup.phase(), Phase::Starting);
    assert_eq!(sup.step(Event::Spawned), Action::StartRelay);
    assert_eq!(sup.phase(), Phase::Running);
    assert!(sup.relay_open());
    sup
}

fn line(s: &str) -> Event {
    Event::LineRead(s.as_bytes().to_vec())
}

fn written(a: Action) -> Vec<u8> {
    match a {
        Action::Write(b) => b,
        other => panic!("expected a write, got {:?}", other),
    }
}

#[test]
fn relay_line_appends_terminator() {
    assert_eq!(relay_line(b"abc".to_vec()), b"abc\n".to_vec());
    assert_eq!(relay_line(Vec::new()), b"\n".to_vec());
}

#[test]
fn shutdown_sequence_every_combination() {
    let cases: Vec<(Option<&str>, bool, bool, &[u8])> = vec![
        (Some("exit"), true, true, b"\nexit\n"),
        (Some("exit"), true, false, b"\nexit"),
        (Some("exit"), false, true, b"exit\n"),
        (Some("exit"), false, false, b"exit"),
        (None, true, true, b"\n\n"),
        (None, true, false, b"\n"),
        (None, false, true, b"\n"),
        (None, false, false, b""),
    ];
    for (cmd, before, after, expected) in cases {
        assert_eq!(config(cmd, before, after).shutdown_sequence(), expected.to_vec());
    }
}

#[test]
fn lines_relayed_once_in_order() {
    let mut sup = started(config(Some("quit"), true, true));
    let mut out = Vec::new();
    for l in ["one", "", "three"] {
        out.extend(written(sup.step(line(l))));
    }
    assert_eq!(out, b"one\n\nthree\n".to_vec());
    assert_eq!(sup.phase(), Phase::Running);
}

#[test]
fn cat_scenario_end_to_end() {
    let mut sup = started(config(Some("exit"), true, true));
    let mut out = Vec::new();
    out.extend(written(sup.step(line("hello"))));
    out.extend(written(sup.step(line("world"))));
    out.extend(written(sup.step(Event::TerminationSignal)));
    assert_eq!(out, b"hello\nworld\n\nexit\n".to_vec());
    assert_eq!(sup.phase(), Phase::ShuttingDown);
    assert_eq!(sup.step(line("late")), Action::Idle);
    assert_eq!(sup.step(Event::ShutdownWritten), Action::WaitChild);
    assert_eq!(sup.step(Event::ChildExited(Some(0))), Action::Exit(0));
    assert_eq!(sup.phase(), Phase::Done);
}

#[test]
fn exit_code_is_the_childs() {
    let mut sup = started(config(Some("exit"), true, true));
    written(sup.step(Event::TerminationSignal));
    assert_eq!(sup.step(Event::ShutdownWritten), Action::WaitChild);
    assert_eq!(sup.step(Event::ChildExited(Some(42))), Action::Exit(42));
}

#[test]
fn child_without_exit_code_gives_fatal_code() {
    let mut sup = started(config(None, true, true));
    written(sup.step(Event::TerminationSignal));
    sup.step(Event::ShutdownWritten);
    assert_eq!(sup.step(Event::ChildExited(None)), Action::Exit(1));
}

#[test]
fn clean_shutdown_writes_two_newlines() {
    let mut sup = started(config(None, true, true));
    written(sup.step(line("status")));
    written(sup.step(line("save")));
    assert_eq!(written(sup.step(Event::TerminationSignal)), b"\n\n".to_vec());
    assert_eq!(sup.step(line("more")), Action::Idle);
}

#[test]
fn nothing_written_after_shutdown() {
    let mut sup = started(config(Some("stop"), false, true));
    assert_eq!(written(sup.step(Event::TerminationSignal)), b"stop\n".to_vec());
    for e in [line("a"), Event::InputClosed, line("b"), Event::TerminationSignal] {
        assert_eq!(sup.step(e), Action::Idle);
    }
    assert_eq!(sup.step(Event::ShutdownWritten), Action::WaitChild);
    assert_eq!(sup.step(line("c")), Action::Idle);
}

#[test]
fn second_signal_is_ignored() {
    let mut sup = started(config(Some("exit"), true, true));
    written(sup.step(Event::TerminationSignal));
    assert_eq!(sup.step(Event::TerminationSignal), Action::Idle);
    assert_eq!(sup.phase(), Phase::ShuttingDown);
    sup.step(Event::ShutdownWritten);
    assert_eq!(sup.step(Event::TerminationSignal), Action::Idle);
    assert_eq!(sup.phase(), Phase::Waiting);
    assert_eq!(sup.step(Event::ChildExited(Some(7))), Action::Exit(7));
    assert_eq!(sup.step(Event::TerminationSignal), Action::Idle);
    assert_eq!(sup.phase(), Phase::Done);
}

#[test]
fn missing_executable_exits_with_one_without_waiting() {
    let mut sup = Supervisor::new(config(Some("exit"), true, true));
    assert_eq!(sup.step(Event::SpawnFailed), Action::Exit(1));
    assert_eq!(sup.phase(), Phase::Done);
    assert_eq!(sup.step(Event::TerminationSignal), Action::Idle);
    assert_eq!(sup.step(Event::ChildExited(Some(0))), Action::Idle);
}

#[test]
fn input_handle_unavailable_is_fatal() {
    let mut sup = Supervisor::new(config(None, true, true));
    assert_eq!(sup.step(Event::InputUnavailable), Action::Exit(1));
    assert_eq!(sup.phase(), Phase::Done);
}

#[test]
fn relay_write_failure_is_fatal() {
    let mut sup = started(config(None, true, true));
    assert_eq!(sup.step(Event::WriteFailed), Action::Exit(1));
    assert_eq!(sup.phase(), Phase::Done);
}

#[test]
fn shutdown_write_failure_is_fatal() {
    let mut sup = started(config(Some("exit"), true, true));
    written(sup.step(Event::TerminationSignal));
    assert_eq!(sup.step(Event::WriteFailed), Action::Exit(1));
    assert_eq!(sup.phase(), Phase::Done);
}

#[test]
fn wait_failure_is_fatal() {
    let mut sup = started(config(Some("exit"), true, true));
    written(sup.step(Event::TerminationSignal));
    sup.step(Event::ShutdownWritten);
    assert_eq!(sup.step(Event::WaitFailed), Action::Exit(1));
}

#[test]
fn input_closed_stops_relay_and_supervision_continues() {
    let mut sup = started(config(Some("exit"), true, true));
    assert_eq!(sup.step(Event::InputClosed), Action::StopRelay);
    assert!(!sup.relay_open());
    assert_eq!(sup.phase(), Phase::Running);
    assert_eq!(sup.step(line("x")), Action::Idle);
    assert_eq!(written(sup.step(Event::TerminationSignal)), b"\nexit\n".to_vec());
}

#[test]
fn events_before_spawn_are_ignored() {
    let mut sup = Supervisor::new(config(Some("exit"), true, true));
    assert_eq!(sup.step(line("early")), Action::Idle);
    assert_eq!(sup.step(Event::TerminationSignal), Action::Idle);
    assert_eq!(sup.phase(), Phase::Starting);
    assert_eq!(sup.config().command, Some(b"exit".to_vec()));
}
