use wps::repl::{
    after_evaluation, exception_report, Closing, ReadOutcome, ReplAction, ReplState, WaitEvent,
    WaitState,
};

fn is_exit(action: &ReplAction) -> bool {
    matches!(action, ReplAction::Exit)
}

#[test]
fn two_interrupts_exit() {
    let mut state = ReplState::new();
    match state.on_read(ReadOutcome::Interrupted) {
        ReplAction::Print(text) => assert_eq!(text, "press ctrl+c again to exit"),
        _ => panic!("first interrupt must print the notice"),
    }
    assert!(state.exit_on_interrupt);
    assert!(is_exit(&state.on_read(ReadOutcome::Interrupted)));
}

#[test]
fn line_disarms_interrupt() {
    let mut state = ReplState::new();
    state.on_read(ReadOutcome::Interrupted);
    match state.on_read(ReadOutcome::Line("1 + 1".to_string())) {
        ReplAction::Evaluate(line) => assert_eq!(line, "1 + 1"),
        _ => panic!("a line must be evaluated"),
    }
    assert!(!state.exit_on_interrupt);
    assert!(matches!(state.on_read(ReadOutcome::Interrupted), ReplAction::Print(_)));
}

#[test]
fn eof_exits() {
    let mut state = ReplState::new();
    assert!(is_exit(&state.on_read(ReadOutcome::Eof)));
}

#[test]
fn failed_read_prints_and_exits() {
    let mut state = ReplState::new();
    match state.on_read(ReadOutcome::Failed("Errno(EIO)".to_string())) {
        ReplAction::PrintAndExit(text) => assert_eq!(text, "Error: Errno(EIO)"),
        _ => panic!("a failed read must print and exit"),
    }
}

#[test]
fn closed_session_exits_silently() {
    let report = after_evaluation(Closing::Closed, "undefined".to_string());
    assert!(report.exit);
    assert!(report.lines.is_empty());
}

#[test]
fn open_session_prints_output() {
    let report = after_evaluation(Closing::Open, "2".to_string());
    assert!(!report.exit);
    assert_eq!(report.lines, vec!["2".to_string()]);
}

#[test]
fn failed_closing_prints_error_then_output() {
    let report = after_evaluation(Closing::Failed("Disconnected".to_string()), "2".to_string());
    assert!(!report.exit);
    assert_eq!(report.lines, vec!["Error: Disconnected".to_string(), "2".to_string()]);
}

#[test]
fn exception_notifications_are_printed() {
    assert_eq!(
        exception_report("Runtime.exceptionThrown", "Uncaught", "Error: boom"),
        Some("Uncaught Error: boom".to_string())
    );
    assert_eq!(exception_report("Runtime.consoleAPICalled", "a", "b"), None);
    assert_eq!(exception_report("Runtime.exceptionThrow", "a", "b"), None);
}

#[test]
fn event_loop_waits_for_messages() {
    let mut wait = WaitState::new();
    assert!(wait.poll_worker);
    assert!(!wait.on_event(WaitEvent::EventLoopTurn));
    assert!(!wait.poll_worker);
    assert!(!wait.on_event(WaitEvent::Notification));
    assert!(!wait.poll_worker);
    assert!(!wait.on_event(WaitEvent::MessageAnswered));
    assert!(wait.poll_worker);
    assert!(wait.on_event(WaitEvent::LineRead));
}
