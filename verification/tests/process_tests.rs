use app_center::process::StreamingProcess;
use app_center::process::cancelled_outcome;
use app_center::process::launch_failure;

#[test]
fn drain_returns_buffered_lines_in_order() {
    let mut p = StreamingProcess::new();
    p.record_line("first");
    p.record_line("second");
    assert_eq!(p.poll_output(), ["first", "second"]);
}

#[test]
fn repeated_drain_with_no_new_output_is_empty() {
    let mut p = StreamingProcess::new();
    p.record_line("only");
    assert_eq!(p.poll_output(), ["only"]);
    assert_eq!(p.poll_output(), Vec::<String>::new());
    assert_eq!(p.poll_output(), Vec::<String>::new());
}

#[test]
fn recorded_lines_are_sanitized() {
    let mut p = StreamingProcess::new();
    p.record_line("\u{1b}[32mok\u{1b}[0m\r");
    assert_eq!(p.poll_output(), ["ok"]);
}

#[test]
fn send_input_appends_line_terminator_while_open() {
    let p = StreamingProcess::new();
    assert_eq!(p.send_input("yes"), Some("yes\n".to_string()));
}

#[test]
fn send_input_after_exit_is_silent_noop() {
    let mut p = StreamingProcess::new();
    p.record_exit(true);
    assert_eq!(p.send_input("yes"), None);
}

#[test]
fn send_input_after_kill_is_silent_noop() {
    let mut p = StreamingProcess::new();
    p.kill();
    assert_eq!(p.send_input("yes"), None);
}

#[test]
fn try_wait_reports_nothing_while_running() {
    let p = StreamingProcess::new();
    assert_eq!(p.try_wait(), None);
}

#[test]
fn try_wait_reports_exit_status() {
    let mut p = StreamingProcess::new();
    p.record_exit(true);
    assert_eq!(p.try_wait(), Some(true));
    let mut q = StreamingProcess::new();
    q.record_exit(false);
    assert_eq!(q.try_wait(), Some(false));
}

#[test]
fn kill_twice_is_safe() {
    let mut p = StreamingProcess::new();
    p.kill();
    p.kill();
    assert_eq!(p.try_wait(), Some(false));
    assert_eq!(p.send_input("yes"), None);
}

#[test]
fn cancelled_mid_stream_never_reports_success() {
    let mut p = StreamingProcess::new();
    p.record_line("downloading...");
    p.kill();
    // Even if the runner later observes the child exiting cleanly, the
    // cancellation stands.
    p.record_exit(true);
    assert_eq!(p.try_wait(), Some(false));
}

#[test]
fn exit_status_is_frozen_once_recorded() {
    let mut p = StreamingProcess::new();
    p.record_exit(false);
    p.record_exit(true);
    assert_eq!(p.try_wait(), Some(false));
}

#[test]
fn buffered_lines_survive_cancellation_until_drained() {
    let mut p = StreamingProcess::new();
    p.record_line("partial");
    p.kill();
    assert_eq!(p.poll_output(), ["partial"]);
    assert_eq!(p.poll_output(), Vec::<String>::new());
}

#[test]
fn cancelled_outcome_is_the_fixed_message() {
    let outcome = cancelled_outcome();
    assert!(!outcome.success);
    assert_eq!(outcome.message, "Cancelled by user");
}

#[test]
fn launch_failure_names_executable_and_error() {
    let outcome = launch_failure("parv", "No such file or directory");
    assert!(!outcome.success);
    assert_eq!(outcome.message, "Could not run parv: No such file or directory");
}
