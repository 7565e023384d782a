use parallelrun::outcome::{classify, exit_report_line, outcome_display, Outcome};
use parallelrun::signals::{kind_name, signal_as_string, translate_signal, SignalKind};
use parallelrun::text::{code_to_string, render_cascade_notice, render_output_line,
    render_exit_line, usize_to_string};

#[test]
fn signal_names() {
    assert_eq!(signal_as_string(1), "SIGHUP");
    assert_eq!(signal_as_string(2), "SIGINT");
    assert_eq!(signal_as_string(3), "SIGQUIT");
    assert_eq!(signal_as_string(4), "SIGILL");
    assert_eq!(signal_as_string(6), "SIGABRT");
    assert_eq!(signal_as_string(8), "SIGFPE");
    assert_eq!(signal_as_string(9), "SIGKILL");
    assert_eq!(signal_as_string(11), "SIGSEGV");
    assert_eq!(signal_as_string(13), "SIGPIPE");
    assert_eq!(signal_as_string(14), "SIGALRM");
    assert_eq!(signal_as_string(15), "SIGTERM");
    assert_eq!(signal_as_string(99), "Unknown Signal");
    assert_eq!(signal_as_string(-1), "Unknown Signal");
}

#[test]
fn kind_names() {
    assert_eq!(kind_name(SignalKind::Term), "Term");
    assert_eq!(kind_name(SignalKind::Interrupt), "Interrupt");
    assert_eq!(kind_name(SignalKind::Hangup), "Hangup");
    assert_eq!(kind_name(SignalKind::Quit), "Quit");
    assert_eq!(kind_name(SignalKind::Kill), "Kill");
}

#[test]
fn translate_excludes_interrupt() {
    assert_eq!(translate_signal(2), None);
}

#[test]
fn translate_maps_termination_signals() {
    assert_eq!(translate_signal(1), Some(SignalKind::Hangup));
    assert_eq!(translate_signal(3), Some(SignalKind::Quit));
    assert_eq!(translate_signal(9), Some(SignalKind::Kill));
    assert_eq!(translate_signal(15), Some(SignalKind::Term));
    assert_eq!(translate_signal(7), Some(SignalKind::Term));
}

#[test]
fn decimal_rendering() {
    assert_eq!(usize_to_string(0), "0");
    assert_eq!(usize_to_string(7), "7");
    assert_eq!(usize_to_string(10), "10");
    assert_eq!(usize_to_string(12345), "12345");
    assert_eq!(usize_to_string(usize::MAX), usize::MAX.to_string());
}

#[test]
fn code_rendering() {
    assert_eq!(code_to_string(0), "0");
    assert_eq!(code_to_string(137), "137");
    assert_eq!(code_to_string(-9), "-9");
    assert_eq!(code_to_string(i32::MIN), i32::MIN.to_string());
}

#[test]
fn output_line_format() {
    assert_eq!(render_output_line(0, "1"), "[0] 1\n");
    assert_eq!(render_output_line(12, "hello world"), "[12] hello world\n");
    assert_eq!(render_output_line(3, ""), "[3] \n");
}

#[test]
fn output_lines_carry_one_prefix_each() {
    // An adversarial child line cannot make one command's output line
    // collide with another command's: the prefix pins the index.
    let tricky = render_output_line(1, "2] x");
    let other = render_output_line(12, "x");
    assert_ne!(tricky, other);
    assert_eq!(tricky, "[1] 2] x\n");
    assert_eq!(other, "[12] x\n");
}

#[test]
fn exit_line_format() {
    assert_eq!(
        render_exit_line(0, "echo 1 && sleep 1", "0"),
        "[0] echo 1 && sleep 1 exited with code 0\n"
    );
}

#[test]
fn classify_precedence() {
    assert_eq!(classify(None), Outcome::Unknown);
    assert_eq!(classify(Some((Some(15), None))), Outcome::Signaled(15));
    assert_eq!(classify(Some((None, Some(0)))), Outcome::Exited(0));
    assert_eq!(classify(Some((Some(9), Some(1)))), Outcome::Signaled(9));
    assert_eq!(classify(Some((None, None))), Outcome::Unknown);
}

#[test]
fn outcome_displays() {
    assert_eq!(outcome_display(&Outcome::Exited(0)), "0");
    assert_eq!(outcome_display(&Outcome::Exited(101)), "101");
    assert_eq!(outcome_display(&Outcome::Signaled(15)), "SIGTERM");
    assert_eq!(outcome_display(&Outcome::Signaled(9)), "SIGKILL");
    assert_eq!(outcome_display(&Outcome::Unknown), "?");
}

#[test]
fn exit_report_line_format() {
    assert_eq!(
        exit_report_line(0, "echo 1 && sleep 1", &Outcome::Exited(0)),
        "[0] echo 1 && sleep 1 exited with code 0\n"
    );
    assert_eq!(
        exit_report_line(1, "sleep 1", &Outcome::Signaled(15)),
        "[1] sleep 1 exited with code SIGTERM\n"
    );
    assert_eq!(
        exit_report_line(2, "true", &Outcome::Unknown),
        "[2] true exited with code ?\n"
    );
}

#[test]
fn cascade_notice_format() {
    assert_eq!(
        render_cascade_notice(SignalKind::Term),
        "--> Sending Term Signal to other processes..\n"
    );
    assert_eq!(
        render_cascade_notice(SignalKind::Hangup),
        "--> Sending Hangup Signal to other processes..\n"
    );
}
