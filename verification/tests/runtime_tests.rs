use parallelrun::cascade::CascadeCoordinator;
use parallelrun::outcome::Outcome;
use parallelrun::runtime::{consume_trigger, emit_output_line, fire_cascade, forward_signal,
    open_signal_listener, report_exit};
use parallelrun::signals::SignalKind;

#[test]
fn coordinator_fires_once() {
    let mut coord = CascadeCoordinator::new();
    assert!(coord.try_fire());
    assert!(!coord.try_fire());
    assert!(!coord.try_fire());
}

#[test]
fn emit_returns_written_line() {
    assert_eq!(emit_output_line(0, "1"), "[0] 1\n");
    assert_eq!(emit_output_line(7, "done"), "[7] done\n");
}

#[test]
fn report_exit_raises_trigger_only_with_flag() {
    let (tx, rx) = crossbeam::channel::bounded::<SignalKind>(1);
    let (line, raised) = report_exit(0, "true", &Outcome::Exited(0), false, &tx);
    assert_eq!(line, "[0] true exited with code 0\n");
    assert!(!raised);
    assert!(rx.try_recv().is_err());

    let (line, raised) = report_exit(1, "false", &Outcome::Exited(1), true, &tx);
    assert_eq!(line, "[1] false exited with code 1\n");
    assert!(raised);
    assert_eq!(rx.try_recv(), Ok(SignalKind::Term));
}

#[test]
fn forward_signal_translates_and_sends() {
    let (tx, rx) = crossbeam::channel::bounded::<SignalKind>(1);
    assert_eq!(forward_signal(15, &tx), Some(SignalKind::Term));
    assert_eq!(rx.try_recv(), Ok(SignalKind::Term));
    assert_eq!(forward_signal(1, &tx), Some(SignalKind::Hangup));
    assert_eq!(rx.try_recv(), Ok(SignalKind::Hangup));
    // Interrupts are not forwarded.
    assert_eq!(forward_signal(2, &tx), None);
    assert!(rx.try_recv().is_err());
}

#[test]
fn consumer_fires_on_first_trigger_only() {
    let (tx, rx) = crossbeam::channel::bounded::<SignalKind>(1);
    let mut coord = CascadeCoordinator::new();
    let pids: Vec<u32> = Vec::new();

    tx.send(SignalKind::Term).unwrap();
    let (open, fired) = consume_trigger(&rx, &mut coord, &pids);
    assert!(open);
    assert!(fired);

    tx.send(SignalKind::Term).unwrap();
    let (open, fired) = consume_trigger(&rx, &mut coord, &pids);
    assert!(open);
    assert!(!fired);

    drop(tx);
    let (open, fired) = consume_trigger(&rx, &mut coord, &pids);
    assert!(!open);
    assert!(!fired);
}

#[test]
fn cascade_notice_is_logged_once_per_fire() {
    let pids: Vec<u32> = Vec::new();
    let notice = fire_cascade(SignalKind::Term, &pids);
    assert_eq!(notice, "--> Sending Term Signal to other processes..\n");
}

#[test]
fn signal_listener_registers() {
    let stream = open_signal_listener();
    assert!(stream.is_some());
}

#[test]
fn test_simple() {
    // Two commands, no kill flag: `echo 1 && sleep 1` finishes first,
    // `sleep 2 && echo 2` second; each runs to natural completion and
    // the four lines appear in this order.
    let (tx, rx) = crossbeam::channel::bounded::<SignalKind>(1);
    let cmd0 = "echo 1 && sleep 1";
    let cmd1 = "sleep 2 && echo 2";

    let mut transcript = String::new();
    transcript.push_str(&emit_output_line(0, "1"));
    let (line0, raised0) = report_exit(0, cmd0, &Outcome::Exited(0), false, &tx);
    transcript.push_str(&line0);
    transcript.push_str(&emit_output_line(1, "2"));
    let (line1, raised1) = report_exit(1, cmd1, &Outcome::Exited(0), false, &tx);
    transcript.push_str(&line1);

    let expected_output = r"[0] 1
[0] echo 1 && sleep 1 exited with code 0
[1] 2
[1] sleep 2 && echo 2 exited with code 0
";
    assert_eq!(transcript, expected_output);
    // With the kill flag unset no exit raises a cascade trigger.
    assert!(!raised0 && !raised1);
    assert!(rx.try_recv().is_err());
}

#[test]
fn test_kill() {
    // Both commands print before either exits; command 0 finishes
    // first, command 1 afterwards, and every command is reported
    // exactly once.
    let (tx, rx) = crossbeam::channel::bounded::<SignalKind>(1);
    let cmd0 = "echo 1 && sleep 2";
    let cmd1 = "sleep 1 && echo 2 && sleep 2";

    let mut transcript = String::new();
    transcript.push_str(&emit_output_line(0, "1"));
    transcript.push_str(&emit_output_line(1, "2"));
    let (line0, _) = report_exit(0, cmd0, &Outcome::Exited(0), false, &tx);
    transcript.push_str(&line0);
    let (line1, _) = report_exit(1, cmd1, &Outcome::Exited(0), false, &tx);
    transcript.push_str(&line1);

    let expected_output = r"[0] 1
[1] 2
[0] echo 1 && sleep 2 exited with code 0
[1] sleep 1 && echo 2 && sleep 2 exited with code 0
";
    assert_eq!(transcript, expected_output);
    assert!(rx.try_recv().is_err());
}

#[test]
fn scenario_kill_others() {
    // With kill-on-exit set, the first command's exit triggers exactly
    // one cascade; the second command, terminated by the cascade,
    // still reports its own line, now reflecting the signal, and its
    // discarded trigger fires nothing.
    let (tx, rx) = crossbeam::channel::bounded::<SignalKind>(1);
    let mut coord = CascadeCoordinator::new();
    let pids: Vec<u32> = Vec::new();
    let cmd0 = "echo 1 && sleep 2";
    let cmd1 = "sleep 1 && echo 2 && sleep 2";

    let mut transcript = String::new();
    transcript.push_str(&emit_output_line(0, "1"));
    transcript.push_str(&emit_output_line(1, "2"));

    let (line0, raised0) = report_exit(0, cmd0, &Outcome::Exited(0), true, &tx);
    transcript.push_str(&line0);
    assert!(raised0);
    let (_, fired0) = consume_trigger(&rx, &mut coord, &pids);
    assert!(fired0);

    let (line1, raised1) = report_exit(1, cmd1, &Outcome::Signaled(15), true, &tx);
    transcript.push_str(&line1);
    assert!(raised1);
    let (_, fired1) = consume_trigger(&rx, &mut coord, &pids);
    assert!(!fired1);

    let expected_output = r"[0] 1
[1] 2
[0] echo 1 && sleep 2 exited with code 0
[1] sleep 1 && echo 2 && sleep 2 exited with code SIGTERM
";
    assert_eq!(transcript, expected_output);
}
