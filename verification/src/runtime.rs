//! The verified side of the run's concurrent tasks: relaying one output
//! line, reporting one termination, listening for external signals, and
//! consuming cascade triggers. Each operating-system interaction goes
//! through one trusted wrapper; every decision around those calls is
//! verified.

use vstd::prelude::*;

use crate::cascade::{event_trigger, CascadeCoordinator, RunEvent};
use crate::outcome::{exit_report_line, spec_outcome_display, Outcome};
use crate::signals::{translate_signal, SignalKind, SIGHUP, SIGINT, SIGQUIT, SIGTERM};
use crate::text::{render_cascade_notice, render_output_line, spec_cascade_notice,
    spec_exit_line, spec_output_line};
use std::io::Write;

verus! {

#[verifier::external_type_specification]
#[verifier::external_body]
#[verifier::reject_recursive_types(T)]
pub struct ExSender<T>(crossbeam::channel::Sender<T>);

#[verifier::external_type_specification]
#[verifier::external_body]
#[verifier::reject_recursive_types(T)]
pub struct ExReceiver<T>(crossbeam::channel::Receiver<T>);

/// The stream of registered termination-class signal deliveries. It
/// holds signal_hook's `Signals`, whose declaration Verus refuses (its
/// generic parameter is bounded by a sealed trait), so the whole struct
/// is opaque and is only carried between the trusted wrappers below.
#[verifier::external_body]
pub struct SignalStream {
    inner: signal_hook::iterator::Signals,
}

#[verifier::external_type_specification]
#[verifier::external_body]
pub struct ExSystem(sysinfo::System);

#[verifier::external_type_specification]
#[verifier::external_body]
pub struct ExProcess(sysinfo::Process);

/// Relies on the `write!` macro over standard output: emits the whole
/// string in one call, so that concurrently relayed lines never
/// interleave within a line.
#[verifier::external_body]
fn write_out(line: &str) {
    let _ = write!(std::io::stdout(), "{}", line);
}

/// Relies on crossbeam's `Sender::send`: delivers the trigger to the
/// channel, or reports failure when every receiver is gone. Whether it
/// succeeds depends on the channel's state, so nothing more is claimed.
#[verifier::external_body]
fn send_trigger(tx: &crossbeam::channel::Sender<SignalKind>, kind: SignalKind) -> (delivered:
    bool) {
    tx.send(kind).is_ok()
}

/// Relies on crossbeam's `Receiver::recv`: blocks until a trigger
/// arrives (`Some`) or the channel is closed and drained (`None`).
/// Which trigger arrives depends on the other tasks, so nothing more is
/// claimed.
#[verifier::external_body]
fn recv_trigger(rx: &crossbeam::channel::Receiver<SignalKind>) -> (r: Option<SignalKind>) {
    rx.recv().ok()
}

/// Holds of the signal numbers this run may register interest in: the
/// termination-class signals, none of which the platform's registry
/// refuses.
pub open spec fn registerable(sig: i32) -> bool {
    sig == SIGHUP || sig == SIGINT || sig == SIGQUIT || sig == SIGTERM
}

/// Relies on signal_hook's `Signals::new`: registers interest in the
/// given signal numbers and returns the stream of their deliveries, or
/// `None` when registration fails. The registry panics on signals that
/// can never be caught, so only catchable termination-class numbers are
/// accepted.
#[verifier::external_body]
fn register_signals(sigs: &Vec<i32>) -> (r: Option<SignalStream>)
    requires
        forall|k: int| 0 <= k < sigs@.len() ==> registerable(#[trigger] sigs@[k]),
{
    match signal_hook::iterator::Signals::new(sigs.iter().copied()) {
        Ok(inner) => Some(SignalStream { inner }),
        Err(_) => None,
    }
}

/// Relies on signal_hook's `Signals::forever` iterator: blocks until
/// the operating system delivers one of the registered signals and
/// returns its number, or `None` once the stream is closed. Which
/// signal arrives, and when, is the operating system's choice.
#[verifier::external_body]
fn next_signal(signals: &mut SignalStream) -> (r: Option<i32>) {
    signals.inner.forever().next()
}

/// Relies on sysinfo's `System::new_all`: a snapshot of the processes
/// running now. What it holds depends on the machine's state.
#[verifier::external_body]
fn new_system() -> (s: sysinfo::System) {
    sysinfo::System::new_all()
}

/// Relies on sysinfo's `System::process`: resolves a process identifier
/// against the snapshot; `None` when no such process was seen. Whether
/// the identifier still resolves depends on the machine's state.
#[verifier::external_body]
fn find_process<'a>(sys: &'a sysinfo::System, pid: u32) -> (r: Option<&'a sysinfo::Process>) {
    sys.process(sysinfo::Pid::from_u32(pid))
}

/// Relies on sysinfo's `SUPPORTED_SIGNALS`: whether this platform can
/// deliver the given signal kind at all. A platform constant, but a
/// platform-dependent one, so nothing more is claimed.
#[verifier::external_body]
fn signal_supported(kind: SignalKind) -> (r: bool) {
    let sig = match kind {
        SignalKind::Term => sysinfo::Signal::Term,
        SignalKind::Interrupt => sysinfo::Signal::Interrupt,
        SignalKind::Hangup => sysinfo::Signal::Hangup,
        SignalKind::Quit => sysinfo::Signal::Quit,
        SignalKind::Kill => sysinfo::Signal::Kill,
    };
    sysinfo::SUPPORTED_SIGNALS.contains(&sig)
}

/// Relies on sysinfo's `Process::kill_with`: delivers the signal to the
/// process, `None` when the platform cannot express that signal, else
/// whether delivery succeeded. Success depends on the machine's state.
#[verifier::external_body]
fn kill_process_with(p: &sysinfo::Process, kind: SignalKind) -> (r: Option<bool>) {
    let sig = match kind {
        SignalKind::Term => sysinfo::Signal::Term,
        SignalKind::Interrupt => sysinfo::Signal::Interrupt,
        SignalKind::Hangup => sysinfo::Signal::Hangup,
        SignalKind::Quit => sysinfo::Signal::Quit,
        SignalKind::Kill => sysinfo::Signal::Kill,
    };
    p.kill_with(sig)
}

/// Relies on sysinfo's `Process::kill`: the unconditional hard kill,
/// used as the fallback when a specific signal kind cannot be
/// delivered. Success depends on the machine's state.
#[verifier::external_body]
fn kill_process(p: &sysinfo::Process) -> (r: bool) {
    p.kill()
}

/// Relays one line of a child's output: renders the `[<index>] `
/// prefixed line and emits it as a single write. Returns the exact
/// line that was written.
pub fn emit_output_line(idx: usize, line: &str) -> (written: String)
    ensures
        written@ == spec_output_line(idx as int, line@),
{
    let s = render_output_line(idx, line);
    write_out(s.as_str());
    s
}

/// Reports one command's termination: renders and emits its
/// "exited with code" line as a single write, and — exactly when
/// kill-on-exit is set — raises a sibling-exit cascade trigger with the
/// default termination kind. Returns the written line and whether a
/// trigger was raised, which matches the run model's `event_trigger`.
pub fn report_exit(
    idx: usize,
    cmd: &str,
    outcome: &Outcome,
    kill_others: bool,
    tx: &crossbeam::channel::Sender<SignalKind>,
) -> (r: (String, bool))
    ensures
        r.0@ == spec_exit_line(idx as int, cmd@, spec_outcome_display(*outcome)),
        r.1 == kill_others,
        r.1 == (event_trigger(kill_others, RunEvent::SiblingExit { idx: idx as int })
            matches Some(_)),
{
    let line = exit_report_line(idx, cmd, outcome);
    write_out(line.as_str());
    if kill_others {
        let _ = send_trigger(tx, SignalKind::Term);
        (line, true)
    } else {
        (line, false)
    }
}

/// Registers interest in the termination-class signals — interrupt,
/// hangup, terminate, quit — and returns the stream of their
/// deliveries, or `None` where the platform refuses registration (the
/// run then simply has no external-signal cascade path).
pub fn open_signal_listener() -> (r: Option<SignalStream>) {
    let mut sigs: Vec<i32> = Vec::new();
    sigs.push(SIGTERM);
    sigs.push(SIGINT);
    sigs.push(SIGHUP);
    sigs.push(SIGQUIT);
    register_signals(&sigs)
}

/// Handles one republication step of the signal listener: translates
/// the raw signal that arrived into the kind to forward — interrupts
/// are deliberately not forwarded (see `translate_signal`) — and raises
/// that kind as a cascade trigger.
pub fn forward_signal(raw: i32, tx: &crossbeam::channel::Sender<SignalKind>) -> (forwarded:
    Option<SignalKind>)
    ensures
        forwarded == crate::signals::spec_translate_signal(raw as int),
{
    match translate_signal(raw) {
        Option::Some(kind) => {
            let _ = send_trigger(tx, kind);
            Option::Some(kind)
        },
        Option::None => Option::None,
    }
}

/// Waits for the next externally delivered termination-class signal and
/// republishes it as a cascade trigger of the matching kind. Returns
/// the raw signal that arrived and the kind that was forwarded for it,
/// or `None` once the signal stream is closed; the surrounding task
/// calls this for the lifetime of the run.
pub fn forward_next_signal(signals: &mut SignalStream, tx: &crossbeam::channel::Sender<SignalKind>)
    -> (r: Option<(i32, Option<SignalKind>)>)
    ensures
        (r matches Some((raw, f)) ==> f == crate::signals::spec_translate_signal(raw as int)),
{
    match next_signal(signals) {
        Option::Some(raw) => {
            let forwarded = forward_signal(raw, tx);
            Option::Some((raw, forwarded))
        },
        Option::None => Option::None,
    }
}

/// Delivers the cascade signal to one tracked process, if its
/// identifier still resolves to a live process: the signal kind itself
/// where the platform supports it, the unconditional hard kill where it
/// does not.
fn kill_one(sys: &sysinfo::System, pid: u32, kind: SignalKind) {
    match find_process(sys, pid) {
        Option::Some(p) => {
            if signal_supported(kind) {
                match kill_process_with(p, kind) {
                    Option::Some(_) => {},
                    Option::None => {
                        let _ = kill_process(p);
                    },
                }
            } else {
                let _ = kill_process(p);
            }
        },
        Option::None => {},
    }
}

/// Performs one cascade: logs the single human-readable notice as one
/// write, then delivers the trigger's signal kind to every tracked
/// process that is still alive. Returns the exact notice line that was
/// written.
pub fn fire_cascade(kind: SignalKind, pids: &Vec<u32>) -> (notice: String)
    ensures
        notice@ == spec_cascade_notice(kind),
{
    let notice = render_cascade_notice(kind);
    write_out(notice.as_str());
    let sys = new_system();
    let mut i: usize = 0;
    while i < pids.len()
        invariant
            i <= pids.len(),
        decreases pids.len() - i,
    {
        kill_one(&sys, pids[i], kind);
        i = i + 1;
    }
    notice
}

/// Consumes one cascade trigger: blocks until a trigger arrives, fires
/// the cascade if and only if this trigger is the first, and discards
/// it otherwise. Returns whether the channel is still open and whether
/// this call fired: it fires exactly when a trigger arrived and the
/// coordinator was still armed, and the coordinator is fired afterwards
/// exactly when it was already fired or a trigger arrived. The
/// surrounding task, which owns the coordinator exclusively, calls this
/// until the channel closes, so at most one call of the whole run
/// fires.
pub fn consume_trigger(
    rx: &crossbeam::channel::Receiver<SignalKind>,
    coord: &mut CascadeCoordinator,
    pids: &Vec<u32>,
) -> (r: (bool, bool))
    ensures
        r.1 == (r.0 && !old(coord).has_fired()),
        final(coord).has_fired() == (old(coord).has_fired() || r.0),
{
    match recv_trigger(rx) {
        Option::Some(kind) => {
            if coord.try_fire() {
                let _ = fire_cascade(kind, pids);
                (true, true)
            } else {
                (true, false)
            }
        },
        Option::None => (false, false),
    }
}

} // verus!
