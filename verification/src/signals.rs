//! Numeric termination-class signals, their display names, and the
//! translation of an externally received signal into an internal
//! cascade-signal kind.

use vstd::prelude::*;

verus! {

/// Hangup signal number.
pub const SIGHUP: i32 = 1;
/// Interrupt signal number.
pub const SIGINT: i32 = 2;
/// Quit signal number.
pub const SIGQUIT: i32 = 3;
/// Illegal-instruction signal number.
pub const SIGILL: i32 = 4;
/// Abort signal number.
pub const SIGABRT: i32 = 6;
/// Arithmetic-fault signal number.
pub const SIGFPE: i32 = 8;
/// Hard-kill signal number.
pub const SIGKILL: i32 = 9;
/// Segmentation-fault signal number.
pub const SIGSEGV: i32 = 11;
/// Broken-pipe signal number.
pub const SIGPIPE: i32 = 13;
/// Alarm signal number.
pub const SIGALRM: i32 = 14;
/// Termination signal number.
pub const SIGTERM: i32 = 15;

/// The display name of a raw signal number, as shown in an
/// "exited with code" report line.
pub open spec fn spec_signal_name(sig: int) -> Seq<char> {
    if sig == SIGHUP as int {
        "SIGHUP"@
    } else if sig == SIGINT as int {
        "SIGINT"@
    } else if sig == SIGQUIT as int {
        "SIGQUIT"@
    } else if sig == SIGILL as int {
        "SIGILL"@
    } else if sig == SIGABRT as int {
        "SIGABRT"@
    } else if sig == SIGFPE as int {
        "SIGFPE"@
    } else if sig == SIGKILL as int {
        "SIGKILL"@
    } else if sig == SIGSEGV as int {
        "SIGSEGV"@
    } else if sig == SIGPIPE as int {
        "SIGPIPE"@
    } else if sig == SIGALRM as int {
        "SIGALRM"@
    } else if sig == SIGTERM as int {
        "SIGTERM"@
    } else {
        "Unknown Signal"@
    }
}

/// Maps a raw signal number to its display name.
pub fn signal_as_string(sig: i32) -> (r: &'static str)
    ensures
        r@ == spec_signal_name(sig as int),
{
    if sig == SIGHUP {
        "SIGHUP"
    } else if sig == SIGINT {
        "SIGINT"
    } else if sig == SIGQUIT {
        "SIGQUIT"
    } else if sig == SIGILL {
        "SIGILL"
    } else if sig == SIGABRT {
        "SIGABRT"
    } else if sig == SIGFPE {
        "SIGFPE"
    } else if sig == SIGKILL {
        "SIGKILL"
    } else if sig == SIGSEGV {
        "SIGSEGV"
    } else if sig == SIGPIPE {
        "SIGPIPE"
    } else if sig == SIGALRM {
        "SIGALRM"
    } else if sig == SIGTERM {
        "SIGTERM"
    } else {
        "Unknown Signal"
    }
}

/// The kind of termination signal a cascade delivers to sibling
/// processes.
#[derive(Clone, Copy, Debug, PartialEq, Eq, Structural)]
pub enum SignalKind {
    /// Graceful termination request.
    Term,
    /// Keyboard interrupt.
    Interrupt,
    /// Terminal hangup.
    Hangup,
    /// Quit request.
    Quit,
    /// Unconditional kill.
    Kill,
}

/// The display name of a signal kind, as shown in the cascade notice
/// line.
pub open spec fn spec_kind_name(k: SignalKind) -> Seq<char> {
    match k {
        SignalKind::Term => "Term"@,
        SignalKind::Interrupt => "Interrupt"@,
        SignalKind::Hangup => "Hangup"@,
        SignalKind::Quit => "Quit"@,
        SignalKind::Kill => "Kill"@,
    }
}

/// Maps a signal kind to its display name.
pub fn kind_name(k: SignalKind) -> (r: &'static str)
    ensures
        r@ == spec_kind_name(k),
{
    match k {
        SignalKind::Term => "Term",
        SignalKind::Interrupt => "Interrupt",
        SignalKind::Hangup => "Hangup",
        SignalKind::Quit => "Quit",
        SignalKind::Kill => "Kill",
    }
}

/// How an externally received raw signal is republished internally.
/// Interrupts are deliberately not forwarded: an interrupt reaches the
/// whole foreground process group on its own, so forwarding it would
/// deliver it twice. Every other termination-class signal becomes a
/// cascade trigger; unrecognised numbers default to a termination
/// request.
pub open spec fn spec_translate_signal(sig: int) -> Option<SignalKind> {
    if sig == SIGINT as int {
        None
    } else if sig == SIGHUP as int {
        Some(SignalKind::Hangup)
    } else if sig == SIGKILL as int {
        Some(SignalKind::Kill)
    } else if sig == SIGQUIT as int {
        Some(SignalKind::Quit)
    } else {
        Some(SignalKind::Term)
    }
}

/// Translates a raw signal received from the operating system into the
/// signal kind to republish as a cascade trigger, or `None` where the
/// signal is not forwarded.
pub fn translate_signal(sig: i32) -> (r: Option<SignalKind>)
    ensures
        r == spec_translate_signal(sig as int),
{
    if sig == SIGINT {
        None
    } else if sig == SIGHUP {
        Some(SignalKind::Hangup)
    } else if sig == SIGKILL {
        Some(SignalKind::Kill)
    } else if sig == SIGQUIT {
        Some(SignalKind::Quit)
    } else {
        Some(SignalKind::Term)
    }
}

} // verus!
