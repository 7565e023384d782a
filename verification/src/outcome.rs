//! Classification of a child process's termination into an outcome, and
//! the rendering of that outcome in a report line.

use vstd::prelude::*;

use crate::signals::spec_signal_name;
use crate::text::{code_to_string, render_exit_line, spec_code_display, spec_exit_line};

verus! {

/// How one launched process terminated. Produced exactly once per
/// process, by the task that waits on it.
#[derive(Clone, Copy, Debug, PartialEq, Eq, Structural)]
pub enum Outcome {
    /// The process ended with a numeric exit code.
    Exited(i32),
    /// The process was ended by the signal with this number.
    Signaled(i32),
    /// Waiting on the process failed, or the platform reported neither
    /// a code nor a signal; displayed as `?`.
    Unknown,
}

/// The outcome classified from what the platform's wait reported:
/// `None` when the wait itself failed, else the terminating signal (if
/// any) and the exit code (if any). A terminating signal takes
/// precedence over a code; neither present means the status is unknown.
pub open spec fn spec_classify(wait: Option<(Option<i32>, Option<i32>)>) -> Outcome {
    match wait {
        Option::None => Outcome::Unknown,
        Option::Some((sig, code)) => match sig {
            Option::Some(s) => Outcome::Signaled(s),
            Option::None => match code {
                Option::Some(c) => Outcome::Exited(c),
                Option::None => Outcome::Unknown,
            },
        },
    }
}

/// Classifies a wait result into a termination outcome.
pub fn classify(wait: Option<(Option<i32>, Option<i32>)>) -> (o: Outcome)
    ensures
        o == spec_classify(wait),
{
    match wait {
        Option::None => Outcome::Unknown,
        Option::Some((sig, code)) => match sig {
            Option::Some(s) => Outcome::Signaled(s),
            Option::None => match code {
                Option::Some(c) => Outcome::Exited(c),
                Option::None => Outcome::Unknown,
            },
        },
    }
}

/// What an outcome displays as in a report line: the exit code in
/// decimal, the name of the terminating signal, or `?`.
pub open spec fn spec_outcome_display(o: Outcome) -> Seq<char> {
    match o {
        Outcome::Exited(c) => spec_code_display(c as int),
        Outcome::Signaled(s) => spec_signal_name(s as int),
        Outcome::Unknown => "?"@,
    }
}

/// Renders an outcome's display form.
pub fn outcome_display(o: &Outcome) -> (r: String)
    ensures
        r@ == spec_outcome_display(*o),
{
    match o {
        Outcome::Exited(c) => code_to_string(*c),
        Outcome::Signaled(s) => String::from_str(crate::signals::signal_as_string(*s)),
        Outcome::Unknown => String::from_str("?"),
    }
}

/// Renders the whole "exited with code" report line for one command.
pub fn exit_report_line(idx: usize, cmd: &str, o: &Outcome) -> (r: String)
    ensures
        r@ == spec_exit_line(idx as int, cmd@, spec_outcome_display(*o)),
{
    let disp = outcome_display(o);
    render_exit_line(idx, cmd, disp.as_str())
}

} // verus!
