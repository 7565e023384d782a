//! Rendering of the console lines: decimal digits, the `[<index>] `
//! prefix, child-output lines, "exited with code" report lines, and the
//! cascade notice. Every rendered line carries its trailing newline so
//! that one write emits one whole line.

use vstd::prelude::*;

use crate::signals::{spec_kind_name, SignalKind};

verus! {

/// The decimal digit character for a value below ten.
pub open spec fn digit_char(d: int) -> char {
    if d == 0 {
        '0'
    } else if d == 1 {
        '1'
    } else if d == 2 {
        '2'
    } else if d == 3 {
        '3'
    } else if d == 4 {
        '4'
    } else if d == 5 {
        '5'
    } else if d == 6 {
        '6'
    } else if d == 7 {
        '7'
    } else if d == 8 {
        '8'
    } else {
        '9'
    }
}

/// The decimal representation of a non-negative integer, most
/// significant digit first, without leading zeros (except for zero
/// itself).
pub open spec fn spec_digits(n: int) -> Seq<char>
    decreases n,
{
    if n < 10 {
        seq![digit_char(n)]
    } else {
        spec_digits(n / 10).push(digit_char(n % 10))
    }
}

/// Holds of a character that renders some decimal digit.
pub open spec fn is_digit(c: char) -> bool {
    exists|d: int| 0 <= d < 10 && c == digit_char(d)
}

fn digit_str(d: u64) -> (r: &'static str)
    requires
        d < 10,
    ensures
        r@ == seq![digit_char(d as int)],
{
    let r: &'static str = if d == 0 {
        "0"
    } else if d == 1 {
        "1"
    } else if d == 2 {
        "2"
    } else if d == 3 {
        "3"
    } else if d == 4 {
        "4"
    } else if d == 5 {
        "5"
    } else if d == 6 {
        "6"
    } else if d == 7 {
        "7"
    } else if d == 8 {
        "8"
    } else {
        "9"
    };
    proof {
        reveal_strlit("0");
        reveal_strlit("1");
        reveal_strlit("2");
        reveal_strlit("3");
        reveal_strlit("4");
        reveal_strlit("5");
        reveal_strlit("6");
        reveal_strlit("7");
        reveal_strlit("8");
        reveal_strlit("9");
        assert(r@ =~= seq![digit_char(d as int)]);
    }
    r
}

/// Appends the decimal representation of `n` to `s`.
pub fn push_digits(s: &mut String, n: u64)
    ensures
        final(s)@ == old(s)@ + spec_digits(n as int),
    decreases n,
{
    if n < 10 {
        let t = digit_str(n);
        s.append(t);
        proof {
            assert(old(s)@ + t@ =~= old(s)@ + spec_digits(n as int));
        }
    } else {
        push_digits(s, n / 10);
        let t = digit_str(n % 10);
        s.append(t);
        proof {
            assert((old(s)@ + spec_digits(n as int / 10)) + seq![digit_char(n as int % 10)]
                =~= old(s)@ + spec_digits(n as int));
        }
    }
}

/// Renders a non-negative integer in decimal.
pub fn usize_to_string(n: usize) -> (r: String)
    ensures
        r@ == spec_digits(n as int),
{
    let mut s = String::new();
    push_digits(&mut s, n as u64);
    proof {
        assert(Seq::<char>::empty() + spec_digits(n as int) =~= spec_digits(n as int));
    }
    s
}

/// The decimal representation of an exit code, with a leading minus
/// sign when it is negative.
pub open spec fn spec_code_display(c: int) -> Seq<char> {
    if c < 0 {
        "-"@ + spec_digits(-c)
    } else {
        spec_digits(c)
    }
}

/// Renders a numeric exit code.
pub fn code_to_string(c: i32) -> (r: String)
    ensures
        r@ == spec_code_display(c as int),
{
    let mut s = String::new();
    if c < 0 {
        s.append("-");
        let m: u64 = (-(c as i64)) as u64;
        push_digits(&mut s, m);
        proof {
            assert((Seq::<char>::empty() + "-"@) + spec_digits(m as int)
                =~= "-"@ + spec_digits(-(c as int)));
        }
    } else {
        push_digits(&mut s, c as u64);
        proof {
            assert(Seq::<char>::empty() + spec_digits(c as int) =~= spec_digits(c as int));
        }
    }
    s
}

/// The `[<index>] ` prefix that attributes a console line to one
/// command.
pub open spec fn spec_prefix(idx: int) -> Seq<char> {
    "["@ + spec_digits(idx) + "] "@
}

/// A relayed child-output line: prefix, the child's line, newline.
pub open spec fn spec_output_line(idx: int, line: Seq<char>) -> Seq<char> {
    spec_prefix(idx) + line + "\n"@
}

/// A termination report line: prefix, the original command text,
/// ` exited with code `, the outcome display, newline.
pub open spec fn spec_exit_line(idx: int, cmd: Seq<char>, disp: Seq<char>) -> Seq<char> {
    spec_prefix(idx) + cmd + " exited with code "@ + disp + "\n"@
}

/// The notice logged once when a cascade fires.
pub open spec fn spec_cascade_notice(k: SignalKind) -> Seq<char> {
    "--> Sending "@ + spec_kind_name(k) + " Signal to other processes..\n"@
}

/// Every character of a rendered decimal number is a digit character.
pub proof fn lemma_digits_are_digits(n: int)
    requires
        n >= 0,
    ensures
        forall|i: int| 0 <= i < spec_digits(n).len() ==> #[trigger] is_digit(spec_digits(n)[i]),
    decreases n,
{
    if n < 10 {
        assert(is_digit(spec_digits(n)[0]));
    } else {
        lemma_digits_are_digits(n / 10);
        assert(is_digit(digit_char(n % 10)));
        assert forall|i: int| 0 <= i < spec_digits(n).len() implies #[trigger] is_digit(
            spec_digits(n)[i],
        ) by {
            if i < spec_digits(n / 10).len() {
                assert(spec_digits(n)[i] == spec_digits(n / 10)[i]);
            } else {
                assert(spec_digits(n)[i] == digit_char(n % 10));
            }
        }
    }
}

/// A rendered decimal number is never empty, and has a single digit
/// exactly for values below ten.
pub proof fn lemma_digits_len(n: int)
    requires
        n >= 0,
    ensures
        spec_digits(n).len() >= 1,
        (spec_digits(n).len() == 1) == (n < 10),
    decreases n,
{
    if n >= 10 {
        lemma_digits_len(n / 10);
    }
}

/// Distinct non-negative integers render as distinct digit sequences.
pub proof fn lemma_digits_injective(a: int, b: int)
    requires
        a >= 0,
        b >= 0,
        a != b,
    ensures
        spec_digits(a) != spec_digits(b),
    decreases a + b,
{
    lemma_digits_len(a);
    lemma_digits_len(b);
    if a < 10 && b < 10 {
        assert(digit_char(a) != digit_char(b));
        assert(spec_digits(a)[0] == digit_char(a));
        assert(spec_digits(b)[0] == digit_char(b));
    } else if a < 10 || b < 10 {
        assert(spec_digits(a).len() != spec_digits(b).len());
    } else {
        if spec_digits(a) == spec_digits(b) {
            let la = spec_digits(a / 10).len() as int;
            assert(spec_digits(a).last() == digit_char(a % 10));
            assert(spec_digits(b).last() == digit_char(b % 10));
            assert(a % 10 == b % 10);
            assert(spec_digits(a / 10) =~= spec_digits(b / 10)) by {
                assert(spec_digits(a).len() == spec_digits(b).len());
                assert forall|i: int| 0 <= i < la implies #[trigger] spec_digits(a / 10)[i]
                    == spec_digits(b / 10)[i] by {
                    assert(spec_digits(a)[i] == spec_digits(a / 10)[i]);
                    assert(spec_digits(b)[i] == spec_digits(b / 10)[i]);
                }
            }
            if a / 10 != b / 10 {
                lemma_digits_injective(a / 10, b / 10);
            }
            assert(false);
        }
    }
}

/// A line that carries the prefix of one index never equals a line that
/// carries the prefix of a different index, whatever follows the two
/// prefixes: the `[<index>] ` prefix attributes a line to exactly one
/// command.
pub proof fn lemma_prefixed_lines_distinct(i: int, j: int, rest_i: Seq<char>, rest_j: Seq<char>)
    requires
        i >= 0,
        j >= 0,
        i != j,
    ensures
        spec_prefix(i) + rest_i != spec_prefix(j) + rest_j,
{
    reveal_strlit("[");
    reveal_strlit("] ");
    lemma_digits_are_digits(i);
    lemma_digits_are_digits(j);
    lemma_digits_injective(i, j);
    let di = spec_digits(i);
    let dj = spec_digits(j);
    let li = di.len() as int;
    let lj = dj.len() as int;
    let s1 = spec_prefix(i) + rest_i;
    let s2 = spec_prefix(j) + rest_j;
    assert forall|d: int| 0 <= d < 10 implies digit_char(d) != ']' by {}
    assert forall|k: int| 0 <= k < li implies s1[1 + k] == di[k] by {}
    assert forall|k: int| 0 <= k < lj implies s2[1 + k] == dj[k] by {}
    assert(s1[1 + li] == ']');
    assert(s2[1 + lj] == ']');
    if s1 == s2 {
        if li == lj {
            assert(di =~= dj) by {
                assert forall|k: int| 0 <= k < li implies di[k] == dj[k] by {
                    assert(s1[1 + k] == s2[1 + k]);
                }
            }
            assert(false);
        } else if li < lj {
            assert(s1[1 + li] == s2[1 + li]);
            assert(s2[1 + li] == dj[li]);
            assert(is_digit(dj[li]));
            assert(false);
        } else {
            assert(s2[1 + lj] == s1[1 + lj]);
            assert(s1[1 + lj] == di[lj]);
            assert(is_digit(di[lj]));
            assert(false);
        }
    }
}

/// A line that begins with one index's `[<index>] ` prefix never begins
/// with a different index's prefix as well: every printed line is
/// attributable to exactly one source command.
pub proof fn lemma_prefix_unambiguous(i: int, j: int, rest: Seq<char>)
    requires
        i >= 0,
        j >= 0,
        i != j,
    ensures
        !spec_prefix(j).is_prefix_of(spec_prefix(i) + rest),
{
    reveal_strlit("[");
    reveal_strlit("] ");
    lemma_digits_are_digits(i);
    lemma_digits_are_digits(j);
    lemma_digits_injective(i, j);
    let di = spec_digits(i);
    let dj = spec_digits(j);
    let li = di.len() as int;
    let lj = dj.len() as int;
    let s1 = spec_prefix(i) + rest;
    let pj = spec_prefix(j);
    assert forall|d: int| 0 <= d < 10 implies digit_char(d) != ']' by {}
    assert forall|k: int| 0 <= k < li implies s1[1 + k] == di[k] by {}
    assert forall|k: int| 0 <= k < lj implies pj[1 + k] == dj[k] by {}
    assert(s1[1 + li] == ']');
    assert(pj[1 + lj] == ']');
    if pj.is_prefix_of(s1) {
        if li == lj {
            assert(di =~= dj) by {
                assert forall|k: int| 0 <= k < li implies di[k] == dj[k] by {
                    assert(pj[1 + k] == s1[1 + k]);
                }
            }
            assert(false);
        } else if li < lj {
            assert(pj[1 + li] == s1[1 + li]);
            assert(pj[1 + li] == dj[li]);
            assert(is_digit(dj[li]));
            assert(false);
        } else {
            assert(pj[1 + lj] == s1[1 + lj]);
            assert(s1[1 + lj] == di[lj]);
            assert(is_digit(di[lj]));
            assert(false);
        }
    }
}

/// Output lines relayed for two different command indices are never the
/// same string, whatever the two commands printed.
pub proof fn lemma_output_lines_distinct(i: int, j: int, line_i: Seq<char>, line_j: Seq<char>)
    requires
        i >= 0,
        j >= 0,
        i != j,
    ensures
        spec_output_line(i, line_i) != spec_output_line(j, line_j),
{
    assert(spec_output_line(i, line_i) =~= spec_prefix(i) + (line_i + "\n"@));
    assert(spec_output_line(j, line_j) =~= spec_prefix(j) + (line_j + "\n"@));
    lemma_prefixed_lines_distinct(i, j, line_i + "\n"@, line_j + "\n"@);
}

/// Termination report lines for two different command indices are never
/// the same string: each index's "exited with code" line is its own.
pub proof fn lemma_exit_lines_distinct(
    i: int,
    j: int,
    cmd_i: Seq<char>,
    disp_i: Seq<char>,
    cmd_j: Seq<char>,
    disp_j: Seq<char>,
)
    requires
        i >= 0,
        j >= 0,
        i != j,
    ensures
        spec_exit_line(i, cmd_i, disp_i) != spec_exit_line(j, cmd_j, disp_j),
{
    assert(spec_exit_line(i, cmd_i, disp_i) =~= spec_prefix(i) + (cmd_i + " exited with code "@
        + disp_i + "\n"@));
    assert(spec_exit_line(j, cmd_j, disp_j) =~= spec_prefix(j) + (cmd_j + " exited with code "@
        + disp_j + "\n"@));
    lemma_prefixed_lines_distinct(
        i,
        j,
        cmd_i + " exited with code "@ + disp_i + "\n"@,
        cmd_j + " exited with code "@ + disp_j + "\n"@,
    );
}

/// Renders one relayed child-output line.
pub fn render_output_line(idx: usize, line: &str) -> (r: String)
    ensures
        r@ == spec_output_line(idx as int, line@),
{
    let mut s = String::new();
    s.append("[");
    push_digits(&mut s, idx as u64);
    s.append("] ");
    s.append(line);
    s.append("\n");
    proof {
        assert(s@ =~= spec_output_line(idx as int, line@));
    }
    s
}

/// Renders one termination report line from an already rendered outcome
/// display.
pub fn render_exit_line(idx: usize, cmd: &str, disp: &str) -> (r: String)
    ensures
        r@ == spec_exit_line(idx as int, cmd@, disp@),
{
    let mut s = String::new();
    s.append("[");
    push_digits(&mut s, idx as u64);
    s.append("] ");
    s.append(cmd);
    s.append(" exited with code ");
    s.append(disp);
    s.append("\n");
    proof {
        assert(s@ =~= spec_exit_line(idx as int, cmd@, disp@));
    }
    s
}

/// Renders the cascade notice for the delivered signal kind.
pub fn render_cascade_notice(k: SignalKind) -> (r: String)
    ensures
        r@ == spec_cascade_notice(k),
{
    let mut s = String::new();
    s.append("--> Sending ");
    s.append(crate::signals::kind_name(k));
    s.append(" Signal to other processes..\n");
    proof {
        assert(s@ =~= spec_cascade_notice(k));
    }
    s
}

} // verus!

