//! The lines the listing writes: one per process, plus a diagnostic when a
//! handle fails to close. Identifiers are written in decimal.
use vstd::prelude::*;

verus! {

/// Relies on `String::push`: it appends the one character at the end.
pub assume_specification[ String::push ](s: &mut String, ch: char)
    ensures
        final(s)@ == old(s)@.push(ch),
;

/// The character of decimal digit `d`.
pub open spec fn digit_char(d: nat) -> char {
    ((48 + d) as u8) as char
}

pub open spec fn is_digit(c: char) -> bool {
    '0' <= c && c <= '9'
}

/// The value of digit character `c`.
pub open spec fn digit_value(c: char) -> nat {
    (c as u32 - 48) as nat
}

/// `n` written in decimal, without leading zeros.
pub open spec fn decimal(n: nat) -> Seq<char>
    decreases n,
{
    if n < 10 {
        seq![digit_char(n)]
    } else {
        decimal(n / 10).push(digit_char(n % 10))
    }
}

/// The number that the digit characters `s` write in decimal.
pub open spec fn digits_value(s: Seq<char>) -> nat
    decreases s.len(),
{
    if s.len() == 0 {
        0
    } else {
        digits_value(s.drop_last()) * 10 + digit_value(s.last())
    }
}

/// Length of the run of digits that `t` begins with.
pub open spec fn digit_run(t: Seq<char>) -> nat
    decreases t.len(),
{
    if t.len() > 0 && is_digit(t[0]) {
        1 + digit_run(t.skip(1))
    } else {
        0
    }
}

pub open spec fn all_digits(s: Seq<char>) -> bool {
    forall|i: int| 0 <= i < s.len() ==> is_digit(#[trigger] s[i])
}

proof fn lemma_digit_char(d: nat)
    requires
        d < 10,
    ensures
        is_digit(digit_char(d)),
        digit_value(digit_char(d)) == d,
{
}

/// A decimal numeral is a non-empty run of digits that reads back as its number.
pub proof fn lemma_decimal_reads_back(n: nat)
    ensures
        decimal(n).len() > 0,
        all_digits(decimal(n)),
        digits_value(decimal(n)) == n,
    decreases n,
{
    if n >= 10 {
        lemma_decimal_reads_back(n / 10);
        lemma_digit_char(n % 10);
        assert(decimal(n).drop_last() =~= decimal(n / 10));
        assert((n / 10) * 10 + n % 10 == n);
    } else {
        lemma_digit_char(n);
        assert(decimal(n).drop_last() =~= Seq::<char>::empty());
        assert(digits_value(Seq::<char>::empty()) == 0);
        assert(decimal(n).last() == digit_char(n));
    }
}

/// A run of digits followed by a non-digit is exactly as long as the digits.
pub proof fn lemma_digit_run_of_numeral(d: Seq<char>, rest: Seq<char>)
    requires
        all_digits(d),
        rest.len() > 0 && !is_digit(rest[0]),
    ensures
        digit_run(d + rest) == d.len(),
    decreases d.len(),
{
    if d.len() > 0 {
        assert((d + rest).skip(1) =~= d.skip(1) + rest);
        lemma_digit_run_of_numeral(d.skip(1), rest);
    } else {
        assert(d + rest =~= rest);
    }
}

fn digit(d: u32) -> (c: char)
    requires
        d < 10,
    ensures
        c == digit_char(d as nat),
{
    ((48 + d) as u8) as char
}

/// Appends `n` in decimal to `s`.
pub fn push_decimal(s: &mut String, n: u32)
    ensures
        final(s)@ == old(s)@ + decimal(n as nat),
    decreases n,
{
    if n >= 10 {
        push_decimal(s, n / 10);
    }
    s.push(digit(n % 10));
}

/// One line of the listing's output.
#[derive(Debug, PartialEq, Eq)]
pub enum Line {
    /// Standard output: the process's module base name.
    Named { pid: u32, name: String },
    /// Standard output: the process was opened but its name could not be had.
    NameFailed { pid: u32, error: String },
    /// Standard error: the process could not be opened.
    OpenFailed { pid: u32, error: String },
    /// Standard error: the process's handle failed to close. The listing goes on.
    CloseFailed { pid: u32, error: String },
}

impl Line {
    pub open spec fn pid_spec(&self) -> u32 {
        match self {
            Line::Named { pid, .. } => *pid,
            Line::NameFailed { pid, .. } => *pid,
            Line::OpenFailed { pid, .. } => *pid,
            Line::CloseFailed { pid, .. } => *pid,
        }
    }

    /// The process the line is about.
    pub fn pid(&self) -> (r: u32)
        ensures
            r == self.pid_spec(),
    {
        match self {
            Line::Named { pid, .. } => *pid,
            Line::NameFailed { pid, .. } => *pid,
            Line::OpenFailed { pid, .. } => *pid,
            Line::CloseFailed { pid, .. } => *pid,
        }
    }

    pub open spec fn to_stdout_spec(&self) -> bool {
        self is Named || self is NameFailed
    }

    /// Whether the line goes to standard output rather than standard error.
    pub fn to_stdout(&self) -> (r: bool)
        ensures
            r == self.to_stdout_spec(),
    {
        match self {
            Line::Named { .. } | Line::NameFailed { .. } => true,
            _ => false,
        }
    }

    /// The line is the one that accounts for its process in the listing,
    /// as opposed to a diagnostic about closing its handle.
    pub open spec fn is_listing(&self) -> bool {
        !(self is CloseFailed)
    }

    /// The line's text, without a line terminator.
    pub open spec fn text_spec(&self) -> Seq<char> {
        match self {
            Line::Named { pid, name } => decimal(*pid as nat) + ": "@ + name@,
            Line::NameFailed { pid, error } => decimal(*pid as nat) + ": (failed to get name: "@
                + error@ + ")"@,
            Line::OpenFailed { pid, error } => "failed to open "@ + decimal(*pid as nat) + ": "@
                + error@,
            Line::CloseFailed { pid, error } => "failed to close "@ + decimal(*pid as nat)
                + ": "@ + error@,
        }
    }

    /// Renders the line's text.
    pub fn text(&self) -> (r: String)
        ensures
            r@ == self.text_spec(),
    {
        let mut s = String::new();
        match self {
            Line::Named { pid, name } => {
                push_decimal(&mut s, *pid);
                s.append(": ");
                s.append(name.as_str());
            },
            Line::NameFailed { pid, error } => {
                push_decimal(&mut s, *pid);
                s.append(": (failed to get name: ");
                s.append(error.as_str());
                s.append(")");
            },
            Line::OpenFailed { pid, error } => {
                s.append("failed to open ");
                push_decimal(&mut s, *pid);
                s.append(": ");
                s.append(error.as_str());
            },
            Line::CloseFailed { pid, error } => {
                s.append("failed to close ");
                push_decimal(&mut s, *pid);
                s.append(": ");
                s.append(error.as_str());
            },
        }
        s
    }
}

/// Every line written to standard output leads with its process identifier:
/// the text begins with a run of decimal digits, ended by a colon, that reads
/// as the identifier.
pub proof fn lemma_stdout_line_leads_with_pid(line: Line)
    requires
        line.to_stdout_spec(),
    ensures
        ({
            let t = line.text_spec();
            let k = digit_run(t);
            &&& 0 < k < t.len()
            &&& t[k as int] == ':'
            &&& digits_value(t.take(k as int)) == line.pid_spec()
        }),
{
    let d = decimal(line.pid_spec() as nat);
    let t = line.text_spec();
    let rest = t.skip(d.len() as int);
    reveal_strlit(": ");
    reveal_strlit(": (failed to get name: ");
    lemma_decimal_reads_back(line.pid_spec() as nat);
    assert(t =~= d + rest);
    assert(t.take(d.len() as int) =~= d);
    assert(rest[0] == ':');
    lemma_digit_run_of_numeral(d, rest);
}

} // verus!
