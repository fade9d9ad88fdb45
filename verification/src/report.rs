//! What the host writes down: the description of a failed script
//! execution, and the lines that a script logs.

use vstd::prelude::*;
use crate::text::texts_of;

verus! {

/// What the engine holds about a failed execution: the stack trace and
/// the exception itself, each as text, and each only where the engine has
/// one.
#[derive(Debug, Clone, PartialEq, Eq)]
pub struct Failure {
    pub stack_trace: Option<String>,
    pub exception: Option<String>,
}

/// The mathematical content of a [`Failure`].
pub struct FailureView {
    pub stack_trace: Option<Seq<char>>,
    pub exception: Option<Seq<char>>,
}

impl View for Failure {
    type V = FailureView;

    open spec fn view(&self) -> FailureView {
        FailureView {
            stack_trace: match self.stack_trace {
                Some(text) => Some(text@),
                None => None,
            },
            exception: match self.exception {
                Some(text) => Some(text@),
                None => None,
            },
        }
    }
}

/// The text that reports a failure: the stack trace where there is one,
/// else the exception, else the words `no exception`.
pub open spec fn description(failure: FailureView) -> Seq<char> {
    match failure.stack_trace {
        Some(trace) => trace,
        None => match failure.exception {
            Some(exception) => exception,
            None => "no exception"@,
        },
    }
}

/// The character of a decimal digit.
pub open spec fn digit_char(digit: nat) -> char
    recommends
        digit < 10,
{
    ('0' as u8 + digit) as char
}

/// A number in decimal, without sign and without leading zeros.
pub open spec fn decimal(number: nat) -> Seq<char>
    decreases number,
{
    if number < 10 {
        seq![digit_char(number)]
    } else {
        decimal(number / 10).push(digit_char(number % 10))
    }
}

/// The parts one after the other, with one space between neighbours.
pub open spec fn joined(parts: Seq<Seq<char>>) -> Seq<char>
    decreases parts.len(),
{
    if parts.len() == 0 {
        Seq::empty()
    } else if parts.len() == 1 {
        parts[0]
    } else {
        joined(parts.drop_last()) + seq![' '] + parts.last()
    }
}

/// The line that is logged for a call of the script's logging function:
/// `[info NAME:LINE] ARGUMENTS`, with `<unknown>` for a name that is not
/// known and `0` for a line that is not known.
pub open spec fn log_line_text(
    script: Option<Seq<char>>,
    line: Option<u64>,
    arguments: Seq<Seq<char>>,
) -> Seq<char> {
    let name = match script {
        Some(name) => name,
        None => "<unknown>"@,
    };
    let number = match line {
        Some(number) => number as nat,
        None => 0nat,
    };
    "[info "@ + name + ":"@ + decimal(number) + "] "@ + joined(arguments)
}

/// The text that reports a failure.
pub fn describe(failure: &Failure) -> (text: String)
    ensures
        text@ == description(failure@),
{
    match &failure.stack_trace {
        Some(trace) => trace.clone(),
        None => match &failure.exception {
            Some(exception) => exception.clone(),
            None => "no exception".to_owned(),
        },
    }
}

/// The text of one decimal digit.
fn digit_text(digit: u8) -> (text: &'static str)
    requires
        digit < 10,
    ensures
        text@ == seq![digit_char(digit as nat)],
{
    proof {
        reveal_strlit("0");
        reveal_strlit("1");
        reveal_strlit("2");
        reveal_strlit("3");
        reveal_strlit("4");
        reveal_strlit("5");
        reveal_strlit("6");
        reveal_strlit("7");
        reveal_strlit("8");
        reveal_strlit("9");
    }
    if digit == 0 {
        "0"
    } else if digit == 1 {
        "1"
    } else if digit == 2 {
        "2"
    } else if digit == 3 {
        "3"
    } else if digit == 4 {
        "4"
    } else if digit == 5 {
        "5"
    } else if digit == 6 {
        "6"
    } else if digit == 7 {
        "7"
    } else if digit == 8 {
        "8"
    } else {
        "9"
    }
}

/// The digits in `lows`, which holds the lowest digit first, written with
/// the highest digit first.
spec fn high_first(lows: Seq<u8>) -> Seq<char> {
    Seq::new(lows.len(), |k: int| digit_char(lows[lows.len() - 1 - k] as nat))
}

/// Writes a number in decimal.
pub fn decimal_text(number: u64) -> (text: String)
    ensures
        text@ == decimal(number as nat),
{
    let mut lows: Vec<u8> = Vec::new();
    lows.push((number % 10) as u8);
    let mut rest: u64 = number / 10;
    while rest > 0
        invariant
            lows@.len() >= 1,
            forall|k: int| 0 <= k < lows@.len() ==> lows@[k] < 10,
            decimal(number as nat) == if rest > 0 {
                decimal(rest as nat) + high_first(lows@)
            } else {
                high_first(lows@)
            },
        decreases rest,
    {
        let digit = (rest % 10) as u8;
        proof {
            if rest >= 10 {
                assert(decimal(rest as nat) + high_first(lows@) =~= decimal((rest / 10) as nat)
                    + high_first(lows@.push(digit)));
            }
        }
        lows.push(digit);
        rest = rest / 10;
    }
    let mut text = String::new();
    let mut left: usize = lows.len();
    while left > 0
        invariant
            left <= lows@.len(),
            forall|k: int| 0 <= k < lows@.len() ==> lows@[k] < 10,
            text@ == high_first(lows@).take(lows@.len() - left),
        decreases left,
    {
        left -= 1;
        let piece = digit_text(lows[left]);
        text.append(piece);
    }
    text
}

/// Joins the parts with one space between neighbours.
pub fn join_with_space(parts: &Vec<String>) -> (text: String)
    ensures
        text@ == joined(texts_of(parts@)),
{
    let ghost all = texts_of(parts@);
    let mut text = String::new();
    let mut at: usize = 0;
    while at < parts.len()
        invariant
            at <= parts.len(),
            all == texts_of(parts@),
            text@ == joined(all.take(at as int)),
        decreases parts.len() - at,
    {
        proof {
            reveal_strlit(" ");
            let next = all.take(at + 1);
            assert(next.drop_last() =~= all.take(at as int));
        }
        if at > 0 {
            text.append(" ");
        }
        text.append(parts[at].as_str());
        at += 1;
    }
    assert(all.take(at as int) =~= all);
    text
}

/// The line that is logged for a call of the script's logging function.
pub fn log_line(script: Option<&str>, line: Option<u64>, arguments: &Vec<String>) -> (text: String)
    ensures
        text@ == log_line_text(
            match script {
                Some(name) => Some(name@),
                None => None,
            },
            line,
            texts_of(arguments@),
        ),
{
    let mut text = "[info ".to_owned();
    match script {
        Some(name) => text.append(name),
        None => text.append("<unknown>"),
    }
    text.append(":");
    let number = match line {
        Some(number) => number,
        None => 0,
    };
    text.append(decimal_text(number).as_str());
    text.append("] ");
    text.append(join_with_space(arguments).as_str());
    text
}

} // verus!
