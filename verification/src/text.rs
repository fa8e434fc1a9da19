//! Times and deltas as text: decimal digits, zero padding, and the
//! `HH:MM:SS.mmm` form of a time.

use crate::clock::Time;
use crate::ledger::Milestone;
use vstd::prelude::*;
use vstd::string::StringExecFns;

verus! {

/// The character of one decimal digit.
pub open spec fn digit_char(d: int) -> char {
    if d == 0 {
        '0'
    } else if d == 1 {
        '1'
    } else if d == 2 {
        '2'
    } else if d == 3 {
        '3'
    } else if d == 4 {
        '4'
    } else if d == 5 {
        '5'
    } else if d == 6 {
        '6'
    } else if d == 7 {
        '7'
    } else if d == 8 {
        '8'
    } else {
        '9'
    }
}

/// The decimal digits of a natural number, most significant first, without
/// leading zeros.
pub open spec fn decimal_nat(n: nat) -> Seq<char>
    decreases n,
{
    if n < 10 {
        seq![digit_char(n as int)]
    } else {
        decimal_nat(n / 10).push(digit_char((n % 10) as int))
    }
}

/// The decimal form of an integer: a minus sign for a negative number, then
/// the digits of its magnitude.
pub open spec fn decimal(i: int) -> Seq<char> {
    if i < 0 {
        seq!['-'] + decimal_nat((-i) as nat)
    } else {
        decimal_nat(i as nat)
    }
}

/// A number padded to two places: one zero in front of anything below ten.
pub open spec fn tens_text(d: int) -> Seq<char> {
    if d < 10 {
        seq!['0'] + decimal(d)
    } else {
        decimal(d)
    }
}

/// A number padded to three places: two zeros in front of anything below
/// ten, one in front of anything below a hundred.
pub open spec fn hundreds_text(d: int) -> Seq<char> {
    if d < 10 {
        seq!['0', '0'] + decimal(d)
    } else if d < 100 {
        seq!['0'] + decimal(d)
    } else {
        decimal(d)
    }
}

/// A time as `HH:MM:SS.mmm`.
pub open spec fn time_text(t: Time) -> Seq<char> {
    tens_text(t.h as int) + seq![':'] + tens_text(t.m as int) + seq![':'] + tens_text(t.s as int)
        + seq!['.'] + hundreds_text(t.ms as int)
}

/// A delta of so many milliseconds as seconds with three decimals: a minus
/// sign if it is negative, the whole seconds, a point, the thousandths.
pub open spec fn delta_text(delta: int) -> Seq<char> {
    let magnitude = if delta < 0 {
        -delta
    } else {
        delta
    };
    let sign = if delta < 0 {
        seq!['-']
    } else {
        Seq::<char>::empty()
    };
    sign + decimal_nat((magnitude / 1000) as nat) + seq!['.'] + hundreds_text(magnitude % 1000)
}

/// The delta column of a milestone: blank until the milestone was passed.
pub open spec fn delta_column(delta: Option<i64>) -> Seq<char> {
    match delta {
        Some(d) => delta_text(d as int),
        None => Seq::<char>::empty(),
    }
}

/// Below a hundred the padded form is exactly two digits.
pub proof fn lemma_tens_text_two_digits(d: int)
    requires
        0 <= d < 100,
    ensures
        tens_text(d) == seq![digit_char(d / 10), digit_char(d % 10)],
{
    reveal_with_fuel(decimal_nat, 2);
    assert(tens_text(d) =~= seq![digit_char(d / 10), digit_char(d % 10)]);
}

/// Below a thousand the padded form is exactly three digits.
pub proof fn lemma_hundreds_text_three_digits(d: int)
    requires
        0 <= d < 1000,
    ensures
        hundreds_text(d) == seq![digit_char(d / 100), digit_char((d / 10) % 10), digit_char(d % 10)],
{
    reveal_with_fuel(decimal_nat, 3);
    assert(hundreds_text(d) =~= seq![
        digit_char(d / 100),
        digit_char((d / 10) % 10),
        digit_char(d % 10),
    ]);
}

/// A clock reading comes out as twelve characters: two digits each for
/// hours, minutes and seconds, three for the milliseconds.
pub proof fn lemma_time_text_of_clock_reading(t: Time)
    requires
        t.is_clock_reading(),
    ensures
        time_text(t) == seq![
            digit_char(t.h / 10),
            digit_char(t.h as int % 10),
            ':',
            digit_char(t.m / 10),
            digit_char(t.m as int % 10),
            ':',
            digit_char(t.s / 10),
            digit_char(t.s as int % 10),
            '.',
            digit_char(t.ms / 100),
            digit_char((t.ms / 10) % 10),
            digit_char(t.ms as int % 10),
        ],
{
    lemma_tens_text_two_digits(t.h as int);
    lemma_tens_text_two_digits(t.m as int);
    lemma_tens_text_two_digits(t.s as int);
    lemma_hundreds_text_three_digits(t.ms as int);
    assert(time_text(t) =~= seq![
        digit_char(t.h / 10),
        digit_char(t.h as int % 10),
        ':',
        digit_char(t.m / 10),
        digit_char(t.m as int % 10),
        ':',
        digit_char(t.s / 10),
        digit_char(t.s as int % 10),
        '.',
        digit_char(t.ms / 100),
        digit_char((t.ms / 10) % 10),
        digit_char(t.ms as int % 10),
    ]);
}

/// The text of one decimal digit.
fn digit_text(d: u64) -> (text: &'static str)
    requires
        d < 10,
    ensures
        text@ == seq![digit_char(d as int)],
{
    proof {
        reveal_strlit("0");
        reveal_strlit("1");
        reveal_strlit("2");
        reveal_strlit("3");
        reveal_strlit("4");
        reveal_strlit("5");
        reveal_strlit("6");
        reveal_strlit("7");
        reveal_strlit("8");
        reveal_strlit("9");
    }
    let text = if d == 0 {
        "0"
    } else if d == 1 {
        "1"
    } else if d == 2 {
        "2"
    } else if d == 3 {
        "3"
    } else if d == 4 {
        "4"
    } else if d == 5 {
        "5"
    } else if d == 6 {
        "6"
    } else if d == 7 {
        "7"
    } else if d == 8 {
        "8"
    } else {
        "9"
    };
    assert(text@ =~= seq![digit_char(d as int)]);
    text
}

/// Appends the decimal digits of `n`.
fn push_decimal(out: &mut String, n: u64)
    ensures
        final(out)@ == old(out)@ + decimal_nat(n as nat),
    decreases n,
{
    if n >= 10 {
        push_decimal(out, n / 10);
    }
    out.append(digit_text(n % 10));
    assert(out@ =~= old(out)@ + decimal_nat(n as nat));
}

/// Appends the decimal form of `i`.
fn push_signed(out: &mut String, i: i64)
    ensures
        final(out)@ == old(out)@ + decimal(i as int),
{
    if i < 0 {
        proof {
            reveal_strlit("-");
        }
        out.append("-");
        let magnitude: u64 = (-(i + 1)) as u64 + 1;
        push_decimal(out, magnitude);
        assert(out@ =~= old(out)@ + decimal(i as int));
    } else {
        push_decimal(out, i as u64);
    }
}

/// A number in decimal, with a zero in front when it is below ten.
pub fn format_tens(digit: i32) -> (text: String)
    ensures
        text@ == tens_text(digit as int),
        0 <= digit < 100 ==> text@ == seq![digit_char(digit / 10), digit_char(digit as int % 10)],
{
    let mut text = String::new();
    if digit < 10 {
        proof {
            reveal_strlit("0");
        }
        text.append("0");
    }
    push_signed(&mut text, digit as i64);
    proof {
        assert(text@ =~= tens_text(digit as int));
        if 0 <= digit < 100 {
            lemma_tens_text_two_digits(digit as int);
        }
    }
    text
}

/// A number in decimal, with zeros in front up to three places.
pub fn format_hundreds(digit: i32) -> (text: String)
    ensures
        text@ == hundreds_text(digit as int),
        0 <= digit < 1000 ==> text@ == seq![
            digit_char(digit / 100),
            digit_char((digit / 10) % 10),
            digit_char(digit as int % 10),
        ],
{
    let mut text = String::new();
    if digit < 10 {
        proof {
            reveal_strlit("00");
        }
        text.append("00");
    } else if digit < 100 {
        proof {
            reveal_strlit("0");
        }
        text.append("0");
    }
    push_signed(&mut text, digit as i64);
    proof {
        assert(text@ =~= hundreds_text(digit as int));
        if 0 <= digit < 1000 {
            lemma_hundreds_text_three_digits(digit as int);
        }
    }
    text
}

/// A time as `HH:MM:SS.mmm`, each field padded with zeros.
pub fn format_time(t: &Time) -> (text: String)
    ensures
        text@ == time_text(*t),
        t.is_clock_reading() ==> text@.len() == 12,
{
    proof {
        reveal_strlit(":");
        reveal_strlit(".");
        if t.is_clock_reading() {
            lemma_time_text_of_clock_reading(*t);
        }
    }
    let mut text = format_tens(t.h);
    text.append(":");
    text.append(format_tens(t.m).as_str());
    text.append(":");
    text.append(format_tens(t.s).as_str());
    text.append(".");
    text.append(format_hundreds(t.ms).as_str());
    assert(text@ =~= time_text(*t));
    text
}

/// A delta in milliseconds as seconds with three decimals, such as
/// `-0.200` or `12.034`.
pub fn format_delta(delta: i64) -> (text: String)
    ensures
        text@ == delta_text(delta as int),
{
    let mut text = String::new();
    let magnitude: u64 = if delta < 0 {
        proof {
            reveal_strlit("-");
        }
        text.append("-");
        (-(delta + 1)) as u64 + 1
    } else {
        delta as u64
    };
    push_decimal(&mut text, magnitude / 1000);
    proof {
        reveal_strlit(".");
    }
    text.append(".");
    text.append(format_hundreds((magnitude % 1000) as i32).as_str());
    assert(text@ =~= delta_text(delta as int));
    text
}

/// One line of the milestone table, as text.
#[derive(Debug, PartialEq, Eq)]
pub struct Row {
    pub name: String,
    pub delta: String,
    pub reference_time: String,
}

/// The line of the table for a milestone: its name, its delta (blank until
/// the milestone was passed), and its reference time.
pub fn milestone_row(milestone: &Milestone) -> (row: Row)
    ensures
        row.name@ == milestone.name@,
        row.delta@ == delta_column(milestone.delta),
        row.reference_time@ == time_text(milestone.reference_time),
{
    let delta = match milestone.delta {
        Some(d) => format_delta(d),
        None => String::new(),
    };
    Row {
        name: milestone.name.clone(),
        delta,
        reference_time: format_time(&milestone.reference_time),
    }
}

} // verus!
