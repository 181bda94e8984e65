//! Text pieces of the tool's messages: integers in decimal and formatted dates.

use std::fmt::Write;
use vstd::prelude::*;

verus! {

/// The decimal digit characters, by value.
pub open spec fn digit_char(d: int) -> char {
    seq!['0', '1', '2', '3', '4', '5', '6', '7', '8', '9'][d]
}

/// The decimal digits of `n`, most significant first, without leading zeros.
pub open spec fn digits_of(n: nat) -> Seq<char>
    decreases n,
{
    if n < 10 {
        seq![digit_char(n as int)]
    } else {
        digits_of(n / 10) + seq![digit_char((n % 10) as int)]
    }
}

/// `n` written in decimal, with a leading minus sign when negative.
pub open spec fn decimal_text(n: int) -> Seq<char> {
    if n < 0 {
        seq!['-'] + digits_of((-n) as nat)
    } else {
        digits_of(n as nat)
    }
}

fn digit_str(d: u64) -> (r: &'static str)
    requires
        d < 10,
    ensures
        r@ == seq![digit_char(d as int)],
{
    proof {
        reveal_strlit("0");
        reveal_strlit("1");
        reveal_strlit("2");
        reveal_strlit("3");
        reveal_strlit("4");
        reveal_strlit("5");
        reveal_strlit("6");
        reveal_strlit("7");
        reveal_strlit("8");
        reveal_strlit("9");
    }
    let r = match d {
        0 => "0",
        1 => "1",
        2 => "2",
        3 => "3",
        4 => "4",
        5 => "5",
        6 => "6",
        7 => "7",
        8 => "8",
        _ => "9",
    };
    assert(r@ =~= seq![digit_char(d as int)]);
    r
}

fn digits(n: u64) -> (r: String)
    ensures
        r@ == digits_of(n as nat),
    decreases n,
{
    if n < 10 {
        String::from_str(digit_str(n))
    } else {
        let mut s = digits(n / 10);
        s.append(digit_str(n % 10));
        s
    }
}

/// `n` written in decimal.
pub fn decimal(n: i64) -> (r: String)
    ensures
        r@ == decimal_text(n as int),
{
    if n < 0 {
        let magnitude: u64 = ((-(n + 1)) as u64) + 1;
        let mut s = String::from_str("-");
        proof {
            reveal_strlit("-");
        }
        s.append(digits(magnitude).as_str());
        assert(s@ =~= decimal_text(n as int));
        s
    } else {
        digits(n as u64)
    }
}

/// The text that chrono writes for the date `days_from_ce` (counted from the
/// Common Era) under the strftime-style `format`, or `None` where chrono
/// refuses the day or the format.
pub uninterp spec fn formatted_date(days_from_ce: int, format: Seq<char>) -> Option<Seq<char>>;

/// Relies on chrono's `NaiveDate::format` (the day taken in by
/// `NaiveDate::from_num_days_from_ce_opt`): writes the date under a
/// strftime-style format; a day outside chrono's calendar or a format that
/// chrono reports an error on gives `None`.
#[verifier::external_body]
pub(crate) fn format_day(days_from_ce: i32, format: &str) -> (r: Option<String>)
    ensures
        match r {
            Some(s) => formatted_date(days_from_ce as int, format@) == Some(s@),
            None => formatted_date(days_from_ce as int, format@) is None,
        },
{
    let date = chrono::NaiveDate::from_num_days_from_ce_opt(days_from_ce)?;
    let mut text = String::new();
    write!(text, "{}", date.format(format)).ok()?;
    Some(text)
}

} // verus!
