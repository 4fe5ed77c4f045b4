//! The text of a day heading and of a recap banner.

use crate::calendar::{CivilDate, Date};
use crate::month::Month;
use crate::weekday::Weekday;
use vstd::prelude::*;
use vstd::string::*;

verus! {

/// The character that stands for a decimal digit.
pub open spec fn digit_char(digit: int) -> char {
    if digit == 0 {
        '0'
    } else if digit == 1 {
        '1'
    } else if digit == 2 {
        '2'
    } else if digit == 3 {
        '3'
    } else if digit == 4 {
        '4'
    } else if digit == 5 {
        '5'
    } else if digit == 6 {
        '6'
    } else if digit == 7 {
        '7'
    } else if digit == 8 {
        '8'
    } else {
        '9'
    }
}

/// A number in decimal digits, without a leading zero.
pub open spec fn decimal_text(number: nat) -> Seq<char>
    decreases number,
{
    if number < 10 {
        seq![digit_char(number as int)]
    } else {
        decimal_text(number / 10).push(digit_char((number % 10) as int))
    }
}

/// A run of `count` asterisks.
pub open spec fn asterisks(count: nat) -> Seq<char> {
    Seq::new(count, |i: int| '*')
}

/// A month and a day of it as a banner names them: `Mar 4`.
pub open spec fn month_day_text(month: Month, day: nat) -> Seq<char> {
    month.abbreviation_text() + seq![' '] + decimal_text(day)
}

/// The line that heads a day: `** Wed Mar 4 **`.
pub open spec fn day_heading_line(weekday: Weekday, month: Month, day: nat) -> Seq<char> {
    seq!['*', '*', ' '] + weekday.abbreviation_text() + seq![' '] + month_day_text(month, day)
        + seq![' ', '*', '*']
}

/// The line that recaps the week from `start` to `end`: twenty asterisks,
/// `Recap:` with the two days, and twenty-six asterisks.
pub open spec fn recap_banner_line(start: CivilDate, end: CivilDate) -> Seq<char> {
    asterisks(20) + seq![' ', 'R', 'e', 'c', 'a', 'p', ':', ' '] + month_day_text(
        Month::at(start.month),
        start.day as nat,
    ) + seq![' ', '-', ' '] + month_day_text(Month::at(end.month), end.day as nat) + seq![' ']
        + asterisks(26)
}

/// A line followed by the two line ends that set it apart from what comes
/// next.
pub open spec fn set_apart(line: Seq<char>) -> Seq<char> {
    line + seq!['\n', '\n']
}

/// The text of a day heading.
pub open spec fn day_heading_text(weekday: Weekday, month: Month, day: nat) -> Seq<char> {
    set_apart(day_heading_line(weekday, month, day))
}

/// The text of a recap banner.
pub open spec fn recap_banner_text(start: CivilDate, end: CivilDate) -> Seq<char> {
    set_apart(recap_banner_line(start, end))
}

fn digit_text(digit: u32) -> (text: &'static str)
    requires
        digit < 10,
    ensures
        text@ == seq![digit_char(digit as int)],
{
    match digit {
        0 => {
            proof {
                reveal_strlit("0");
            }
            "0"
        },
        1 => {
            proof {
                reveal_strlit("1");
            }
            "1"
        },
        2 => {
            proof {
                reveal_strlit("2");
            }
            "2"
        },
        3 => {
            proof {
                reveal_strlit("3");
            }
            "3"
        },
        4 => {
            proof {
                reveal_strlit("4");
            }
            "4"
        },
        5 => {
            proof {
                reveal_strlit("5");
            }
            "5"
        },
        6 => {
            proof {
                reveal_strlit("6");
            }
            "6"
        },
        7 => {
            proof {
                reveal_strlit("7");
            }
            "7"
        },
        8 => {
            proof {
                reveal_strlit("8");
            }
            "8"
        },
        _ => {
            proof {
                reveal_strlit("9");
            }
            "9"
        },
    }
}

/// Appends a number in decimal digits to a text.
fn append_decimal(text: &mut String, number: u32)
    ensures
        final(text)@ == old(text)@ + decimal_text(number as nat),
    decreases number,
{
    if number >= 10 {
        append_decimal(text, number / 10);
    }
    text.append(digit_text(number % 10));
}

/// Appends a month's abbreviation and a day to a text.
fn append_month_day(text: &mut String, month: Month, day: u32)
    ensures
        final(text)@ == old(text)@ + month_day_text(month, day as nat),
{
    text.append(month.abbreviation());
    proof {
        reveal_strlit(" ");
    }
    text.append(" ");
    append_decimal(text, day);
}

/// The heading of a day: `** <Wkd> <Mon> <d> **`, set apart by two line ends.
pub fn format_day_heading(weekday: Weekday, month: Month, day: u32) -> (text: String)
    ensures
        text@ == day_heading_text(weekday, month, day as nat),
{
    proof {
        reveal_strlit("** ");
        reveal_strlit(" ");
        reveal_strlit(" **\n\n");
    }
    let mut text = String::from_str("** ");
    text.append(weekday.abbreviation());
    text.append(" ");
    append_month_day(&mut text, month, day);
    text.append(" **\n\n");
    text
}

/// The banner that recaps the week from `start` to `end`:
/// `Recap: <MonA> <dA> - <MonB> <dB>` between twenty and twenty-six
/// asterisks, set apart by two line ends.
pub fn format_recap_banner(start: Date, end: Date) -> (text: String)
    ensures
        text@ == recap_banner_text(start@, end@),
{
    proof {
        reveal_strlit("******************** Recap: ");
        reveal_strlit(" - ");
        reveal_strlit(" **************************\n\n");
    }
    let mut text = String::from_str("******************** Recap: ");
    append_month_day(&mut text, Month::from_num(start.month()), start.day());
    text.append(" - ");
    append_month_day(&mut text, Month::from_num(end.month()), end.day());
    text.append(" **************************\n\n");
    text
}

/// No character of the text ends a line.
pub open spec fn on_one_line(text: Seq<char>) -> bool {
    forall|i: int| 0 <= i < text.len() ==> text[i] != '\n'
}

/// The digits of a number end no line.
pub proof fn lemma_decimal_on_one_line(number: nat)
    ensures
        on_one_line(decimal_text(number)),
        decimal_text(number).len() >= 1,
    decreases number,
{
    if number >= 10 {
        lemma_decimal_on_one_line(number / 10);
    }
}

/// A month and a day end no line.
pub proof fn lemma_month_day_on_one_line(month: Month, day: nat)
    ensures
        on_one_line(month_day_text(month, day)),
{
    lemma_decimal_on_one_line(day);
}

/// The line of a day heading is one line.
pub proof fn lemma_day_heading_on_one_line(weekday: Weekday, month: Month, day: nat)
    ensures
        on_one_line(day_heading_line(weekday, month, day)),
{
    lemma_month_day_on_one_line(month, day);
}

/// The line of a recap banner is one line.
pub proof fn lemma_recap_banner_on_one_line(start: CivilDate, end: CivilDate)
    ensures
        on_one_line(recap_banner_line(start, end)),
{
    lemma_month_day_on_one_line(Month::at(start.month), start.day as nat);
    lemma_month_day_on_one_line(Month::at(end.month), end.day as nat);
}

/// A line that is set apart ends in two line ends, and holds no other.
pub proof fn lemma_set_apart_ends_in_two_line_ends(line: Seq<char>)
    requires
        on_one_line(line),
    ensures
        set_apart(line).len() == line.len() + 2,
        set_apart(line)[line.len() as int] == '\n',
        set_apart(line)[line.len() as int + 1] == '\n',
        forall|i: int| 0 <= i < line.len() ==> set_apart(line)[i] != '\n',
{
}

} // verus!
