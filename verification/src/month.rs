//! The twelve months, with their ordinals and abbreviations.

use vstd::prelude::*;
use vstd::string::*;

verus! {

/// A month of the year.
#[derive(Clone, Copy, Debug, PartialEq, Eq, Structural)]
pub enum Month {
    January,
    February,
    March,
    April,
    May,
    June,
    July,
    August,
    September,
    October,
    November,
    December,
}

impl Month {
    /// The month's position in the year, 1 for January to 12 for December.
    pub open spec fn spec_ordinal(self) -> u32 {
        match self {
            Month::January => 1,
            Month::February => 2,
            Month::March => 3,
            Month::April => 4,
            Month::May => 5,
            Month::June => 6,
            Month::July => 7,
            Month::August => 8,
            Month::September => 9,
            Month::October => 10,
            Month::November => 11,
            Month::December => 12,
        }
    }

    /// The month at a position in the year; December beyond 1..=12.
    pub open spec fn at(num: int) -> Month {
        if num == 1 {
            Month::January
        } else if num == 2 {
            Month::February
        } else if num == 3 {
            Month::March
        } else if num == 4 {
            Month::April
        } else if num == 5 {
            Month::May
        } else if num == 6 {
            Month::June
        } else if num == 7 {
            Month::July
        } else if num == 8 {
            Month::August
        } else if num == 9 {
            Month::September
        } else if num == 10 {
            Month::October
        } else if num == 11 {
            Month::November
        } else {
            Month::December
        }
    }

    /// The three letters that stand for the month in a heading.
    pub open spec fn abbreviation_text(self) -> Seq<char> {
        match self {
            Month::January => seq!['J', 'a', 'n'],
            Month::February => seq!['F', 'e', 'b'],
            Month::March => seq!['M', 'a', 'r'],
            Month::April => seq!['A', 'p', 'r'],
            Month::May => seq!['M', 'a', 'y'],
            Month::June => seq!['J', 'u', 'n'],
            Month::July => seq!['J', 'u', 'l'],
            Month::August => seq!['A', 'u', 'g'],
            Month::September => seq!['S', 'e', 'p'],
            Month::October => seq!['O', 'c', 't'],
            Month::November => seq!['N', 'o', 'v'],
            Month::December => seq!['D', 'e', 'c'],
        }
    }

    /// The month's position in the year, 1 for January to 12 for December.
    #[verifier::when_used_as_spec(spec_ordinal)]
    pub fn ordinal(self) -> (num: u32)
        ensures
            num == self.spec_ordinal(),
            1 <= num <= 12,
    {
        match self {
            Month::January => 1,
            Month::February => 2,
            Month::March => 3,
            Month::April => 4,
            Month::May => 5,
            Month::June => 6,
            Month::July => 7,
            Month::August => 8,
            Month::September => 9,
            Month::October => 10,
            Month::November => 11,
            Month::December => 12,
        }
    }

    /// The month at position `num` of the year.
    pub fn from_num(num: u32) -> (month: Month)
        requires
            1 <= num <= 12,
        ensures
            month == Month::at(num as int),
            month.ordinal() == num,
    {
        match num {
            1 => Month::January,
            2 => Month::February,
            3 => Month::March,
            4 => Month::April,
            5 => Month::May,
            6 => Month::June,
            7 => Month::July,
            8 => Month::August,
            9 => Month::September,
            10 => Month::October,
            11 => Month::November,
            _ => Month::December,
        }
    }

    /// The three-letter abbreviation, `Jan` to `Dec`.
    pub fn abbreviation(self) -> (text: &'static str)
        ensures
            text@ == self.abbreviation_text(),
    {
        match self {
            Month::January => {
                proof {
                    reveal_strlit("Jan");
                }
                "Jan"
            },
            Month::February => {
                proof {
                    reveal_strlit("Feb");
                }
                "Feb"
            },
            Month::March => {
                proof {
                    reveal_strlit("Mar");
                }
                "Mar"
            },
            Month::April => {
                proof {
                    reveal_strlit("Apr");
                }
                "Apr"
            },
            Month::May => {
                proof {
                    reveal_strlit("May");
                }
                "May"
            },
            Month::June => {
                proof {
                    reveal_strlit("Jun");
                }
                "Jun"
            },
            Month::July => {
                proof {
                    reveal_strlit("Jul");
                }
                "Jul"
            },
            Month::August => {
                proof {
                    reveal_strlit("Aug");
                }
                "Aug"
            },
            Month::September => {
                proof {
                    reveal_strlit("Sep");
                }
                "Sep"
            },
            Month::October => {
                proof {
                    reveal_strlit("Oct");
                }
                "Oct"
            },
            Month::November => {
                proof {
                    reveal_strlit("Nov");
                }
                "Nov"
            },
            Month::December => {
                proof {
                    reveal_strlit("Dec");
                }
                "Dec"
            },
        }
    }
}

} // verus!
