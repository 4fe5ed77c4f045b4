//! The seven days of the week, with their abbreviations.

use vstd::prelude::*;
use vstd::string::*;

verus! {

/// A day of the week.
#[derive(Clone, Copy, Debug, PartialEq, Eq, Structural)]
pub enum Weekday {
    Monday,
    Tuesday,
    Wednesday,
    Thursday,
    Friday,
    Saturday,
    Sunday,
}

impl Weekday {
    /// The weekday that lies `days` days after a Monday.
    pub open spec fn after_monday(days: int) -> Weekday {
        let offset = days % 7;
        if offset == 0 {
            Weekday::Monday
        } else if offset == 1 {
            Weekday::Tuesday
        } else if offset == 2 {
            Weekday::Wednesday
        } else if offset == 3 {
            Weekday::Thursday
        } else if offset == 4 {
            Weekday::Friday
        } else if offset == 5 {
            Weekday::Saturday
        } else {
            Weekday::Sunday
        }
    }

    /// The three letters that stand for the weekday in a heading.
    pub open spec fn abbreviation_text(self) -> Seq<char> {
        match self {
            Weekday::Monday => seq!['M', 'o', 'n'],
            Weekday::Tuesday => seq!['T', 'u', 'e'],
            Weekday::Wednesday => seq!['W', 'e', 'd'],
            Weekday::Thursday => seq!['T', 'h', 'u'],
            Weekday::Friday => seq!['F', 'r', 'i'],
            Weekday::Saturday => seq!['S', 'a', 't'],
            Weekday::Sunday => seq!['S', 'u', 'n'],
        }
    }

    /// Whether this is the day that gets a recap banner.
    pub fn is_sunday(self) -> (yes: bool)
        ensures
            yes == (self == Weekday::Sunday),
    {
        match self {
            Weekday::Sunday => true,
            _ => false,
        }
    }

    /// The three-letter abbreviation, `Mon` to `Sun`.
    pub fn abbreviation(self) -> (text: &'static str)
        ensures
            text@ == self.abbreviation_text(),
    {
        match self {
            Weekday::Monday => {
                proof {
                    reveal_strlit("Mon");
                }
                "Mon"
            },
            Weekday::Tuesday => {
                proof {
                    reveal_strlit("Tue");
                }
                "Tue"
            },
            Weekday::Wednesday => {
                proof {
                    reveal_strlit("Wed");
                }
                "Wed"
            },
            Weekday::Thursday => {
                proof {
                    reveal_strlit("Thu");
                }
                "Thu"
            },
            Weekday::Friday => {
                proof {
                    reveal_strlit("Fri");
                }
                "Fri"
            },
            Weekday::Saturday => {
                proof {
                    reveal_strlit("Sat");
                }
                "Sat"
            },
            Weekday::Sunday => {
                proof {
                    reveal_strlit("Sun");
                }
                "Sun"
            },
        }
    }
}

} // verus!
