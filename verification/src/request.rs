//! What a run is asked for: a month of the fixed year and a range of its
//! days.

use crate::calendar::{days_in_month, month_length};
use crate::month::Month;
use vstd::prelude::*;

verus! {

/// The year whose dates are listed.
pub const YEAR: i32 = 2020;

/// Why a month and two days are no request.
#[derive(Clone, Copy, Debug, PartialEq, Eq, Structural)]
pub enum UsageError {
    /// The first day lies after the last day.
    StartAfterEnd,
    /// The first day is less than 1, or the last day is more than the month
    /// has days.
    DayOutOfRange,
}

/// A month and a range of days as plain numbers: what a [`Request`] stands
/// for.
pub struct DayRange {
    pub month: Month,
    pub start: int,
    pub end: int,
}

impl DayRange {
    /// The fault in the range, if it has one: the order of the two days is
    /// looked at first.
    pub open spec fn fault(self) -> Option<UsageError> {
        if self.start > self.end {
            Some(UsageError::StartAfterEnd)
        } else if self.start < 1 || self.end > days_in_month(
            YEAR as int,
            self.month.ordinal() as int,
        ) {
            Some(UsageError::DayOutOfRange)
        } else {
            None
        }
    }

    /// The days are in order and are days of the month in the fixed year.
    pub open spec fn valid(self) -> bool {
        1 <= self.start <= self.end <= days_in_month(YEAR as int, self.month.ordinal() as int)
    }
}

/// A month of the fixed year with a first and a last day to list. Every
/// value is a valid range of days of that month.
#[derive(Clone, Copy, Debug, PartialEq, Eq, Structural)]
pub struct Request {
    month: Month,
    start: u32,
    end: u32,
}

impl View for Request {
    type V = DayRange;

    closed spec fn view(&self) -> DayRange {
        DayRange { month: self.month, start: self.start as int, end: self.end as int }
    }
}

impl Request {
    /// What holds of every request: its range is valid.
    #[verifier::type_invariant]
    pub open spec fn wf(self) -> bool {
        self@.valid()
    }

    /// Makes the request for the days `start` to `end` of `month`, or says
    /// what is wrong with them.
    pub fn new(month: Month, start: u32, end: u32) -> (made: Result<Request, UsageError>)
        ensures
            ({
                let range = DayRange { month, start: start as int, end: end as int };
                match made {
                    Ok(request) => request@ == range && range.valid(),
                    Err(error) => range.fault() == Some(error) && !range.valid(),
                }
            }),
    {
        if start > end {
            Err(UsageError::StartAfterEnd)
        } else if start < 1 || end > month_length(YEAR, month) {
            Err(UsageError::DayOutOfRange)
        } else {
            Ok(Request { month, start, end })
        }
    }

    /// The month whose days are listed.
    pub fn month(&self) -> (month: Month)
        ensures
            month == self@.month,
    {
        self.month
    }

    /// The first day of the range.
    pub fn start(&self) -> (start: u32)
        ensures
            start == self@.start,
    {
        self.start
    }

    /// The last day of the range.
    pub fn end(&self) -> (end: u32)
        ensures
            end == self@.end,
    {
        self.end
    }
}

} // verus!
