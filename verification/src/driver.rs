//! The run over a request: one heading for each day, newest first, and a
//! recap banner ahead of every Sunday.

use crate::calendar::{
    civil, days_in_month, lemma_day_number_in_year, lemma_days_before_month,
    lemma_days_before_year_grows, make_date, minus_seven_days, weekday_of, CalendarError,
    CivilDate, Date,
};
use crate::formatter::{
    day_heading_line, day_heading_text, format_day_heading, format_recap_banner,
    lemma_day_heading_on_one_line, lemma_recap_banner_on_one_line,
    lemma_set_apart_ends_in_two_line_ends, recap_banner_line, recap_banner_text,
};
use crate::month::Month;
use crate::request::{Request, YEAR};
use crate::weekday::Weekday;
use vstd::prelude::*;

verus! {

/// One piece of a run's output.
pub enum Block {
    /// The banner that recaps the week from `start` to `end`.
    Recap { start: CivilDate, end: CivilDate },
    /// The heading of a day.
    Heading { weekday: Weekday, month: Month, day: int },
}

impl Block {
    /// The block as text.
    pub open spec fn text(self) -> Seq<char> {
        match self {
            Block::Recap { start, end } => recap_banner_text(start, end),
            Block::Heading { weekday, month, day } => day_heading_text(weekday, month, day as nat),
        }
    }
}

/// The date of a day of `month` in the fixed year.
pub open spec fn date_in_year(month: Month, day: int) -> CivilDate {
    civil(YEAR as int, month.ordinal() as int, day)
}

/// The recap banner for the week that ends on `end`.
pub open spec fn recap_of(end: CivilDate) -> Block {
    Block::Recap { start: end.week_earlier(), end }
}

/// The heading of a day of `month` in the fixed year.
pub open spec fn heading_of(month: Month, day: int) -> Block {
    Block::Heading { weekday: date_in_year(month, day).weekday(), month, day }
}

/// What a run puts out for one day: its heading, with a recap banner before
/// it where the day is a Sunday.
pub open spec fn day_blocks(month: Month, day: int) -> Seq<Block> {
    if date_in_year(month, day).weekday() == Weekday::Sunday {
        seq![recap_of(date_in_year(month, day)), heading_of(month, day)]
    } else {
        seq![heading_of(month, day)]
    }
}

/// What a run puts out for the days `start` to `end` of `month`, the last
/// day first.
pub open spec fn range_blocks(month: Month, start: int, end: int) -> Seq<Block>
    decreases end - start + 1,
{
    if end < start {
        Seq::empty()
    } else {
        day_blocks(month, end) + range_blocks(month, start, end - 1)
    }
}

/// The recap banner for the week that ends on `end`, where the calendar
/// reaches back to the start of that week.
pub fn recap_line(end: Date) -> (line: Result<String, CalendarError>)
    ensures
        match line {
            Ok(text) => end@.day_number() > 7 && text@ == recap_of(end@).text(),
            Err(error) => error == CalendarError::UnderflowDate && end@.day_number() <= 7,
        },
{
    match minus_seven_days(end) {
        Ok(start) => Ok(format_recap_banner(start, end)),
        Err(error) => Err(error),
    }
}

/// The lines of a run, in the order in which they are put out: for each day
/// of the request from the last to the first its heading, and ahead of each
/// Sunday's heading the recap banner of the week that ends on it.
pub fn date_lines(request: &Request) -> (lines: Vec<String>)
    ensures
        lines@.len() == range_blocks(request@.month, request@.start, request@.end).len(),
        forall|i: int|
            0 <= i < lines@.len() ==> lines@[i]@ == range_blocks(
                request@.month,
                request@.start,
                request@.end,
            )[i].text(),
{
    proof {
        use_type_invariant(request);
    }
    let month = request.month();
    let start = request.start();
    let end = request.end();
    let ghost all = range_blocks(month, start as int, end as int);
    let ghost shown: Seq<Block> = Seq::empty();
    let mut lines: Vec<String> = Vec::new();
    let mut day = end;
    while day >= start
        invariant
            1 <= start <= end,
            start - 1 <= day <= end,
            end <= days_in_month(YEAR as int, month.ordinal() as int),
            all == range_blocks(month, start as int, end as int),
            shown + range_blocks(month, start as int, day as int) == all,
            lines@.len() == shown.len(),
            forall|i: int| 0 <= i < lines@.len() ==> lines@[i]@ == shown[i].text(),
        decreases day,
    {
        let ghost today = date_in_year(month, day as int);
        let ghost rest = range_blocks(month, start as int, day - 1);
        assert(shown + day_blocks(month, day as int) + rest == all) by {
            assert(shown + day_blocks(month, day as int) + rest =~= shown + (day_blocks(
                month,
                day as int,
            ) + rest));
        }
        let date = make_date(YEAR, month.ordinal(), day).unwrap();
        let weekday = weekday_of(date);
        if weekday.is_sunday() {
            proof {
                lemma_day_number_in_year(today);
                lemma_days_before_year_grows(2, YEAR as int);
            }
            let banner = recap_line(date).unwrap();
            lines.push(banner);
            proof {
                shown = shown.push(recap_of(today));
            }
        }
        lines.push(format_day_heading(weekday, month, day));
        proof {
            shown = shown.push(heading_of(month, day as int));
            assert(shown + rest =~= all);
        }
        day = day - 1;
    }
    proof {
        assert(shown =~= all);
    }
    lines
}

/// The test for a day heading.
pub open spec fn heading_test() -> spec_fn(Block) -> bool {
    |block: Block| block is Heading
}

/// The test for a recap banner.
pub open spec fn recap_test() -> spec_fn(Block) -> bool {
    |block: Block| block is Recap
}

/// The days from `start` to `end` of `month` that are Sundays in the fixed
/// year.
pub open spec fn sundays(month: Month, start: int, end: int) -> Set<int> {
    Set::new(
        |day: int| start <= day <= end && date_in_year(month, day).weekday() == Weekday::Sunday,
    )
}

/// The fixed year begins on a Wednesday, and each of its dates falls on the
/// weekday that lies as many days after that year's eve, a Tuesday, as the
/// date's place in the year.
pub proof fn lemma_weekday_in_year(month: Month, day: int)
    requires
        date_in_year(month, day).in_month(),
    ensures
        date_in_year(Month::January, 1).weekday() == Weekday::Wednesday,
        date_in_year(month, day).weekday() == Weekday::after_monday(
            1 + date_in_year(month, day).day_of_year(),
        ),
{
    lemma_days_before_month(YEAR as int);
}

/// A run holds one heading for each day of its range, one recap banner for
/// each Sunday among them, and nothing else.
pub proof fn lemma_block_counts(month: Month, start: int, end: int)
    requires
        start <= end + 1,
    ensures
        ({
            let blocks = range_blocks(month, start, end);
            &&& blocks.filter(heading_test()).len() == end - start + 1
            &&& sundays(month, start, end).finite()
            &&& blocks.filter(recap_test()).len() == sundays(month, start, end).len()
            &&& blocks.len() == end - start + 1 + sundays(month, start, end).len()
        }),
    decreases end - start + 1,
{
    reveal_with_fuel(Seq::filter, 3);
    if end < start {
        assert(sundays(month, start, end) =~= Set::empty());
    } else {
        let first = day_blocks(month, end);
        let rest = range_blocks(month, start, end - 1);
        lemma_block_counts(month, start, end - 1);
        Seq::filter_distributes_over_add(first, rest, heading_test());
        Seq::filter_distributes_over_add(first, rest, recap_test());
        if date_in_year(month, end).weekday() == Weekday::Sunday {
            assert(first.filter(heading_test()) =~= seq![heading_of(month, end)]);
            assert(first.filter(recap_test()) =~= seq![recap_of(date_in_year(month, end))]);
            assert(sundays(month, start, end) =~= sundays(month, start, end - 1).insert(end));
        } else {
            assert(first.filter(heading_test()) =~= seq![heading_of(month, end)]);
            assert(first.filter(recap_test()) =~= Seq::empty());
            assert(sundays(month, start, end) =~= sundays(month, start, end - 1));
        }
    }
}

/// Every heading of a run is the heading of one of the days of its range,
/// and every day of the range has its heading in the run.
pub proof fn lemma_headings_are_days(month: Month, start: int, end: int)
    ensures
        ({
            let blocks = range_blocks(month, start, end);
            &&& forall|i: int|
                0 <= i < blocks.len() && (#[trigger] blocks[i]) is Heading ==> {
                    &&& start <= blocks[i]->day <= end
                    &&& blocks[i] == heading_of(month, blocks[i]->day)
                }
            &&& forall|day: int|
                start <= day <= end ==> blocks.contains(#[trigger] heading_of(month, day))
        }),
    decreases end - start + 1,
{
    if start <= end {
        lemma_headings_are_days(month, start, end - 1);
        let blocks = range_blocks(month, start, end);
        let first = day_blocks(month, end);
        let rest = range_blocks(month, start, end - 1);
        assert forall|i: int| 0 <= i < blocks.len() && (#[trigger] blocks[i]) is Heading implies {
            &&& start <= blocks[i]->day <= end
            &&& blocks[i] == heading_of(month, blocks[i]->day)
        } by {
            if i >= first.len() {
                assert(blocks[i] == rest[i - first.len()]);
            }
        }
        assert forall|day: int| start <= day <= end implies blocks.contains(
            #[trigger] heading_of(month, day),
        ) by {
            if day == end {
                assert(blocks[first.len() - 1] == heading_of(month, end));
            } else {
                let at = choose|at: int| 0 <= at < rest.len() && rest[at] == heading_of(month, day);
                assert(blocks[first.len() + at] == heading_of(month, day));
            }
        }
    }
}

/// A recap banner stands nowhere but right before the heading of a Sunday,
/// and recaps the week that ends on that Sunday; and the heading of every
/// Sunday has a recap banner right before it.
pub proof fn lemma_recaps_precede_sundays(month: Month, start: int, end: int)
    ensures
        ({
            let blocks = range_blocks(month, start, end);
            &&& forall|i: int|
                0 <= i < blocks.len() && (#[trigger] blocks[i]) is Recap ==> i + 1 < blocks.len()
            &&& forall|i: int, next: int|
                {
                    &&& 0 <= i && next == i + 1 && next < blocks.len()
                    &&& (#[trigger] blocks[i]) is Recap
                } ==> {
                    &&& (#[trigger] blocks[next]) is Heading
                    &&& blocks[next]->weekday == Weekday::Sunday
                    &&& blocks[i] == recap_of(date_in_year(month, blocks[next]->day))
                }
            &&& forall|i: int|
                {
                    &&& 0 <= i < blocks.len()
                    &&& (#[trigger] blocks[i]) is Heading
                    &&& blocks[i]->weekday == Weekday::Sunday
                } ==> i >= 1
            &&& forall|i: int, before: int|
                {
                    &&& 0 <= before && i == before + 1 && i < blocks.len()
                    &&& (#[trigger] blocks[i]) is Heading
                    &&& blocks[i]->weekday == Weekday::Sunday
                } ==> (#[trigger] blocks[before]) is Recap
        }),
    decreases end - start + 1,
{
    if start <= end {
        lemma_recaps_precede_sundays(month, start, end - 1);
        let blocks = range_blocks(month, start, end);
        let first = day_blocks(month, end);
        let rest = range_blocks(month, start, end - 1);
        assert forall|i: int| 0 <= i < blocks.len() && (#[trigger] blocks[i]) is Recap implies i
            + 1 < blocks.len() by {
            if i >= first.len() {
                assert(blocks[i] == rest[i - first.len()]);
            }
        }
        assert forall|i: int, next: int|
            {
                &&& 0 <= i && next == i + 1 && next < blocks.len()
                &&& (#[trigger] blocks[i]) is Recap
            } implies {
            &&& (#[trigger] blocks[next]) is Heading
            &&& blocks[next]->weekday == Weekday::Sunday
            &&& blocks[i] == recap_of(date_in_year(month, blocks[next]->day))
        } by {
            if i >= first.len() {
                assert(blocks[i] == rest[i - first.len()]);
                assert(blocks[next] == rest[next - first.len()]);
            } else {
                assert(blocks[i] == first[i]);
                assert(blocks[next] == first[next]);
            }
        }
        assert forall|i: int|
            {
                &&& 0 <= i < blocks.len()
                &&& (#[trigger] blocks[i]) is Heading
                &&& blocks[i]->weekday == Weekday::Sunday
            } implies i >= 1 by {
            if i >= first.len() {
                assert(blocks[i] == rest[i - first.len()]);
            } else {
                assert(blocks[i] == first[i]);
            }
        }
        assert forall|i: int, before: int|
            {
                &&& 0 <= before && i == before + 1 && i < blocks.len()
                &&& (#[trigger] blocks[i]) is Heading
                &&& blocks[i]->weekday == Weekday::Sunday
            } implies (#[trigger] blocks[before]) is Recap by {
            if before >= first.len() {
                assert(blocks[i] == rest[i - first.len()]);
                assert(blocks[before] == rest[before - first.len()]);
            } else if i >= first.len() {
                assert(blocks[i] == rest[i - first.len()]);
            } else {
                assert(blocks[i] == first[i]);
                assert(blocks[before] == first[before]);
            }
        }
    }
}

/// The headings of a run come in the order of their days, the latest day
/// first.
pub proof fn lemma_headings_descend(month: Month, start: int, end: int)
    ensures
        ({
            let blocks = range_blocks(month, start, end);
            forall|i: int, j: int|
                {
                    &&& 0 <= i < j < blocks.len()
                    &&& (#[trigger] blocks[i]) is Heading
                    &&& (#[trigger] blocks[j]) is Heading
                } ==> blocks[i]->day > blocks[j]->day
        }),
    decreases end - start + 1,
{
    if start <= end {
        lemma_headings_descend(month, start, end - 1);
        lemma_headings_are_days(month, start, end - 1);
        let blocks = range_blocks(month, start, end);
        let first = day_blocks(month, end);
        let rest = range_blocks(month, start, end - 1);
        assert forall|i: int, j: int|
            {
                &&& 0 <= i < j < blocks.len()
                &&& (#[trigger] blocks[i]) is Heading
                &&& (#[trigger] blocks[j]) is Heading
            } implies blocks[i]->day > blocks[j]->day by {
            if i >= first.len() {
                assert(blocks[i] == rest[i - first.len()]);
                assert(blocks[j] == rest[j - first.len()]);
            } else if j >= first.len() {
                assert(blocks[i] == first[i]);
                assert(blocks[j] == rest[j - first.len()]);
            } else {
                assert(blocks[i] == first[i]);
                assert(blocks[j] == first[j]);
            }
        }
    }
}

/// The text of every block is one line and the two line ends that set it
/// apart: it ends in two line ends and holds no other.
pub proof fn lemma_blocks_set_apart(block: Block)
    ensures
        block.text().len() >= 3,
        block.text()[block.text().len() - 1] == '\n',
        block.text()[block.text().len() - 2] == '\n',
        forall|i: int| 0 <= i < block.text().len() - 2 ==> block.text()[i] != '\n',
{
    match block {
        Block::Recap { start, end } => {
            lemma_recap_banner_on_one_line(start, end);
            lemma_set_apart_ends_in_two_line_ends(recap_banner_line(start, end));
        },
        Block::Heading { weekday, month, day } => {
            lemma_day_heading_on_one_line(weekday, month, day as nat);
            lemma_set_apart_ends_in_two_line_ends(day_heading_line(weekday, month, day as nat));
        },
    }
}

} // verus!
