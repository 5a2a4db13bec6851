//! The calendar grid: a year of activity as weeks of day cells, built from
//! the records that the provider sends.

use crate::calendar::{iso_date, CalendarDate};
use crate::text::same_text;
use vstd::prelude::*;

verus! {

/// One day as the provider sends it: the date as `YYYY-MM-DD`, the count,
/// and the name of the day's intensity.
#[derive(Clone, Debug)]
pub struct RawDay {
    pub date: String,
    pub count: u32,
    pub level: String,
}

/// One week as the provider sends it.
#[derive(Clone, Debug)]
pub struct RawWeek {
    pub days: Vec<RawDay>,
}

/// A year of activity as the provider sends it.
#[derive(Clone, Debug)]
pub struct RawCalendar {
    pub total_contributions: u32,
    pub weeks: Vec<RawWeek>,
}

/// One day of the grid. `count` is what the totals are taken from; `level`
/// is a hint for display, from 0 to 4.
#[derive(Clone, Copy, Debug, PartialEq, Eq, Structural)]
pub struct Day {
    pub date: CalendarDate,
    pub count: u32,
    pub level: u8,
}

/// One row of the grid: the days of a week in the provider's order. A day
/// is found by its position in the row, which need not be its weekday
/// counted from Monday.
#[derive(Clone, Debug)]
pub struct Week {
    pub days: Vec<Day>,
}

/// The grid: weeks from the oldest to the newest, and the total that the
/// provider reports. The total is kept as sent; it is not held to the sum of
/// the days' counts.
#[derive(Clone, Debug)]
pub struct ContributionGraph {
    pub weeks: Vec<Week>,
    pub total_contributions: u32,
}

/// Why a record gave no day.
#[derive(Clone, Copy, Debug, PartialEq, Eq, Structural)]
pub enum GridError {
    /// The record's date is no calendar date.
    MalformedDate,
}

impl Day {
    /// The date is a calendar date and the level is one of the five.
    pub open spec fn wf(self) -> bool {
        self.date.wf() && self.level <= 4
    }
}

/// The level that a name of intensity stands for. Any other name stands for
/// level 0.
pub open spec fn level_of(label: Seq<char>) -> u8 {
    if label == "NONE"@ {
        0
    } else if label == "FIRST_QUARTILE"@ {
        1
    } else if label == "SECOND_QUARTILE"@ {
        2
    } else if label == "THIRD_QUARTILE"@ {
        3
    } else if label == "FOURTH_QUARTILE"@ {
        4
    } else {
        0
    }
}

/// The day that a record stands for, if its date is one.
pub open spec fn cell_of(raw: RawDay) -> Option<Day> {
    match iso_date(raw.date@) {
        Some(date) => Some(Day { date, count: raw.count, level: level_of(raw.level@) }),
        None => None,
    }
}

/// The days that a week of records stands for: each record with a date, in
/// the order given; a record without one leaves no day.
pub open spec fn cells_of(raw: Seq<RawDay>) -> Seq<Day>
    decreases raw.len(),
{
    if raw.len() == 0 {
        Seq::empty()
    } else {
        match cell_of(raw.last()) {
            Some(day) => cells_of(raw.drop_last()).push(day),
            None => cells_of(raw.drop_last()),
        }
    }
}

/// All the days of the weeks, row after row.
pub open spec fn all_days(weeks: Seq<Week>) -> Seq<Day>
    decreases weeks.len(),
{
    if weeks.len() == 0 {
        Seq::empty()
    } else {
        all_days(weeks.drop_last()) + weeks.last().days@
    }
}

/// Maps the name of an intensity to its level.
pub fn level_from_label(label: &str) -> (level: u8)
    ensures
        level == level_of(label@),
        level <= 4,
{
    if same_text(label, "NONE") {
        0
    } else if same_text(label, "FIRST_QUARTILE") {
        1
    } else if same_text(label, "SECOND_QUARTILE") {
        2
    } else if same_text(label, "THIRD_QUARTILE") {
        3
    } else if same_text(label, "FOURTH_QUARTILE") {
        4
    } else {
        0
    }
}

/// Builds the day of one record: the date parsed, the count as sent, the
/// level by the table. Fails exactly when the date is no calendar date.
pub fn build_day(raw: &RawDay) -> (built: Result<Day, GridError>)
    ensures
        match built {
            Ok(day) => cell_of(*raw) == Some(day) && day.wf(),
            Err(e) => cell_of(*raw) is None && e == GridError::MalformedDate,
        },
{
    match CalendarDate::parse(raw.date.as_str()) {
        Some(date) => Ok(Day { date, count: raw.count, level: level_from_label(raw.level.as_str()) }),
        None => Err(GridError::MalformedDate),
    }
}

/// Builds one row of the grid. A record with a malformed date is skipped;
/// the others keep their order.
pub fn build_week(raw: &RawWeek) -> (week: Week)
    ensures
        week.days@ == cells_of(raw.days@),
        forall|i: int| 0 <= i < week.days@.len() ==> (#[trigger] week.days@[i]).wf(),
{
    let mut days: Vec<Day> = Vec::new();
    let mut i: usize = 0;
    while i < raw.days.len()
        invariant
            i <= raw.days@.len(),
            days@ == cells_of(raw.days@.take(i as int)),
            forall|k: int| 0 <= k < days@.len() ==> (#[trigger] days@[k]).wf(),
        decreases raw.days@.len() - i,
    {
        proof {
            let next = raw.days@.take(i + 1);
            assert(next.drop_last() == raw.days@.take(i as int));
            assert(next.last() == raw.days@[i as int]);
        }
        match build_day(&raw.days[i]) {
            Ok(day) => {
                days.push(day);
            },
            Err(_) => {},
        }
        i += 1;
    }
    proof {
        assert(raw.days@.take(i as int) == raw.days@);
    }
    Week { days }
}

impl ContributionGraph {
    /// The grid without weeks and with a total of zero.
    pub fn empty() -> (graph: ContributionGraph)
        ensures
            graph.weeks@.len() == 0,
            graph.total_contributions == 0,
    {
        ContributionGraph { weeks: Vec::new(), total_contributions: 0 }
    }

    /// All the days of the grid, row after row.
    pub open spec fn days(self) -> Seq<Day> {
        all_days(self.weeks@)
    }

    /// Every day of the grid has a calendar date and one of the five levels.
    pub open spec fn wf(self) -> bool {
        forall|w: int, d: int|
            0 <= w < self.weeks@.len() && 0 <= d < self.weeks@[w].days@.len() ==> (
            #[trigger] self.weeks@[w].days@[d]).wf()
    }

    /// The levels of one row of the display: for each week, the level of
    /// the day at `position`, or `None` where the week has no such day.
    pub fn row_levels(&self, position: usize) -> (row: Vec<Option<u8>>)
        ensures
            row@.len() == self.weeks@.len(),
            forall|w: int|
                0 <= w < self.weeks@.len() ==> #[trigger] row@[w] == (if position
                    < self.weeks@[w].days@.len() {
                    Some(self.weeks@[w].days@[position as int].level)
                } else {
                    None
                }),
    {
        let mut row: Vec<Option<u8>> = Vec::new();
        let mut w: usize = 0;
        while w < self.weeks.len()
            invariant
                w <= self.weeks@.len(),
                row@.len() == w,
                forall|k: int|
                    0 <= k < w ==> #[trigger] row@[k] == (if position < self.weeks@[k].days@.len() {
                        Some(self.weeks@[k].days@[position as int].level)
                    } else {
                        None
                    }),
            decreases self.weeks@.len() - w,
        {
            let week = &self.weeks[w];
            if position < week.days.len() {
                row.push(Some(week.days[position].level));
            } else {
                row.push(None);
            }
            w += 1;
        }
        row
    }
}

/// Builds the grid from the provider's records: one row for each week, in
/// the order given, and the total as sent.
pub fn build_grid(raw: &RawCalendar) -> (graph: ContributionGraph)
    ensures
        graph.total_contributions == raw.total_contributions,
        graph.weeks@.len() == raw.weeks@.len(),
        forall|w: int|
            0 <= w < raw.weeks@.len() ==> (#[trigger] graph.weeks@[w]).days@ == cells_of(
                raw.weeks@[w].days@,
            ),
        graph.wf(),
{
    let mut weeks: Vec<Week> = Vec::new();
    let mut w: usize = 0;
    while w < raw.weeks.len()
        invariant
            w <= raw.weeks@.len(),
            weeks@.len() == w,
            forall|k: int|
                0 <= k < w ==> (#[trigger] weeks@[k]).days@ == cells_of(raw.weeks@[k].days@),
            forall|k: int, d: int|
                0 <= k < w && 0 <= d < weeks@[k].days@.len() ==> (
                #[trigger] weeks@[k].days@[d]).wf(),
        decreases raw.weeks@.len() - w,
    {
        let week = build_week(&raw.weeks[w]);
        weeks.push(week);
        w += 1;
    }
    ContributionGraph { weeks, total_contributions: raw.total_contributions }
}

/// A week of records gives no more days than it has records, and where
/// every record has a date it gives one day for each, at the record's own
/// place: nothing is moved and nothing is merged.
pub proof fn lemma_cells_keep_their_places(raw: Seq<RawDay>)
    ensures
        cells_of(raw).len() <= raw.len(),
        (forall|i: int| 0 <= i < raw.len() ==> cell_of(#[trigger] raw[i]) is Some) ==> {
            &&& cells_of(raw).len() == raw.len()
            &&& forall|i: int|
                0 <= i < raw.len() ==> cell_of(raw[i]) == Some(#[trigger] cells_of(raw)[i])
        },
    decreases raw.len(),
{
    if raw.len() > 0 {
        lemma_cells_keep_their_places(raw.drop_last());
        if forall|i: int| 0 <= i < raw.len() ==> cell_of(#[trigger] raw[i]) is Some {
            assert forall|i: int| 0 <= i < raw.drop_last().len() implies cell_of(
                #[trigger] raw.drop_last()[i],
            ) is Some by {
                assert(raw.drop_last()[i] == raw[i]);
            }
            assert(cell_of(raw[raw.len() - 1]) is Some);
            assert forall|i: int| 0 <= i < raw.len() implies cell_of(raw[i]) == Some(
                #[trigger] cells_of(raw)[i],
            ) by {
                if i < raw.len() - 1 {
                    assert(raw.drop_last()[i] == raw[i]);
                    assert(cells_of(raw)[i] == cells_of(raw.drop_last())[i]);
                }
            }
        }
    }
}

/// The level of a day comes from the name of its intensity alone: two
/// records with the same name give the same level, whatever their counts
/// and dates.
pub proof fn lemma_level_ignores_count(a: RawDay, b: RawDay)
    requires
        a.level@ == b.level@,
    ensures
        level_of(a.level@) == level_of(b.level@),
        level_of(a.level@) <= 4,
        cell_of(a) is Some && cell_of(b) is Some ==> cell_of(a)->0.level == cell_of(b)->0.level,
{
}

} // verus!
