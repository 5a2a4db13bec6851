//! The totals of a grid over the windows of one "today": today, this week,
//! last week, this month, this year.

use crate::calendar::{CalendarDate, DateWindows};
use crate::grid::{all_days, ContributionGraph, Day, Week};
use crate::months::labels_of;
use vstd::prelude::*;

verus! {

/// The five totals. `today` is the count of today's cell; the others are
/// sums of counts, held at `u64::MAX` where a sum would pass it.
#[derive(Clone, Copy, Debug, PartialEq, Eq, Structural)]
pub struct BucketTotals {
    pub today: u32,
    pub this_week: u64,
    pub last_week: u64,
    pub this_month: u64,
    pub this_year: u64,
}

/// How this week stands against last week, with the difference of the
/// totals.
#[derive(Clone, Copy, Debug, PartialEq, Eq, Structural)]
pub enum WeekTrend {
    More(u64),
    Less(u64),
    Same,
}

impl BucketTotals {
    /// Five zeros.
    pub open spec fn zero() -> BucketTotals {
        BucketTotals { today: 0, this_week: 0, last_week: 0, this_month: 0, this_year: 0 }
    }

    /// The totals of no days at all.
    pub fn none() -> (totals: BucketTotals)
        ensures
            totals == Self::zero(),
    {
        BucketTotals { today: 0, this_week: 0, last_week: 0, this_month: 0, this_year: 0 }
    }
}

/// Whether a day lies in the span that starts at `first` and ends at `last`,
/// or never where `last` is `None`.
pub open spec fn in_span(day_number: int, first: int, last: Option<int>) -> bool {
    first <= day_number && (last matches Some(end) ==> day_number <= end)
}

/// What one day adds to the total of a span: its count if it lies in the
/// span, else nothing.
pub open spec fn share(day: Day, first: int, last: Option<int>) -> int {
    if in_span(day.date.day_number as int, first, last) {
        day.count as int
    } else {
        0
    }
}

/// The sum of the counts of the days that lie in a span. Days are taken by
/// their dates, not by their places, and each cell counts, also where two
/// have one date.
pub open spec fn total_in(days: Seq<Day>, first: int, last: Option<int>) -> int
    decreases days.len(),
{
    if days.len() == 0 {
        0
    } else {
        total_in(days.drop_last(), first, last) + share(days.last(), first, last)
    }
}

/// The count of the last cell that has the date `day_number`, if there is
/// one.
pub open spec fn count_on(days: Seq<Day>, day_number: int) -> Option<u32>
    decreases days.len(),
{
    if days.len() == 0 {
        None
    } else if days.last().date.day_number == day_number {
        Some(days.last().count)
    } else {
        count_on(days.drop_last(), day_number)
    }
}

/// A sum as a `u64`: itself, or `u64::MAX` where it is larger.
pub open spec fn capped(total: int) -> u64 {
    if total > u64::MAX {
        u64::MAX
    } else {
        total as u64
    }
}

/// The totals of the days over the windows.
pub open spec fn totals_of(days: Seq<Day>, windows: DateWindows) -> BucketTotals {
    BucketTotals {
        today: match count_on(days, windows.today as int) {
            Some(count) => count,
            None => 0,
        },
        this_week: capped(total_in(days, windows.week_start as int, None)),
        last_week: capped(
            total_in(days, windows.last_week_start as int, Some(windows.last_week_end as int)),
        ),
        this_month: capped(total_in(days, windows.month_start as int, None)),
        this_year: capped(total_in(days, windows.year_start as int, None)),
    }
}

/// How `this_week` stands against `last_week`.
pub open spec fn trend_of(this_week: u64, last_week: u64) -> WeekTrend {
    if this_week > last_week {
        WeekTrend::More((this_week - last_week) as u64)
    } else if this_week < last_week {
        WeekTrend::Less((last_week - this_week) as u64)
    } else {
        WeekTrend::Same
    }
}

/// No total is negative.
pub proof fn lemma_total_is_natural(days: Seq<Day>, first: int, last: Option<int>)
    ensures
        total_in(days, first, last) >= 0,
    decreases days.len(),
{
    if days.len() > 0 {
        lemma_total_is_natural(days.drop_last(), first, last);
    }
}

/// A span that is cut in two gives the sum of its two parts: the days from
/// `first` on are those from `first` to the day before `cut`, and those from
/// `cut` on. No count is taken twice and none is lost.
pub proof fn lemma_total_splits(days: Seq<Day>, first: int, cut: int)
    requires
        first <= cut,
    ensures
        total_in(days, first, None) == total_in(days, first, Some(cut - 1)) + total_in(
            days,
            cut,
            None,
        ),
    decreases days.len(),
{
    if days.len() > 0 {
        lemma_total_splits(days.drop_last(), first, cut);
    }
}

/// A span that starts later holds no more.
pub proof fn lemma_total_shrinks_with_span(days: Seq<Day>, earlier: int, later: int)
    requires
        earlier <= later,
    ensures
        total_in(days, later, None) <= total_in(days, earlier, None),
    decreases days.len(),
{
    if days.len() > 0 {
        lemma_total_shrinks_with_span(days.drop_last(), earlier, later);
    }
}

/// Last week and this week together are the days from the start of last
/// week on: the two windows touch and do not overlap, for any "today" and
/// any grid.
pub proof fn lemma_weeks_partition(days: Seq<Day>, today: CalendarDate)
    ensures
        total_in(days, DateWindows::of(today).last_week_start as int, None) == total_in(
            days,
            DateWindows::of(today).last_week_start as int,
            Some(DateWindows::of(today).last_week_end as int),
        ) + total_in(days, DateWindows::of(today).week_start as int, None),
{
    let windows = DateWindows::of(today);
    lemma_total_splits(days, windows.last_week_start as int, windows.week_start as int);
}

/// The month's total is no larger than the year's, for any grid and any
/// calendar date as "today".
pub proof fn lemma_month_within_year(days: Seq<Day>, today: CalendarDate)
    requires
        today.wf(),
    ensures
        totals_of(days, DateWindows::of(today)).this_month <= totals_of(
            days,
            DateWindows::of(today),
        ).this_year,
{
    let windows = DateWindows::of(today);
    lemma_total_shrinks_with_span(days, windows.year_start as int, windows.month_start as int);
    lemma_total_is_natural(days, windows.month_start as int, None);
}

/// A grid without weeks has no labels above it and five zeros as its
/// totals, for any "today" and any current month.
pub proof fn lemma_grid_without_weeks(weeks: Seq<Week>, today: CalendarDate, current_month0: int)
    requires
        weeks.len() == 0,
    ensures
        labels_of(weeks.len() as int, current_month0).len() == 0,
        totals_of(all_days(weeks), DateWindows::of(today)) == BucketTotals::zero(),
{
}

/// Adding a count to a capped sum caps the sum with the count.
proof fn lemma_capped_step(total: int, count: u32)
    requires
        total >= 0,
    ensures
        capped(total + count) == capped(total).saturating_add(count as u64),
{
}

/// Takes one more day into the totals.
fn add_day(totals: BucketTotals, day: &Day, windows: &DateWindows, Ghost(seen): Ghost<Seq<Day>>) -> (next:
    BucketTotals)
    requires
        totals == totals_of(seen, *windows),
    ensures
        next == totals_of(seen.push(*day), *windows),
{
    proof {
        assert(seen.push(*day).drop_last() == seen);
        lemma_total_is_natural(seen, windows.week_start as int, None);
        lemma_total_is_natural(
            seen,
            windows.last_week_start as int,
            Some(windows.last_week_end as int),
        );
        lemma_total_is_natural(seen, windows.month_start as int, None);
        lemma_total_is_natural(seen, windows.year_start as int, None);
        lemma_capped_step(total_in(seen, windows.week_start as int, None), day.count);
        lemma_capped_step(
            total_in(seen, windows.last_week_start as int, Some(windows.last_week_end as int)),
            day.count,
        );
        lemma_capped_step(total_in(seen, windows.month_start as int, None), day.count);
        lemma_capped_step(total_in(seen, windows.year_start as int, None), day.count);
    }
    let date: i64 = day.date.day_number as i64;
    let count: u64 = day.count as u64;
    let mut next = totals;
    if date == windows.today {
        next.today = day.count;
    }
    if date >= windows.week_start {
        next.this_week = next.this_week.saturating_add(count);
    }
    if date >= windows.last_week_start && date <= windows.last_week_end {
        next.last_week = next.last_week.saturating_add(count);
    }
    if date >= windows.month_start {
        next.this_month = next.this_month.saturating_add(count);
    }
    if date >= windows.year_start {
        next.this_year = next.this_year.saturating_add(count);
    }
    next
}

/// The totals of a grid over the windows of `today`, in one pass over its
/// cells.
///
/// Today's count is that of the last cell dated today, or zero without one.
/// This week, this month and this year take every cell from their start on;
/// last week takes the cells of its seven days. A grid without weeks gives
/// five zeros.
pub fn bucket_contributions(graph: &ContributionGraph, today: &CalendarDate) -> (totals:
    BucketTotals)
    ensures
        totals == totals_of(graph.days(), DateWindows::of(*today)),
        graph.weeks@.len() == 0 ==> totals == BucketTotals::zero(),
{
    let windows = DateWindows::for_today(today);
    let mut totals = BucketTotals::none();
    let mut w: usize = 0;
    while w < graph.weeks.len()
        invariant
            w <= graph.weeks@.len(),
            windows == DateWindows::of(*today),
            totals == totals_of(all_days(graph.weeks@.take(w as int)), windows),
            graph.weeks@.len() == 0 ==> totals == BucketTotals::zero(),
        decreases graph.weeks@.len() - w,
    {
        let week = &graph.weeks[w];
        let ghost before = all_days(graph.weeks@.take(w as int));
        let mut d: usize = 0;
        while d < week.days.len()
            invariant
                d <= week.days@.len(),
                totals == totals_of(before + week.days@.take(d as int), windows),
            decreases week.days@.len() - d,
        {
            proof {
                assert((before + week.days@.take(d as int)).push(week.days@[d as int]) == before
                    + week.days@.take(d + 1));
            }
            let ghost seen = before + week.days@.take(d as int);
            totals = add_day(totals, &week.days[d], &windows, Ghost(seen));
            d += 1;
        }
        proof {
            assert(week.days@.take(d as int) == week.days@);
            assert(graph.weeks@.take(w + 1).drop_last() == graph.weeks@.take(w as int));
            assert(graph.weeks@.take(w + 1).last() == graph.weeks@[w as int]);
        }
        w += 1;
    }
    proof {
        assert(graph.weeks@.take(w as int) == graph.weeks@);
    }
    totals
}

/// Compares the totals of this week and of last week.
pub fn week_trend(this_week: u64, last_week: u64) -> (trend: WeekTrend)
    ensures
        trend == trend_of(this_week, last_week),
{
    if this_week > last_week {
        WeekTrend::More(this_week - last_week)
    } else if this_week < last_week {
        WeekTrend::Less(last_week - this_week)
    } else {
        WeekTrend::Same
    }
}

} // verus!
