//! Commit counts of one repository: the pages of commit records are taken
//! one by one, the commits of the principal are kept, and their moments are
//! counted over the windows of "today".
//!
//! Fetching a page is the caller's work. The decisions are made here:
//! [`step`] takes the state and what the fetch gave, and returns the next
//! state and what to do next.

use crate::calendar::{
    rfc3339_timestamp, utc_text, CalendarDate, DateWindows, LocalMoment, Timestamp,
};
use crate::text::same_text;
use vstd::prelude::*;

verus! {

/// The number of records asked for in one page.
pub const PAGE_SIZE: u32 = 100;

/// The largest number of pages taken for one repository.
pub const MAX_PAGES: u32 = 5;

/// One commit as the provider sends it: the login of the account that the
/// commit is attributed to, which may be absent, and the text of the moment
/// it was authored.
#[derive(Clone, Debug)]
pub struct CommitRecord {
    pub author_login: Option<String>,
    pub authored_at: Option<String>,
}

/// What a fetch of one page gave.
#[derive(Clone, Debug)]
pub enum PageResponse {
    /// The page arrived and held these records.
    Records(Vec<CommitRecord>),
    /// The request failed, or the answer was no success.
    TransportFailure,
    /// The page arrived and could not be read.
    MalformedBody,
}

/// How the paging of one repository ended.
#[derive(Clone, Copy, Debug, PartialEq, Eq, Structural)]
pub enum Outcome {
    /// A page came back empty: there are no more commits.
    Exhausted,
    /// The largest number of pages was taken.
    Capped,
    /// A fetch failed; what was gathered before it is kept.
    Interrupted,
    /// A page could not be read; nothing is kept.
    Unreadable,
}

/// What the caller does next.
#[derive(Clone, Copy, Debug, PartialEq, Eq, Structural)]
pub enum Action {
    /// Fetch the page with this number, counted from 1, with this many
    /// records to a page.
    Fetch { page: u32, per_page: u32 },
    /// Fetch no more.
    Stop,
}

/// The state of the paging of one repository: the number of pages taken so
/// far, the moments of the principal's commits in them (`None` for a commit
/// whose moment cannot be read), and how the paging ended, once it has.
#[derive(Clone, Debug)]
pub struct Aggregation {
    pub pages: u32,
    pub matched: Vec<Option<Timestamp>>,
    pub outcome: Option<Outcome>,
}

/// An [`Aggregation`] as a value of the model.
pub struct AggregationView {
    pub pages: u32,
    pub matched: Seq<Option<Timestamp>>,
    pub outcome: Option<Outcome>,
}

/// The moments that bound the counts, in UTC. Today runs from `today_start`
/// to `today_end`, the week from `week_start` to `today_end`; the month
/// starts at `month_start`.
#[derive(Clone, Copy, Debug, PartialEq, Eq, Structural)]
pub struct CommitWindow {
    pub today_start: Timestamp,
    pub today_end: Timestamp,
    pub week_start: Timestamp,
    pub month_start: Timestamp,
}

/// The local times that bound the counts: midnight and the last second of
/// today, midnight of the Monday of this week, midnight of the first of
/// this month.
#[derive(Clone, Copy, Debug, PartialEq, Eq, Structural)]
pub struct WindowMoments {
    pub today_start: LocalMoment,
    pub today_end: LocalMoment,
    pub week_start: LocalMoment,
    pub month_start: LocalMoment,
}

/// The span of time that the commits are asked for, as the provider takes
/// it: from the start of the month to the end of today.
#[derive(Clone, Debug)]
pub struct FetchRange {
    pub since: String,
    pub until: String,
}

/// The three counts of one repository.
#[derive(Clone, Copy, Debug, PartialEq, Eq, Structural)]
pub struct CommitCounts {
    pub today: u64,
    pub week: u64,
    pub month: u64,
}

/// The counts of one repository, and whether they are less than asked for:
/// `degraded` holds where a window could not be made, a fetch failed, a page
/// could not be read, or the paging has not ended.
#[derive(Clone, Copy, Debug, PartialEq, Eq, Structural)]
pub struct RepoCommits {
    pub counts: CommitCounts,
    pub degraded: bool,
}

impl View for Aggregation {
    type V = AggregationView;

    open spec fn view(&self) -> AggregationView {
        AggregationView { pages: self.pages, matched: self.matched@, outcome: self.outcome }
    }
}

/// Whether a commit is attributed to the principal: its login is there and
/// is the principal's, letter for letter.
pub open spec fn is_by(record: CommitRecord, principal: Seq<char>) -> bool {
    record.author_login matches Some(login) && login@ == principal
}

/// The moment a commit was authored, where its text can be read as one.
pub open spec fn authored_moment(record: CommitRecord) -> Option<Timestamp> {
    match record.authored_at {
        Some(text) => rfc3339_timestamp(text@),
        None => None,
    }
}

/// The moments of the principal's commits in a page, in the page's order.
/// A commit of the principal whose moment cannot be read stays, as `None`.
pub open spec fn matched_in(page: Seq<CommitRecord>, principal: Seq<char>) -> Seq<
    Option<Timestamp>,
>
    decreases page.len(),
{
    if page.len() == 0 {
        Seq::empty()
    } else if is_by(page.last(), principal) {
        matched_in(page.drop_last(), principal).push(authored_moment(page.last()))
    } else {
        matched_in(page.drop_last(), principal)
    }
}

/// The number of moments that lie from `first` to `last`, both included.
pub open spec fn count_within(
    moments: Seq<Option<Timestamp>>,
    first: Timestamp,
    last: Timestamp,
) -> nat
    decreases moments.len(),
{
    if moments.len() == 0 {
        0
    } else {
        count_within(moments.drop_last(), first, last) + (if moments.last() matches Some(at)
            && first.at_or_before(at) && at.at_or_before(last) {
            1nat
        } else {
            0nat
        })
    }
}

/// The counts of the moments over a window. The month's count is the
/// number of commits gathered, also of those whose moment cannot be read.
pub open spec fn counts_of(moments: Seq<Option<Timestamp>>, window: CommitWindow) -> CommitCounts {
    CommitCounts {
        today: count_within(moments, window.today_start, window.today_end) as u64,
        week: count_within(moments, window.week_start, window.today_end) as u64,
        month: moments.len() as u64,
    }
}

impl AggregationView {
    /// What holds of every state that a paging reaches: no more pages are
    /// taken than may be, the cap is the outcome exactly when all of them
    /// were taken, and a paging that met a page it could not read keeps
    /// nothing.
    pub open spec fn wf(self) -> bool {
        &&& self.pages <= MAX_PAGES
        &&& self.pages == MAX_PAGES <==> self.outcome == Some(Outcome::Capped)
        &&& self.outcome == Some(Outcome::Unreadable) ==> self.matched.len() == 0
    }

    /// The paging has ended: an outcome is set, or the largest number of
    /// pages was taken.
    pub open spec fn finished(self) -> bool {
        self.outcome is Some || self.pages >= MAX_PAGES
    }

    /// What the caller does next in this state.
    pub open spec fn next_action(self) -> Action {
        if self.finished() {
            Action::Stop
        } else {
            Action::Fetch { page: (self.pages + 1) as u32, per_page: PAGE_SIZE }
        }
    }

    /// The number of pages that may still be fetched.
    pub open spec fn pages_left(self) -> nat {
        if self.finished() {
            0
        } else {
            (MAX_PAGES - self.pages) as nat
        }
    }

    /// The state after the fetch of the next page gave `response`.
    ///
    /// An empty page ends the paging. A page with records adds the moments
    /// of the principal's commits and counts as taken; the last page that
    /// may be taken ends the paging. A failed fetch ends it and keeps what
    /// was gathered; a page that cannot be read ends it and keeps nothing.
    /// A state whose paging has ended stays as it is.
    pub open spec fn after(self, response: PageResponse, principal: Seq<char>) -> AggregationView {
        if self.finished() {
            self
        } else {
            match response {
                PageResponse::Records(records) => if records@.len() == 0 {
                    AggregationView { outcome: Some(Outcome::Exhausted), ..self }
                } else {
                    AggregationView {
                        pages: (self.pages + 1) as u32,
                        matched: self.matched + matched_in(records@, principal),
                        outcome: if self.pages + 1 >= MAX_PAGES {
                            Some(Outcome::Capped)
                        } else {
                            None
                        },
                    }
                },
                PageResponse::TransportFailure => AggregationView {
                    outcome: Some(Outcome::Interrupted),
                    ..self
                },
                PageResponse::MalformedBody => AggregationView {
                    pages: self.pages,
                    matched: Seq::empty(),
                    outcome: Some(Outcome::Unreadable),
                },
            }
        }
    }
}

/// Whether a commit is attributed to the principal.
pub fn is_by_principal(record: &CommitRecord, principal: &str) -> (by: bool)
    ensures
        by == is_by(*record, principal@),
{
    match &record.author_login {
        Some(login) => same_text(login.as_str(), principal),
        None => false,
    }
}

/// The moment a commit was authored, or `None` where it has none that can
/// be read.
pub fn moment_of(record: &CommitRecord) -> (moment: Option<Timestamp>)
    ensures
        moment == authored_moment(*record),
{
    match &record.authored_at {
        Some(text) => Timestamp::parse(text.as_str()),
        None => None,
    }
}

/// The moments of the principal's commits in a page, in the page's order:
/// the commits of others are left out, and a commit of the principal whose
/// moment cannot be read stays, as `None`.
pub fn matched_moments(records: &Vec<CommitRecord>, principal: &str) -> (found: Vec<
    Option<Timestamp>,
>)
    ensures
        found@ == matched_in(records@, principal@),
{
    let mut found: Vec<Option<Timestamp>> = Vec::new();
    let mut i: usize = 0;
    while i < records.len()
        invariant
            i <= records@.len(),
            found@ == matched_in(records@.take(i as int), principal@),
        decreases records@.len() - i,
    {
        proof {
            let seen = records@.take(i + 1);
            assert(seen.drop_last() == records@.take(i as int));
            assert(seen.last() == records@[i as int]);
        }
        if is_by_principal(&records[i], principal) {
            found.push(moment_of(&records[i]));
        }
        i += 1;
    }
    proof {
        assert(records@.take(i as int) == records@);
    }
    found
}

impl Aggregation {
    /// The state before the first page, and the fetch of page 1.
    pub fn start() -> (begun: (Aggregation, Action))
        ensures
            begun.0@ == (AggregationView { pages: 0, matched: Seq::empty(), outcome: None }),
            begun.1 == (Action::Fetch { page: 1, per_page: PAGE_SIZE }),
            begun.1 == begun.0@.next_action(),
            begun.0@.wf(),
    {
        (
            Aggregation { pages: 0, matched: Vec::new(), outcome: None },
            Action::Fetch { page: 1, per_page: PAGE_SIZE },
        )
    }

    /// Whether the paging has ended.
    pub fn is_finished(&self) -> (finished: bool)
        ensures
            finished == self@.finished(),
    {
        self.outcome.is_some() || self.pages >= MAX_PAGES
    }

    /// What the caller does next in this state.
    pub fn next_action(&self) -> (action: Action)
        ensures
            action == self@.next_action(),
    {
        if self.is_finished() {
            Action::Stop
        } else {
            Action::Fetch { page: self.pages + 1, per_page: PAGE_SIZE }
        }
    }
}

/// Takes what the fetch of the next page gave, and says what to do next.
///
/// The next state is [`AggregationView::after`] of the state; the action is
/// the next state's [`AggregationView::next_action`].
pub fn step(state: Aggregation, response: PageResponse, principal: &str) -> (next: (
    Aggregation,
    Action,
))
    ensures
        next.0@ == state@.after(response, principal@),
        next.1 == next.0@.next_action(),
        state@.wf() ==> next.0@.wf(),
{
    if state.is_finished() {
        let action = state.next_action();
        return (state, action);
    }
    let Aggregation { pages, matched, outcome: _ } = state;
    let next = match response {
        PageResponse::Records(records) => {
            if records.len() == 0 {
                Aggregation { pages, matched, outcome: Some(Outcome::Exhausted) }
            } else {
                let mut matched = matched;
                let mut found = matched_moments(&records, principal);
                matched.append(&mut found);
                Aggregation {
                    pages: pages + 1,
                    matched,
                    outcome: if pages + 1 >= MAX_PAGES {
                        Some(Outcome::Capped)
                    } else {
                        None
                    },
                }
            }
        },
        PageResponse::TransportFailure => Aggregation {
            pages,
            matched,
            outcome: Some(Outcome::Interrupted),
        },
        PageResponse::MalformedBody => Aggregation {
            pages,
            matched: Vec::new(),
            outcome: Some(Outcome::Unreadable),
        },
    };
    let action = next.next_action();
    (next, action)
}

/// The local times that bound the counts of `today`, or `None` where the
/// Monday of the week or the first of the month has no day number.
pub open spec fn moments_of(today: CalendarDate) -> Option<WindowMoments> {
    let windows = DateWindows::of(today);
    if i32::MIN <= windows.week_start <= i32::MAX && i32::MIN <= windows.month_start
        <= i32::MAX {
        Some(
            WindowMoments {
                today_start: LocalMoment {
                    day_number: today.day_number,
                    hour: 0,
                    minute: 0,
                    second: 0,
                },
                today_end: LocalMoment {
                    day_number: today.day_number,
                    hour: 23,
                    minute: 59,
                    second: 59,
                },
                week_start: LocalMoment {
                    day_number: windows.week_start as i32,
                    hour: 0,
                    minute: 0,
                    second: 0,
                },
                month_start: LocalMoment {
                    day_number: windows.month_start as i32,
                    hour: 0,
                    minute: 0,
                    second: 0,
                },
            },
        )
    } else {
        None
    }
}

/// The window of four moments, where each of them is there.
pub open spec fn window_of(
    today_start: Option<Timestamp>,
    today_end: Option<Timestamp>,
    week_start: Option<Timestamp>,
    month_start: Option<Timestamp>,
) -> Option<CommitWindow> {
    if today_start is Some && today_end is Some && week_start is Some && month_start is Some {
        Some(
            CommitWindow {
                today_start: today_start->0,
                today_end: today_end->0,
                week_start: week_start->0,
                month_start: month_start->0,
            },
        )
    } else {
        None
    }
}

/// What is reported for a repository in a state of its paging. Without a
/// window nothing is counted.
pub open spec fn concluded(state: AggregationView, window: Option<CommitWindow>) -> RepoCommits {
    match window {
        Some(bounds) => RepoCommits {
            counts: counts_of(state.matched, bounds),
            degraded: !state.finished() || state.outcome == Some(Outcome::Interrupted)
                || state.outcome == Some(Outcome::Unreadable),
        },
        None => RepoCommits {
            counts: CommitCounts { today: 0, week: 0, month: 0 },
            degraded: true,
        },
    }
}

/// The local times that bound the counts of `today`: the same Monday and
/// the same first of the month that bound the totals of the grid.
pub fn window_moments(today: &CalendarDate) -> (moments: Option<WindowMoments>)
    ensures
        moments == moments_of(*today),
{
    let windows = DateWindows::for_today(today);
    if windows.week_start < i32::MIN as i64 || windows.week_start > i32::MAX as i64
        || windows.month_start < i32::MIN as i64 || windows.month_start > i32::MAX as i64 {
        return None;
    }
    Some(
        WindowMoments {
            today_start: LocalMoment {
                day_number: today.day_number,
                hour: 0,
                minute: 0,
                second: 0,
            },
            today_end: LocalMoment {
                day_number: today.day_number,
                hour: 23,
                minute: 59,
                second: 59,
            },
            week_start: LocalMoment {
                day_number: windows.week_start as i32,
                hour: 0,
                minute: 0,
                second: 0,
            },
            month_start: LocalMoment {
                day_number: windows.month_start as i32,
                hour: 0,
                minute: 0,
                second: 0,
            },
        },
    )
}

impl CommitWindow {
    /// The window of four moments, where each of them is there.
    pub fn from_moments(
        today_start: Option<Timestamp>,
        today_end: Option<Timestamp>,
        week_start: Option<Timestamp>,
        month_start: Option<Timestamp>,
    ) -> (window: Option<CommitWindow>)
        ensures
            window == window_of(today_start, today_end, week_start, month_start),
    {
        match (today_start, today_end, week_start, month_start) {
            (Some(today_start), Some(today_end), Some(week_start), Some(month_start)) => Some(
                CommitWindow { today_start, today_end, week_start, month_start },
            ),
            _ => None,
        }
    }

    /// Each bound may be the moment, in some time zone, of the local time
    /// that it is named after.
    pub open spec fn is_of(self, moments: WindowMoments) -> bool {
        &&& moments.today_start.may_be(self.today_start)
        &&& moments.today_end.may_be(self.today_end)
        &&& moments.week_start.may_be(self.week_start)
        &&& moments.month_start.may_be(self.month_start)
    }

    /// The window of `today` in UTC: its local times, each turned into a
    /// moment by the machine's time zone. There is none where the local
    /// times have no day numbers, or where the time zone gives one of them
    /// no single moment.
    ///
    /// A window that comes back is made of the four local times of
    /// [`moments_of`]: midnight of today, the last second of today,
    /// midnight of the Monday of the week and midnight of the first of the
    /// month, each moved by the zone's offset from UTC.
    pub fn for_today(today: &CalendarDate) -> (window: Option<CommitWindow>)
        ensures
            moments_of(*today) is None ==> window is None,
            window matches Some(bounds) ==> moments_of(*today) matches Some(moments)
                && bounds.is_of(moments),
    {
        match window_moments(today) {
            Some(moments) => CommitWindow::from_moments(
                moments.today_start.to_utc(),
                moments.today_end.to_utc(),
                moments.week_start.to_utc(),
                moments.month_start.to_utc(),
            ),
            None => None,
        }
    }

    /// The span of time to ask the provider for: from the start of the
    /// month to the end of today, each written in UTC.
    pub fn fetch_range(&self) -> (range: Option<FetchRange>)
        ensures
            match range {
                Some(span) => utc_text(
                    self.month_start.seconds as int,
                    self.month_start.nanos as int,
                ) == Some(span.since@) && utc_text(
                    self.today_end.seconds as int,
                    self.today_end.nanos as int,
                ) == Some(span.until@),
                None => utc_text(self.month_start.seconds as int, self.month_start.nanos as int)
                    is None || utc_text(
                    self.today_end.seconds as int,
                    self.today_end.nanos as int,
                ) is None,
            },
    {
        FetchRange::from_texts(self.month_start.to_utc_text(), self.today_end.to_utc_text())
    }
}

impl FetchRange {
    /// The span from `since` to `until`, where both are there.
    pub fn from_texts(since: Option<String>, until: Option<String>) -> (range: Option<FetchRange>)
        ensures
            range is Some <==> since is Some && until is Some,
            range matches Some(span) ==> span.since@ == since->0@ && span.until@ == until->0@,
    {
        match (since, until) {
            (Some(since), Some(until)) => Some(FetchRange { since, until }),
            _ => None,
        }
    }
}

/// The counts of commits are bounded by the same days as the totals of the
/// grid: the week starts at midnight of the Monday that starts the grid's
/// week, the month at midnight of the first that starts the grid's month,
/// and today is the grid's today. A calendar date has such local times
/// unless its day number is among the thirty lowest that there are.
pub proof fn lemma_windows_agree_with_the_grid(today: CalendarDate)
    ensures
        moments_of(today) matches Some(moments) ==> {
            &&& moments.week_start.day_number == DateWindows::of(today).week_start
            &&& moments.month_start.day_number == DateWindows::of(today).month_start
            &&& moments.today_start.day_number == DateWindows::of(today).today
            &&& moments.today_end.day_number == DateWindows::of(today).today
            &&& moments.today_start.is_time_of_day()
            &&& moments.today_end.is_time_of_day()
            &&& moments.week_start.is_time_of_day()
            &&& moments.month_start.is_time_of_day()
        },
        today.wf() && today.day_number >= i32::MIN + 30 ==> moments_of(today) is Some,
{
}

/// No more moments lie in a span than there are moments.
pub proof fn lemma_count_is_bounded(
    moments: Seq<Option<Timestamp>>,
    first: Timestamp,
    last: Timestamp,
)
    ensures
        count_within(moments, first, last) <= moments.len(),
    decreases moments.len(),
{
    if moments.len() > 0 {
        lemma_count_is_bounded(moments.drop_last(), first, last);
    }
}

/// A span that starts no later holds no fewer moments.
pub proof fn lemma_count_grows_with_span(
    moments: Seq<Option<Timestamp>>,
    earlier: Timestamp,
    later: Timestamp,
    last: Timestamp,
)
    requires
        earlier.at_or_before(later),
    ensures
        count_within(moments, later, last) <= count_within(moments, earlier, last),
    decreases moments.len(),
{
    if moments.len() > 0 {
        lemma_count_grows_with_span(moments.drop_last(), earlier, later, last);
    }
}

/// Counts the moments over a window: those of today, those of the week,
/// and all of them for the month.
pub fn count_commits(moments: &Vec<Option<Timestamp>>, window: &CommitWindow) -> (counts:
    CommitCounts)
    ensures
        counts == counts_of(moments@, *window),
{
    let mut today: u64 = 0;
    let mut week: u64 = 0;
    let mut i: usize = 0;
    while i < moments.len()
        invariant
            i <= moments@.len(),
            today == count_within(moments@.take(i as int), window.today_start, window.today_end),
            week == count_within(moments@.take(i as int), window.week_start, window.today_end),
            today <= i,
            week <= i,
        decreases moments@.len() - i,
    {
        proof {
            let seen = moments@.take(i + 1);
            assert(seen.drop_last() == moments@.take(i as int));
            assert(seen.last() == moments@[i as int]);
        }
        match moments[i] {
            Some(at) => {
                if window.today_start.is_at_or_before(&at) && at.is_at_or_before(
                    &window.today_end,
                ) {
                    today += 1;
                }
                if window.week_start.is_at_or_before(&at) && at.is_at_or_before(
                    &window.today_end,
                ) {
                    week += 1;
                }
            },
            None => {},
        }
        i += 1;
    }
    proof {
        assert(moments@.take(i as int) == moments@);
    }
    CommitCounts { today, week, month: moments.len() as u64 }
}

/// What is reported for a repository: the counts of what its paging
/// gathered over the window, and whether that is less than asked for.
/// Without a window the counts are zero.
pub fn conclude(state: &Aggregation, window: &Option<CommitWindow>) -> (report: RepoCommits)
    ensures
        report == concluded(state@, *window),
{
    match window {
        Some(bounds) => {
            let interrupted = match state.outcome {
                Some(Outcome::Interrupted) => true,
                Some(Outcome::Unreadable) => true,
                _ => false,
            };
            RepoCommits {
                counts: count_commits(&state.matched, bounds),
                degraded: !state.is_finished() || interrupted,
            }
        },
        None => RepoCommits { counts: CommitCounts { today: 0, week: 0, month: 0 }, degraded: true },
    }
}

/// Every step of a paging that has not ended leaves fewer pages to fetch,
/// and a paging that has ended stays ended. So whatever the provider
/// answers, also one that never sends an empty page, at most
/// [`MAX_PAGES`] pages are fetched.
pub proof fn lemma_paging_ends(state: AggregationView, response: PageResponse, principal: Seq<char>)
    ensures
        !state.finished() ==> state.after(response, principal).pages_left() < state.pages_left(),
        state.finished() ==> state.after(response, principal) == state,
        state.pages_left() <= MAX_PAGES,
        state.pages_left() == 0 <==> state.next_action() == Action::Stop,
{
}

/// A step keeps what holds of every state that a paging reaches.
pub proof fn lemma_step_keeps_wf(state: AggregationView, response: PageResponse, principal: Seq<char>)
    requires
        state.wf(),
    ensures
        state.after(response, principal).wf(),
{
}

/// A page gives no more moments than it has records.
pub proof fn lemma_matched_fits_the_page(page: Seq<CommitRecord>, principal: Seq<char>)
    ensures
        matched_in(page, principal).len() <= page.len(),
    decreases page.len(),
{
    if page.len() > 0 {
        lemma_matched_fits_the_page(page.drop_last(), principal);
    }
}

/// Where no page holds more records than were asked for, a paging gathers
/// no more than [`PAGE_SIZE`] moments for each page taken, so no more than
/// five hundred in all.
pub proof fn lemma_gathered_is_bounded(
    state: AggregationView,
    response: PageResponse,
    principal: Seq<char>,
)
    requires
        state.wf(),
        state.matched.len() <= state.pages * PAGE_SIZE,
        response matches PageResponse::Records(records) ==> records@.len() <= PAGE_SIZE,
    ensures
        state.after(response, principal).matched.len() <= state.after(response, principal).pages
            * PAGE_SIZE,
        state.after(response, principal).matched.len() <= MAX_PAGES * PAGE_SIZE,
{
    if let PageResponse::Records(records) = response {
        lemma_matched_fits_the_page(records@, principal);
    }
}

/// A paging whose first fetch fails counts nothing, and says that it is
/// degraded; so does one whose page cannot be read, whatever it had
/// gathered. What one repository's paging meets touches no other's: the
/// state of a paging is all that a step reads.
pub proof fn lemma_failure_counts_nothing(
    state: AggregationView,
    principal: Seq<char>,
    window: CommitWindow,
)
    requires
        !state.finished(),
    ensures
        concluded(state.after(PageResponse::MalformedBody, principal), Some(window)) == (
        RepoCommits { counts: CommitCounts { today: 0, week: 0, month: 0 }, degraded: true }),
        state.matched.len() == 0 ==> concluded(
            state.after(PageResponse::TransportFailure, principal),
            Some(window),
        ) == (RepoCommits { counts: CommitCounts { today: 0, week: 0, month: 0 }, degraded: true }),
        concluded(state.after(PageResponse::TransportFailure, principal), Some(window)).degraded,
{
}

/// The counts lie inside one another: the week's is no larger than the
/// month's, and today's no larger than the week's where the week starts no
/// later than today.
pub proof fn lemma_counts_nest(moments: Seq<Option<Timestamp>>, window: CommitWindow)
    requires
        moments.len() <= u64::MAX,
    ensures
        counts_of(moments, window).week <= counts_of(moments, window).month,
        window.week_start.at_or_before(window.today_start) ==> counts_of(moments, window).today
            <= counts_of(moments, window).week,
{
    lemma_count_is_bounded(moments, window.week_start, window.today_end);
    lemma_count_is_bounded(moments, window.today_start, window.today_end);
    if window.week_start.at_or_before(window.today_start) {
        lemma_count_grows_with_span(
            moments,
            window.week_start,
            window.today_start,
            window.today_end,
        );
    }
}

} // verus!
