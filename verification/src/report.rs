//! The report of one run: the subject's name, the grid, and the recently
//! pushed repositories with their commit counts.
//!
//! Looking the subject up must succeed; the grid and the repositories are
//! an enrichment, and a run without them still gives a report.

use crate::calendar::{rfc3339_timestamp, Timestamp};
use crate::commits::RepoCommits;
use crate::grid::ContributionGraph;
use chrono::DateTime;
use vstd::prelude::*;
use vstd::string::StringExecFns;

verus! {

/// The largest number of repositories that are asked for and shown.
pub const RECENT_REPOSITORIES: usize = 5;

/// A repository as the provider describes it.
#[derive(Clone, Debug)]
pub struct Repository {
    pub name: String,
    pub pushed_at: String,
    pub owner_login: String,
}

/// A repository with the counts of the principal's commits in it.
#[derive(Clone, Debug)]
pub struct RepositoryWithCommits {
    pub name: String,
    pub full_name: String,
    pub pushed_at: String,
    pub today_commits: u64,
    pub week_commits: u64,
    pub month_commits: u64,
}

/// The report of one run.
#[derive(Clone, Debug)]
pub struct Stats {
    pub username: String,
    pub contribution_graph: ContributionGraph,
    pub recent_repos: Vec<RepositoryWithCommits>,
}

/// What looking the subject up gave.
#[derive(Clone, Debug)]
pub enum UserLookup {
    /// The provider answered with this status and, where the answer could
    /// be read, this login.
    Answered { status: u16, login: Option<String> },
    /// The provider was not reached.
    Unreachable,
}

/// Why a run gives no report.
#[derive(Clone, Copy, Debug, PartialEq, Eq, Structural)]
pub enum ReportError {
    /// The provider knows no such user.
    UserNotFound,
    /// The provider was not reached, or its answer named no user.
    TransportFailure,
}

/// How long ago a repository was pushed, in the largest unit that has
/// passed at least once.
#[derive(Clone, Copy, Debug, PartialEq, Eq, Structural)]
pub enum Age {
    Days(i64),
    Hours(i64),
    Minutes(i64),
    JustNow,
    Unknown,
}

/// The status with which the provider says that it knows no such user.
pub const STATUS_NOT_FOUND: u16 = 404;

/// The full name of a repository: its owner's login, a slash, its name.
pub open spec fn full_name_of(owner_login: Seq<char>, name: Seq<char>) -> Seq<char> {
    owner_login + seq!['/'] + name
}

/// The subject's login as the lookup gave it, or why there is none.
pub open spec fn resolved(lookup: UserLookup) -> Result<Seq<char>, ReportError> {
    match lookup {
        UserLookup::Answered { status, login } => if status == STATUS_NOT_FOUND {
            Err(ReportError::UserNotFound)
        } else {
            match login {
                Some(name) => Ok(name@),
                None => Err(ReportError::TransportFailure),
            }
        },
        UserLookup::Unreachable => Err(ReportError::TransportFailure),
    }
}

/// The age that whole seconds passed stand for.
pub open spec fn age_after(elapsed: int) -> Age {
    if elapsed >= 86_400 {
        Age::Days((elapsed / 86_400) as i64)
    } else if elapsed >= 3_600 {
        Age::Hours((elapsed / 3_600) as i64)
    } else if elapsed >= 60 {
        Age::Minutes((elapsed / 60) as i64)
    } else {
        Age::JustNow
    }
}

/// The age at `now` of a push whose moment is written in `pushed_at`.
pub open spec fn age_at(pushed_at: Seq<char>, now: Timestamp) -> Age {
    match rfc3339_timestamp(pushed_at) {
        Some(pushed) => match elapsed_seconds(
            now.seconds as int,
            now.nanos as int,
            pushed.seconds as int,
            pushed.nanos as int,
        ) {
            Some(elapsed) => age_after(elapsed as int),
            None => Age::Unknown,
        },
        None => Age::Unknown,
    }
}

/// Builds the full name of a repository.
pub fn full_name(owner_login: &str, name: &str) -> (full: String)
    ensures
        full@ == full_name_of(owner_login@, name@),
{
    proof {
        reveal_strlit("/");
        assert("/"@ == seq!['/']);
    }
    let mut full = String::from_str(owner_login);
    full.append("/");
    full.append(name);
    full
}

impl RepositoryWithCommits {
    /// The record of a repository and what was counted in it.
    pub fn new(repository: Repository, commits: &RepoCommits) -> (record: RepositoryWithCommits)
        ensures
            record.name@ == repository.name@,
            record.full_name@ == full_name_of(repository.owner_login@, repository.name@),
            record.pushed_at@ == repository.pushed_at@,
            record.today_commits == commits.counts.today,
            record.week_commits == commits.counts.week,
            record.month_commits == commits.counts.month,
    {
        let full_name = full_name(repository.owner_login.as_str(), repository.name.as_str());
        RepositoryWithCommits {
            name: repository.name,
            full_name,
            pushed_at: repository.pushed_at,
            today_commits: commits.counts.today,
            week_commits: commits.counts.week,
            month_commits: commits.counts.month,
        }
    }
}

/// Settles who the subject is. A status of [`STATUS_NOT_FOUND`] means that
/// there is no such user; any other answer gives the login it holds, and
/// fails where it holds none or the provider was not reached.
pub fn resolve_user(lookup: UserLookup) -> (subject: Result<String, ReportError>)
    ensures
        match subject {
            Ok(login) => resolved(lookup) == Ok::<Seq<char>, ReportError>(login@),
            Err(e) => resolved(lookup) == Err::<Seq<char>, ReportError>(e),
        },
{
    match lookup {
        UserLookup::Answered { status, login } => {
            if status == STATUS_NOT_FOUND {
                Err(ReportError::UserNotFound)
            } else {
                match login {
                    Some(name) => Ok(name),
                    None => Err(ReportError::TransportFailure),
                }
            }
        },
        UserLookup::Unreachable => Err(ReportError::TransportFailure),
    }
}

impl Stats {
    /// Puts the report together. Without a subject there is no report, and
    /// the error says why. Without the enrichment the report has a grid
    /// without weeks, a total of zero and no repositories.
    pub fn assemble(
        lookup: UserLookup,
        enrichment: Option<(ContributionGraph, Vec<RepositoryWithCommits>)>,
    ) -> (report: Result<Stats, ReportError>)
        ensures
            match report {
                Ok(stats) => {
                    &&& resolved(lookup) == Ok::<Seq<char>, ReportError>(stats.username@)
                    &&& match enrichment {
                        Some((graph, repositories)) => stats.contribution_graph == graph
                            && stats.recent_repos == repositories,
                        None => stats.contribution_graph.weeks@.len() == 0
                            && stats.contribution_graph.total_contributions == 0
                            && stats.recent_repos@.len() == 0,
                    }
                },
                Err(e) => resolved(lookup) == Err::<Seq<char>, ReportError>(e),
            },
    {
        match resolve_user(lookup) {
            Ok(username) => {
                let (contribution_graph, recent_repos) = match enrichment {
                    Some((graph, repositories)) => (graph, repositories),
                    None => (ContributionGraph::empty(), Vec::new()),
                };
                Ok(Stats { username, contribution_graph, recent_repos })
            },
            Err(e) => Err(e),
        }
    }

    /// The number of repositories that the report shows: all of them, up
    /// to [`RECENT_REPOSITORIES`].
    pub fn shown_repositories(&self) -> (shown: usize)
        ensures
            shown <= RECENT_REPOSITORIES,
            shown <= self.recent_repos@.len(),
            shown == RECENT_REPOSITORIES || shown == self.recent_repos@.len(),
    {
        if self.recent_repos.len() < RECENT_REPOSITORIES {
            self.recent_repos.len()
        } else {
            RECENT_REPOSITORIES
        }
    }
}

impl Age {
    /// The age that `elapsed` whole seconds stand for: days where a day
    /// has passed, else hours, else minutes, else "just now". Time that
    /// runs backwards is "just now" too.
    pub fn after(elapsed: i64) -> (age: Age)
        ensures
            age == age_after(elapsed as int),
    {
        if elapsed >= 86_400 {
            Age::Days(elapsed / 86_400)
        } else if elapsed >= 3_600 {
            Age::Hours(elapsed / 3_600)
        } else if elapsed >= 60 {
            Age::Minutes(elapsed / 60)
        } else {
            Age::JustNow
        }
    }

    /// The age at `now` of a push whose moment is written in `pushed_at`,
    /// or [`Age::Unknown`] where the text is no moment.
    pub fn of_push(pushed_at: &str, now: &Timestamp) -> (age: Age)
        ensures
            age == age_at(pushed_at@, *now),
    {
        match Timestamp::parse(pushed_at) {
            Some(pushed) => match seconds_between(now, &pushed) {
                Some(elapsed) => Age::after(elapsed),
                None => Age::Unknown,
            },
            None => Age::Unknown,
        }
    }
}

/// The whole seconds that `chrono` counts from one moment to another, each
/// given by its seconds and nanoseconds; `None` where `chrono` has no such
/// moment.
pub uninterp spec fn elapsed_seconds(
    later_seconds: int,
    later_nanos: int,
    earlier_seconds: int,
    earlier_nanos: int,
) -> Option<i64>;

/// Calls `chrono::DateTime::from_timestamp` on both moments, then
/// `signed_duration_since` and `num_seconds`. Believed, not proved: the
/// result depends on the four numbers alone.
#[verifier::external_body]
fn seconds_between(later: &Timestamp, earlier: &Timestamp) -> (elapsed: Option<i64>)
    ensures
        elapsed == elapsed_seconds(
            later.seconds as int,
            later.nanos as int,
            earlier.seconds as int,
            earlier.nanos as int,
        ),
{
    let end = DateTime::from_timestamp(later.seconds, later.nanos)?;
    let start = DateTime::from_timestamp(earlier.seconds, earlier.nanos)?;
    Some(end.signed_duration_since(start).num_seconds())
}

} // verus!
