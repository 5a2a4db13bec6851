use github_stats::calendar::Timestamp;
use github_stats::commits::{CommitCounts, RepoCommits};
use github_stats::grid::{ContributionGraph, Week};
use github_stats::report::{
    full_name, resolve_user, Age, ReportError, Repository, RepositoryWithCommits, Stats,
    UserLookup, RECENT_REPOSITORIES, STATUS_NOT_FOUND,
};

fn repository(owner: &str, name: &str) -> Repository {
    Repository {
        name: name.to_string(),
        pushed_at: "2024-03-13T10:00:00Z".to_string(),
        owner_login: owner.to_string(),
    }
}

fn record(name: &str) -> RepositoryWithCommits {
    RepositoryWithCommits::new(
        repository("octocat", name),
        &RepoCommits { counts: CommitCounts { today: 0, week: 0, month: 0 }, degraded: false },
    )
}

fn answered(status: u16, login: Option<&str>) -> UserLookup {
    UserLookup::Answered { status, login: login.map(str::to_string) }
}

#[test]
fn full_name_joins_owner_and_name() {
    assert_eq!(full_name("octocat", "hello-world"), "octocat/hello-world");
    assert_eq!(full_name("", ""), "/");
    assert_eq!(full_name("a/b", "c"), "a/b/c");
}

#[test]
fn record_of_a_repository() {
    let r = RepositoryWithCommits::new(
        repository("octocat", "hello-world"),
        &RepoCommits { counts: CommitCounts { today: 1, week: 2, month: 3 }, degraded: false },
    );
    assert_eq!(r.name, "hello-world");
    assert_eq!(r.full_name, "octocat/hello-world");
    assert_eq!(r.pushed_at, "2024-03-13T10:00:00Z");
    assert_eq!((r.today_commits, r.week_commits, r.month_commits), (1, 2, 3));
}

#[test]
fn record_of_a_repository_that_failed_has_zeros() {
    let r = RepositoryWithCommits::new(
        repository("octocat", "broken"),
        &RepoCommits { counts: CommitCounts { today: 0, week: 0, month: 0 }, degraded: true },
    );
    assert_eq!(r.full_name, "octocat/broken");
    assert_eq!((r.today_commits, r.week_commits, r.month_commits), (0, 0, 0));
}

#[test]
fn a_user_that_is_found() {
    assert_eq!(resolve_user(answered(200, Some("octocat"))), Ok("octocat".to_string()));
}

#[test]
fn a_user_that_is_not_found() {
    assert_eq!(resolve_user(answered(404, None)), Err(ReportError::UserNotFound));
    assert_eq!(resolve_user(answered(STATUS_NOT_FOUND, Some("x"))), Err(ReportError::UserNotFound));
}

#[test]
fn an_answer_without_a_login_fails() {
    assert_eq!(resolve_user(answered(200, None)), Err(ReportError::TransportFailure));
    assert_eq!(resolve_user(answered(403, None)), Err(ReportError::TransportFailure));
    assert_eq!(resolve_user(answered(500, None)), Err(ReportError::TransportFailure));
}

#[test]
fn a_provider_that_is_not_reached_fails() {
    assert_eq!(resolve_user(UserLookup::Unreachable), Err(ReportError::TransportFailure));
}

#[test]
fn any_other_status_with_a_login_gives_it() {
    assert_eq!(resolve_user(answered(403, Some("octocat"))), Ok("octocat".to_string()));
}

#[test]
fn a_report_with_its_enrichment() {
    let graph = ContributionGraph { weeks: vec![Week { days: vec![] }], total_contributions: 12 };
    let repos = vec![record("a"), record("b")];
    let stats = Stats::assemble(answered(200, Some("octocat")), Some((graph, repos))).unwrap();
    assert_eq!(stats.username, "octocat");
    assert_eq!(stats.contribution_graph.weeks.len(), 1);
    assert_eq!(stats.contribution_graph.total_contributions, 12);
    assert_eq!(stats.recent_repos.len(), 2);
    assert_eq!(stats.recent_repos[0].full_name, "octocat/a");
    assert_eq!(stats.recent_repos[1].full_name, "octocat/b");
}

#[test]
fn a_report_without_its_enrichment_is_empty_but_there() {
    let stats = Stats::assemble(answered(200, Some("octocat")), None).unwrap();
    assert_eq!(stats.username, "octocat");
    assert!(stats.contribution_graph.weeks.is_empty());
    assert_eq!(stats.contribution_graph.total_contributions, 0);
    assert!(stats.recent_repos.is_empty());
}

#[test]
fn no_report_without_a_subject() {
    let graph = ContributionGraph { weeks: vec![], total_contributions: 12 };
    assert_eq!(
        Stats::assemble(answered(404, None), Some((graph, vec![]))).err(),
        Some(ReportError::UserNotFound)
    );
    assert_eq!(
        Stats::assemble(UserLookup::Unreachable, None).err(),
        Some(ReportError::TransportFailure)
    );
}

#[test]
fn at_most_five_repositories_are_shown() {
    assert_eq!(RECENT_REPOSITORIES, 5);
    for n in 0..9usize {
        let repos: Vec<RepositoryWithCommits> = (0..n).map(|_| record("r")).collect();
        let stats = Stats::assemble(answered(200, Some("o")), Some((ContributionGraph::empty(), repos)))
            .unwrap();
        assert_eq!(stats.shown_repositories(), n.min(5));
    }
}

#[test]
fn age_in_days() {
    assert_eq!(Age::after(86_400), Age::Days(1));
    assert_eq!(Age::after(86_400 * 2 - 1), Age::Days(1));
    assert_eq!(Age::after(86_400 * 30 + 5), Age::Days(30));
    assert_eq!(Age::after(i64::MAX), Age::Days(i64::MAX / 86_400));
}

#[test]
fn age_in_hours() {
    assert_eq!(Age::after(3_600), Age::Hours(1));
    assert_eq!(Age::after(86_399), Age::Hours(23));
}

#[test]
fn age_in_minutes() {
    assert_eq!(Age::after(60), Age::Minutes(1));
    assert_eq!(Age::after(3_599), Age::Minutes(59));
}

#[test]
fn age_just_now() {
    assert_eq!(Age::after(0), Age::JustNow);
    assert_eq!(Age::after(59), Age::JustNow);
    assert_eq!(Age::after(-1), Age::JustNow);
    assert_eq!(Age::after(-86_400 * 3), Age::JustNow);
    assert_eq!(Age::after(i64::MIN), Age::JustNow);
}

#[test]
fn age_of_a_push() {
    let now = Timestamp { seconds: 1_710_324_000, nanos: 0 }; // 2024-03-13T10:00:00Z
    assert_eq!(Age::of_push("2024-03-13T10:00:00Z", &now), Age::JustNow);
    assert_eq!(Age::of_push("2024-03-13T09:58:30Z", &now), Age::Minutes(1));
    assert_eq!(Age::of_push("2024-03-13T07:00:00Z", &now), Age::Hours(3));
    assert_eq!(Age::of_push("2024-03-13T09:00:00+02:00", &now), Age::Hours(3));
    assert_eq!(Age::of_push("2024-03-10T09:00:00Z", &now), Age::Days(3));
    assert_eq!(Age::of_push("2024-03-14T10:00:00Z", &now), Age::JustNow);
}

#[test]
fn age_counts_whole_seconds_only() {
    let now = Timestamp { seconds: 1_710_324_000, nanos: 0 };
    assert_eq!(Age::of_push("2024-03-13T09:59:00.5Z", &now), Age::JustNow);
    assert_eq!(Age::of_push("2024-03-13T09:59:00.0Z", &now), Age::Minutes(1));
}

#[test]
fn age_of_a_push_without_a_moment_is_unknown() {
    let now = Timestamp { seconds: 1_710_324_000, nanos: 0 };
    assert_eq!(Age::of_push("", &now), Age::Unknown);
    assert_eq!(Age::of_push("last week", &now), Age::Unknown);
}

#[test]
fn age_at_a_moment_that_does_not_exist_is_unknown() {
    let never = Timestamp { seconds: i64::MAX, nanos: 0 };
    assert_eq!(Age::of_push("2024-03-13T10:00:00Z", &never), Age::Unknown);
}
