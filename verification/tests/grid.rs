use github_stats::calendar::CalendarDate;
use github_stats::grid::{
    build_day, build_grid, build_week, level_from_label, ContributionGraph, Day, GridError,
    RawCalendar, RawDay, RawWeek, Week,
};

fn raw(date: &str, count: u32, level: &str) -> RawDay {
    RawDay { date: date.to_string(), count, level: level.to_string() }
}

fn date(text: &str) -> CalendarDate {
    CalendarDate::parse(text).expect("a calendar date")
}

#[test]
fn level_table() {
    assert_eq!(level_from_label("NONE"), 0);
    assert_eq!(level_from_label("FIRST_QUARTILE"), 1);
    assert_eq!(level_from_label("SECOND_QUARTILE"), 2);
    assert_eq!(level_from_label("THIRD_QUARTILE"), 3);
    assert_eq!(level_from_label("FOURTH_QUARTILE"), 4);
}

#[test]
fn unknown_levels_are_zero() {
    assert_eq!(level_from_label(""), 0);
    assert_eq!(level_from_label("FIFTH_QUARTILE"), 0);
    assert_eq!(level_from_label("first_quartile"), 0);
    assert_eq!(level_from_label("FIRST_QUARTILE "), 0);
    assert_eq!(level_from_label(" FOURTH_QUARTILE"), 0);
    assert_eq!(level_from_label("4"), 0);
}

#[test]
fn level_does_not_depend_on_the_count() {
    for count in [0u32, 1, 7, 1000, u32::MAX] {
        for (label, level) in [
            ("NONE", 0u8),
            ("FIRST_QUARTILE", 1),
            ("SECOND_QUARTILE", 2),
            ("THIRD_QUARTILE", 3),
            ("FOURTH_QUARTILE", 4),
            ("SOMETHING_ELSE", 0),
        ] {
            let day = build_day(&raw("2024-03-13", count, label)).unwrap();
            assert_eq!(day.level, level);
            assert_eq!(day.count, count);
            assert!(day.level <= 4);
        }
    }
}

#[test]
fn build_day_keeps_the_count_and_parses_the_date() {
    let day = build_day(&raw("2024-03-13", 7, "SECOND_QUARTILE")).unwrap();
    assert_eq!(day, Day { date: date("2024-03-13"), count: 7, level: 2 });
    assert_eq!(day.date.day_number, 738_958);
}

#[test]
fn build_day_fails_on_a_malformed_date() {
    assert_eq!(build_day(&raw("", 7, "NONE")), Err(GridError::MalformedDate));
    assert_eq!(build_day(&raw("13/03/2024", 7, "NONE")), Err(GridError::MalformedDate));
    assert_eq!(build_day(&raw("2024-02-30", 7, "NONE")), Err(GridError::MalformedDate));
}

#[test]
fn build_week_skips_malformed_dates_and_keeps_the_order() {
    let week = build_week(&RawWeek {
        days: vec![
            raw("2024-03-10", 1, "FIRST_QUARTILE"),
            raw("garbage", 100, "FOURTH_QUARTILE"),
            raw("2024-03-12", 3, "THIRD_QUARTILE"),
            raw("2024-03-11", 2, "NONE"),
        ],
    });
    assert_eq!(
        week.days,
        vec![
            Day { date: date("2024-03-10"), count: 1, level: 1 },
            Day { date: date("2024-03-12"), count: 3, level: 3 },
            Day { date: date("2024-03-11"), count: 2, level: 0 },
        ]
    );
}

#[test]
fn build_week_keeps_days_with_the_same_date() {
    let week = build_week(&RawWeek {
        days: vec![raw("2024-03-10", 1, "NONE"), raw("2024-03-10", 5, "NONE")],
    });
    assert_eq!(week.days.len(), 2);
    assert_eq!(week.days[0].count, 1);
    assert_eq!(week.days[1].count, 5);
}

#[test]
fn build_week_of_nothing_is_empty() {
    assert!(build_week(&RawWeek { days: vec![] }).days.is_empty());
    assert!(build_week(&RawWeek { days: vec![raw("x", 1, "NONE")] }).days.is_empty());
}

#[test]
fn build_grid_keeps_the_weeks_and_the_total() {
    let graph = build_grid(&RawCalendar {
        total_contributions: 999,
        weeks: vec![
            RawWeek { days: vec![raw("2024-03-03", 1, "FIRST_QUARTILE")] },
            RawWeek { days: vec![] },
            RawWeek {
                days: vec![
                    raw("2024-03-10", 2, "SECOND_QUARTILE"),
                    raw("bad", 9, "NONE"),
                    raw("2024-03-11", 4, "FOURTH_QUARTILE"),
                ],
            },
        ],
    });
    assert_eq!(graph.total_contributions, 999);
    assert_eq!(graph.weeks.len(), 3);
    assert_eq!(graph.weeks[0].days, vec![Day { date: date("2024-03-03"), count: 1, level: 1 }]);
    assert!(graph.weeks[1].days.is_empty());
    assert_eq!(
        graph.weeks[2].days,
        vec![
            Day { date: date("2024-03-10"), count: 2, level: 2 },
            Day { date: date("2024-03-11"), count: 4, level: 4 },
        ]
    );
}

#[test]
fn build_grid_does_not_reconcile_the_total() {
    let graph = build_grid(&RawCalendar {
        total_contributions: 0,
        weeks: vec![RawWeek { days: vec![raw("2024-03-03", 41, "FIRST_QUARTILE")] }],
    });
    assert_eq!(graph.total_contributions, 0);
    assert_eq!(graph.weeks[0].days[0].count, 41);
}

#[test]
fn build_grid_of_nothing_has_no_weeks() {
    let graph = build_grid(&RawCalendar { total_contributions: 5, weeks: vec![] });
    assert!(graph.weeks.is_empty());
    assert_eq!(graph.total_contributions, 5);
}

#[test]
fn empty_graph_has_nothing() {
    let graph = ContributionGraph::empty();
    assert!(graph.weeks.is_empty());
    assert_eq!(graph.total_contributions, 0);
}

#[test]
fn row_levels_take_each_week_by_position() {
    let d = |text: &str, level: u8| Day { date: date(text), count: 1, level };
    let graph = ContributionGraph {
        total_contributions: 0,
        weeks: vec![
            Week { days: vec![d("2024-03-08", 3), d("2024-03-09", 4)] },
            Week { days: vec![d("2024-03-10", 1), d("2024-03-11", 2), d("2024-03-12", 0)] },
            Week { days: vec![] },
        ],
    };
    assert_eq!(graph.row_levels(0), vec![Some(3), Some(1), None]);
    assert_eq!(graph.row_levels(1), vec![Some(4), Some(2), None]);
    assert_eq!(graph.row_levels(2), vec![None, Some(0), None]);
    assert_eq!(graph.row_levels(6), vec![None, None, None]);
    assert_eq!(graph.row_levels(usize::MAX), vec![None, None, None]);
}

#[test]
fn row_levels_of_an_empty_graph_are_empty() {
    assert!(ContributionGraph::empty().row_levels(0).is_empty());
}
