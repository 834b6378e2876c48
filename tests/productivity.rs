use chrono::{Datelike, NaiveDate};
use habit_progress::{calculate_efficiency, calculate_productivity_score, completion_streak};

fn day(y: i32, m: u32, d: u32) -> i32 {
    NaiveDate::from_ymd_opt(y, m, d).unwrap().num_days_from_ce()
}

#[test]
fn five_consecutive_days_make_a_streak_of_five() {
    let today = day(2026, 2, 14);
    let days = vec![today, today - 1, today - 2, today - 3, today - 4];
    assert_eq!(completion_streak(&days, today), 5);
}

#[test]
fn streak_stops_at_the_first_gap() {
    let today = day(2026, 2, 14);
    let days = vec![today, today - 1, today - 3, today - 4];
    assert_eq!(completion_streak(&days, today), 2);
}

#[test]
fn streak_may_start_yesterday() {
    let today = day(2026, 2, 14);
    let days = vec![today - 1, today - 2, today - 3];
    assert_eq!(completion_streak(&days, today), 3);
}

#[test]
fn streak_is_zero_without_today_or_yesterday() {
    let today = day(2026, 2, 14);
    assert_eq!(completion_streak(&vec![today - 2, today - 3], today), 0);
    assert_eq!(completion_streak(&Vec::new(), today), 0);
}

#[test]
fn score_combines_rate_and_streak() {
    // 0.75 * 70 + 5 * 3 = 67.5, rounded to 68.
    assert_eq!(calculate_productivity_score(3, 4, 5), 68);
    // 1/3 * 70 = 23.33, rounded to 23.
    assert_eq!(calculate_productivity_score(1, 3, 0), 23);
    // The streak counts up to ten days.
    assert_eq!(calculate_productivity_score(0, 0, 12), 30);
    // Capped at 100.
    assert_eq!(calculate_productivity_score(10, 10, 10), 100);
    assert_eq!(calculate_productivity_score(9, 10, 20), 93);
    assert_eq!(calculate_productivity_score(0, 5, 0), 0);
}

#[test]
fn efficiency_gives_streak_and_score() {
    let today = day(2026, 2, 14);
    let days = vec![today, today - 1];
    assert_eq!(calculate_efficiency(&days, today, 1, 2), (2, 41));
}
