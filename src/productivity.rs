//! The productivity summary of the dashboard: the current run of days with a
//! completed todo, and a 0 to 100 score from the completion rate and that run.

use vstd::prelude::*;
use crate::calendar::valid_day;
use crate::streak::all_valid;

verus! {

/// Strictly descending: each day is earlier than the one before it.
pub open spec fn strictly_descending(days: Seq<i32>) -> bool {
    forall|i: int, j: int| 0 <= i < j < days.len() ==> days[i] > days[j]
}

/// The day the completion run is counted back from: today when it has a
/// completion, else yesterday when it has one.
pub open spec fn run_start(days: Seq<i32>, today: int) -> Option<int> {
    if days.contains(today as i32) {
        Some(today)
    } else if days.contains((today - 1) as i32) {
        Some(today - 1)
    } else {
        None
    }
}

/// `days` holds each of the `len` days counted back from `start`.
pub open spec fn covers_run(days: Seq<i32>, start: int, len: int) -> bool {
    forall|j: int| 0 <= j < len ==> #[trigger] days.contains((start - j) as i32)
}

/// `len` is the completion streak of `days` on day `today`: `0` when neither
/// today nor yesterday has a completion, else the number of consecutive days
/// with a completion counted back from the later of them, up to the first gap.
pub open spec fn is_completion_streak(days: Seq<i32>, today: int, len: int) -> bool {
    match run_start(days, today) {
        None => len == 0,
        Some(start) => len >= 1 && covers_run(days, start, len) && !days.contains((start - len) as i32),
    }
}

/// The nearest integer to `n / d` (for `d > 0`), halves rounded up.
pub open spec fn rounded_quotient(n: int, d: int) -> int {
    (2 * n + d) / (2 * d)
}

/// The productivity score: `round(min(100, rate * 100 * 0.7 + min(streak, 10) * 3))`
/// where `rate = completed / total`, taken as `0` when `total` is `0`.
pub open spec fn productivity_score(completed: int, total: int, streak: int) -> int {
    let capped = if streak < 10 {
        streak
    } else {
        10
    };
    let value = if total == 0 {
        3 * capped
    } else {
        rounded_quotient(70 * completed + 3 * capped * total, total)
    };
    if value < 100 {
        value
    } else {
        100
    }
}

fn holds_day(days: &Vec<i32>, day: i32) -> (r: bool)
    ensures
        r == days@.contains(day),
{
    let mut i: usize = 0;
    while i < days.len()
        invariant
            i <= days@.len(),
            forall|j: int| 0 <= j < i ==> days@[j] != day,
        decreases days@.len() - i,
    {
        if days[i] == day {
            assert(days@[i as int] == day);
            return true;
        }
        i = i + 1;
    }
    false
}

/// The completion streak on day `today`, given the distinct days with a
/// completed todo, newest first (see [`is_completion_streak`]).
pub fn completion_streak(days: &Vec<i32>, today: i32) -> (r: i32)
    requires
        strictly_descending(days@),
        all_valid(days@),
        valid_day(today as int),
        days@.len() < i32::MAX,
    ensures
        is_completion_streak(days@, today as int, r as int),
        0 <= r <= days@.len(),
{
    let start: i32;
    if holds_day(days, today) {
        start = today;
    } else if holds_day(days, today - 1) {
        start = today - 1;
    } else {
        return 0;
    }
    let ghost d = days@;
    let mut run: i32 = 0;
    let mut i: usize = 0;
    while i < days.len()
        invariant
            d == days@,
            strictly_descending(d),
            all_valid(d),
            valid_day(start as int),
            run_start(d, today as int) == Some(start as int),
            start - run >= 0,
            d.len() < i32::MAX,
            d.contains(start),
            i <= d.len(),
            0 <= run <= i,
            covers_run(d, start as int, run as int),
            forall|m: int| 0 <= m < i ==> d[m] > start - run,
        decreases d.len() - i,
    {
        let x = days[i];
        if x == start - run {
            proof {
                assert(d[i as int] == x);
                assert forall|j: int| 0 <= j < run + 1 implies #[trigger] d.contains((start - j) as i32) by {
                    if j == run {
                        assert(d[i as int] == (start - j) as i32);
                    }
                }
            }
            run = run + 1;
        } else if x < start - run {
            proof {
                assert forall|m: int| 0 <= m < d.len() implies d[m] != start - run by {
                    if m > i {
                        assert(d[i as int] > d[m]);
                    }
                }
            }
            assert(run >= 1) by {
                if run == 0 {
                    let k = choose|k: int| 0 <= k < d.len() && d[k] == start;
                    assert(d[k] != start - run);
                }
            }
            assert(!d.contains((start - run) as i32));
            return run;
        }
        i = i + 1;
    }
    assert(!d.contains((start - run) as i32));
    assert(run >= 1) by {
        if run == 0 {
            let k = choose|k: int| 0 <= k < d.len() && d[k] == start;
            assert(d[k] > start);
        }
    }
    run
}

/// The productivity score from `completed` of `total` todos in the window and
/// the completion streak `streak`; see [`productivity_score`].
pub fn calculate_productivity_score(completed: u32, total: u32, streak: u32) -> (r: i32)
    ensures
        r == productivity_score(completed as int, total as int, streak as int),
        0 <= r <= 100,
{
    let capped: u64 = if streak < 10 {
        streak as u64
    } else {
        10
    };
    let value: u64;
    if total == 0 {
        value = 3 * capped;
    } else {
        let c = completed as u64;
        let t = total as u64;
        assert(3 * capped * t <= 30 * t) by (nonlinear_arith)
            requires
                capped <= 10,
        ;
        let n = 70 * c + 3 * capped * t;
        value = (2 * n + t) / (2 * t);
    }
    if value < 100 {
        value as i32
    } else {
        100
    }
}

/// The streak and the productivity score of the dashboard: the completion
/// streak of `days` on `today`, and the score of `completed` of `total` todos
/// with that streak.
pub fn calculate_efficiency(days: &Vec<i32>, today: i32, completed: u32, total: u32) -> (r: (i32, i32))
    requires
        strictly_descending(days@),
        all_valid(days@),
        valid_day(today as int),
        days@.len() < i32::MAX,
    ensures
        is_completion_streak(days@, today as int, r.0 as int),
        r.1 == productivity_score(completed as int, total as int, r.0 as int),
        0 <= r.1 <= 100,
{
    let streak = completion_streak(days, today);
    let score = calculate_productivity_score(completed, total, streak as u32);
    (streak, score)
}

} // verus!
