//! Period keys and consecutive-period streaks of a habit's check-ins.
//!
//! Check-in days are handed over newest first. The streak rules are
//! heuristics kept as they are: a week counts as the one before when it lies
//! 1 to 13 days before today, a month when its first day lies 1 to 44 days
//! before the current month's first day.

use vstd::prelude::*;
use crate::calendar::{
    date_text, format_day, month_start, month_start_of, valid_day, DAY_PATTERN, MONTH_PATTERN,
    WEEK_PATTERN,
};

verus! {

/// How often a periodic habit is due.
#[derive(Debug, Clone, Copy, PartialEq, Eq, Structural)]
pub enum Frequency {
    Daily,
    Weekly,
    Monthly,
}

/// The date pattern of a frequency's period key.
pub open spec fn period_pattern(f: Frequency) -> Seq<char> {
    match f {
        Frequency::Daily => DAY_PATTERN@,
        Frequency::Weekly => WEEK_PATTERN@,
        Frequency::Monthly => MONTH_PATTERN@,
    }
}

/// The period key of day `day`: the day itself, its week, or its month.
pub open spec fn period_key(f: Frequency, day: int) -> Seq<char> {
    date_text(day, period_pattern(f))
}

/// Consecutive days before `cursor` among `days` (newest first): a day just
/// before the cursor extends the run and becomes the cursor, an older one
/// ends it, a later one is passed over.
pub open spec fn daily_run(days: Seq<int>, cursor: int) -> int
    decreases days.len(),
{
    if days.len() == 0 {
        0
    } else if days[0] == cursor - 1 {
        1 + daily_run(days.drop_first(), cursor - 1)
    } else if days[0] < cursor - 1 {
        0
    } else {
        daily_run(days.drop_first(), cursor)
    }
}

/// Preceding weeks among `days` (newest first) with week keys `weeks`: a day
/// in week `current` is passed over; another day 1 to 13 days before `today`
/// extends the run and its week becomes `current`.
pub open spec fn weekly_run(days: Seq<int>, weeks: Seq<Seq<char>>, today: int, current: Seq<char>) -> int
    decreases days.len(),
{
    if days.len() == 0 || weeks.len() == 0 {
        0
    } else if weeks[0] == current {
        weekly_run(days.drop_first(), weeks.drop_first(), today, current)
    } else if 0 < today - days[0] < 14 {
        1 + weekly_run(days.drop_first(), weeks.drop_first(), today, weeks[0])
    } else {
        weekly_run(days.drop_first(), weeks.drop_first(), today, current)
    }
}

/// Preceding months among month starts `starts` (newest first): a start equal
/// to `current` is passed over; one 1 to 44 days before `current` extends the
/// run and becomes `current`.
pub open spec fn monthly_run(starts: Seq<int>, current: int) -> int
    decreases starts.len(),
{
    if starts.len() == 0 {
        0
    } else if starts[0] == current {
        monthly_run(starts.drop_first(), current)
    } else if 0 < current - starts[0] < 45 {
        1 + monthly_run(starts.drop_first(), starts[0])
    } else {
        monthly_run(starts.drop_first(), current)
    }
}

/// Day numbers as integers.
pub open spec fn ints(s: Seq<i32>) -> Seq<int> {
    s.map_values(|d: i32| d as int)
}

/// The week keys of some days.
pub open spec fn week_keys(days: Seq<i32>) -> Seq<Seq<char>> {
    days.map_values(|d: i32| date_text(d as int, WEEK_PATTERN@))
}

/// The month starts of some days.
pub open spec fn month_starts(days: Seq<i32>) -> Seq<int> {
    days.map_values(|d: i32| month_start_of(d as int))
}

/// The streak that a check-in on day `today` reaches, given the earlier
/// check-in days `days` (newest first): the check-in itself plus the run of
/// preceding periods.
pub open spec fn check_in_streak(f: Frequency, days: Seq<i32>, today: int) -> int {
    1 + match f {
        Frequency::Daily => daily_run(ints(days), today),
        Frequency::Weekly => weekly_run(
            ints(days),
            week_keys(days),
            today,
            date_text(today, WEEK_PATTERN@),
        ),
        Frequency::Monthly => monthly_run(month_starts(days), month_start_of(today)),
    }
}

/// The streak as of the check-in about to be removed, given all check-in
/// days `days` (newest first, the one to remove included): the same runs as
/// [`check_in_streak`], counted from 0, so only the periods before the one
/// of `today` count.
pub open spec fn undo_streak(f: Frequency, days: Seq<i32>, today: int) -> int {
    match f {
        Frequency::Daily => daily_run(ints(days), today),
        Frequency::Weekly => weekly_run(
            ints(days),
            week_keys(days),
            today,
            date_text(today, WEEK_PATTERN@),
        ),
        Frequency::Monthly => monthly_run(month_starts(days), month_start_of(today)),
    }
}

/// Every day is within the calendar's range.
pub open spec fn all_valid(days: Seq<i32>) -> bool {
    forall|i: int| 0 <= i < days.len() ==> valid_day(#[trigger] days[i] as int)
}

/// The period key of day `day` for frequency `frequency`.
pub fn calculate_period(frequency: Frequency, day: i32) -> (r: String)
    requires
        valid_day(day as int),
    ensures
        r@ == period_key(frequency, day as int),
{
    match frequency {
        Frequency::Daily => format_day(day, DAY_PATTERN),
        Frequency::Weekly => format_day(day, WEEK_PATTERN),
        Frequency::Monthly => format_day(day, MONTH_PATTERN),
    }
}

/// The run of consecutive days before `today` among `days` (newest first);
/// see [`daily_run`].
pub fn consecutive_days(days: &Vec<i32>, today: i32) -> (r: i32)
    requires
        all_valid(days@),
        valid_day(today as int),
        days@.len() < i32::MAX,
    ensures
        r == daily_run(ints(days@), today as int),
        0 <= r <= days@.len(),
{
    let ghost s = ints(days@);
    let mut run: i32 = 0;
    let mut cursor: i32 = today;
    let mut i: usize = 0;
    assert(s.subrange(0, s.len() as int) =~= s);
    while i < days.len()
        invariant
            s == ints(days@),
            all_valid(days@),
            valid_day(today as int),
            days@.len() < i32::MAX,
            i <= days@.len(),
            0 <= run <= i,
            valid_day(cursor as int),
            daily_run(s, today as int) == run + daily_run(s.subrange(i as int, s.len() as int), cursor as int),
        decreases days@.len() - i,
    {
        let d = days[i];
        let ghost rest = s.subrange(i as int, s.len() as int);
        assert(rest[0] == d as int);
        assert(rest.drop_first() =~= s.subrange(i + 1, s.len() as int));
        if d == cursor - 1 {
            run = run + 1;
            cursor = d;
        } else if d < cursor - 1 {
            return run;
        }
        i = i + 1;
    }
    assert(s.subrange(i as int, s.len() as int).len() == 0);
    run
}

/// The run of preceding weeks among `days` (newest first), whose week keys
/// are `weeks`, counted from `today` in week `today_week`; see [`weekly_run`].
pub fn consecutive_weeks(days: &Vec<i32>, weeks: &Vec<String>, today: i32, today_week: &String) -> (r: i32)
    requires
        all_valid(days@),
        valid_day(today as int),
        days@.len() == weeks@.len(),
        days@.len() < i32::MAX,
    ensures
        r == weekly_run(ints(days@), weeks@.map_values(|w: String| w@), today as int, today_week@),
        0 <= r <= days@.len(),
{
    let ghost s = ints(days@);
    let ghost k = weeks@.map_values(|w: String| w@);
    let mut run: i32 = 0;
    let mut current: &String = today_week;
    let mut i: usize = 0;
    assert(s.subrange(0, s.len() as int) =~= s);
    assert(k.subrange(0, k.len() as int) =~= k);
    while i < days.len()
        invariant
            s == ints(days@),
            k == weeks@.map_values(|w: String| w@),
            all_valid(days@),
            valid_day(today as int),
            days@.len() == weeks@.len(),
            days@.len() < i32::MAX,
            i <= days@.len(),
            0 <= run <= i,
            weekly_run(s, k, today as int, today_week@) == run + weekly_run(
                s.subrange(i as int, s.len() as int),
                k.subrange(i as int, k.len() as int),
                today as int,
                current@,
            ),
        decreases days@.len() - i,
    {
        let d = days[i];
        let w = &weeks[i];
        let ghost rest = s.subrange(i as int, s.len() as int);
        let ghost krest = k.subrange(i as int, k.len() as int);
        assert(rest[0] == d as int);
        assert(krest[0] == w@);
        assert(rest.drop_first() =~= s.subrange(i + 1, s.len() as int));
        assert(krest.drop_first() =~= k.subrange(i + 1, k.len() as int));
        if *w == *current {
        } else if 0 < today - d && today - d < 14 {
            run = run + 1;
            current = w;
        }
        i = i + 1;
    }
    run
}

/// The run of preceding months among month starts `starts` (newest first),
/// counted from the month starting on day `current`; see [`monthly_run`].
pub fn consecutive_months(starts: &Vec<i32>, current: i32) -> (r: i32)
    requires
        all_valid(starts@),
        valid_day(current as int),
        starts@.len() < i32::MAX,
    ensures
        r == monthly_run(ints(starts@), current as int),
        0 <= r <= starts@.len(),
{
    let ghost s = ints(starts@);
    let mut run: i32 = 0;
    let mut cur: i32 = current;
    let mut i: usize = 0;
    assert(s.subrange(0, s.len() as int) =~= s);
    while i < starts.len()
        invariant
            s == ints(starts@),
            all_valid(starts@),
            valid_day(current as int),
            valid_day(cur as int),
            starts@.len() < i32::MAX,
            i <= starts@.len(),
            0 <= run <= i,
            monthly_run(s, current as int) == run + monthly_run(s.subrange(i as int, s.len() as int), cur as int),
        decreases starts@.len() - i,
    {
        let m = starts[i];
        let ghost rest = s.subrange(i as int, s.len() as int);
        assert(rest[0] == m as int);
        assert(rest.drop_first() =~= s.subrange(i + 1, s.len() as int));
        if m == cur {
        } else if 0 < cur - m && cur - m < 45 {
            run = run + 1;
            cur = m;
        }
        i = i + 1;
    }
    run
}


fn week_keys_of(days: &Vec<i32>) -> (r: Vec<String>)
    requires
        all_valid(days@),
    ensures
        r@.len() == days@.len(),
        r@.map_values(|w: String| w@) == week_keys(days@),
{
    let mut r: Vec<String> = Vec::new();
    let mut i: usize = 0;
    while i < days.len()
        invariant
            all_valid(days@),
            i <= days@.len(),
            r@.len() == i,
            forall|j: int| 0 <= j < i ==> #[trigger] r@[j]@ == date_text(days@[j] as int, WEEK_PATTERN@),
        decreases days@.len() - i,
    {
        r.push(format_day(days[i], WEEK_PATTERN));
        i = i + 1;
    }
    assert(r@.map_values(|w: String| w@) =~= week_keys(days@));
    r
}

fn month_starts_of(days: &Vec<i32>) -> (r: Vec<i32>)
    requires
        all_valid(days@),
    ensures
        all_valid(r@),
        r@.len() == days@.len(),
        ints(r@) == month_starts(days@),
{
    let mut r: Vec<i32> = Vec::new();
    let mut i: usize = 0;
    while i < days.len()
        invariant
            all_valid(days@),
            all_valid(r@),
            i <= days@.len(),
            r@.len() == i,
            forall|j: int| 0 <= j < i ==> #[trigger] r@[j] as int == month_start_of(days@[j] as int),
        decreases days@.len() - i,
    {
        r.push(month_start(days[i]));
        i = i + 1;
    }
    assert(ints(r@) =~= month_starts(days@));
    r
}

/// The streak that a check-in on day `today` reaches, given the earlier
/// check-in days `days` (newest first); `1` when there are none.
pub fn calculate_streak(frequency: Frequency, days: &Vec<i32>, today: i32) -> (r: i32)
    requires
        all_valid(days@),
        valid_day(today as int),
        days@.len() < i32::MAX - 1,
    ensures
        r == check_in_streak(frequency, days@, today as int),
        1 <= r <= days@.len() + 1,
{
    match frequency {
        Frequency::Daily => 1 + consecutive_days(days, today),
        Frequency::Weekly => {
            let weeks = week_keys_of(days);
            let today_week = format_day(today, WEEK_PATTERN);
            1 + consecutive_weeks(days, &weeks, today, &today_week)
        },
        Frequency::Monthly => {
            let starts = month_starts_of(days);
            let current = month_start(today);
            1 + consecutive_months(&starts, current)
        },
    }
}

/// The streak as of the check-in about to be removed, given all check-in
/// days `days` (newest first, that one included); see [`undo_streak`].
pub fn calculate_streak_undo(frequency: Frequency, days: &Vec<i32>, today: i32) -> (r: i32)
    requires
        all_valid(days@),
        valid_day(today as int),
        days@.len() < i32::MAX,
    ensures
        r == undo_streak(frequency, days@, today as int),
        0 <= r <= days@.len(),
{
    match frequency {
        Frequency::Daily => consecutive_days(days, today),
        Frequency::Weekly => {
            let weeks = week_keys_of(days);
            let today_week = format_day(today, WEEK_PATTERN);
            consecutive_weeks(days, &weeks, today, &today_week)
        },
        Frequency::Monthly => {
            let starts = month_starts_of(days);
            let current = month_start(today);
            consecutive_months(&starts, current)
        },
    }
}

} // verus!
