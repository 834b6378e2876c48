//! Recurring habits ("circulations") and their check-in / undo state machine.
//!
//! A circulation's check-in state is its counters together with its log of
//! check-ins. A check-in appends one log entry and moves one counter; an undo
//! removes the newest entry and moves the counter back.

use vstd::prelude::*;
use crate::calendar::valid_day;
use crate::error::{EngineError, InvalidState};
use crate::streak::{
    all_valid, calculate_period, calculate_streak, calculate_streak_undo, check_in_streak,
    period_key, undo_streak, Frequency,
};

verus! {

/// The two kinds of habit.
#[derive(Debug, Clone, Copy, PartialEq, Eq, Structural)]
pub enum CirculationKind {
    /// Due once per day, week or month; keeps a streak.
    Periodic,
    /// Counted up on each check-in, with no limit per period.
    Count,
}

/// A moment as stored, with the calendar day that its text names.
#[derive(Debug, Clone)]
pub struct Timestamp {
    /// The RFC 3339 text of the moment.
    pub text: String,
    /// The day number of the calendar date in `text`
    /// (see [`crate::calendar`]).
    pub day: i32,
}

impl Timestamp {
    /// A field-by-field copy of the timestamp.
    pub fn duplicate(&self) -> (r: Timestamp)
        ensures
            r == *self,
    {
        Timestamp { text: self.text.clone(), day: self.day }
    }
}

/// A recurring habit.
#[derive(Debug, Clone)]
pub struct Circulation {
    pub id: String,
    pub title: String,
    pub content: Option<String>,
    pub circulation_type: CirculationKind,
    /// How often a periodic habit is due; daily when unset.
    pub frequency: Option<Frequency>,
    /// Free-form scheduling details, kept as given.
    pub frequency_config: Option<String>,
    /// The count aimed at (count kind).
    pub target_count: Option<i32>,
    /// Check-ins so far (count kind).
    pub current_count: i32,
    /// The current run of consecutive periods (periodic kind).
    pub streak_count: i32,
    /// The longest run reached by a check-in (periodic kind).
    pub best_streak: i32,
    /// The moment of the newest check-in.
    pub last_completed_at: Option<Timestamp>,
    /// `active` or `archived`.
    pub status: String,
    pub created_at: String,
    pub updated_at: String,
}

/// One check-in of a circulation.
#[derive(Debug, Clone)]
pub struct CirculationLog {
    pub id: String,
    pub circulation_id: String,
    pub completed_at: Timestamp,
    pub note: Option<String>,
    /// The period key of the check-in day (periodic kind).
    pub period: Option<String>,
}

/// The frequency a circulation's streak is counted in.
pub open spec fn frequency_of(c: Circulation) -> Frequency {
    match c.frequency {
        Some(f) => f,
        None => Frequency::Daily,
    }
}

/// A periodic circulation whose newest check-in fell on day `today`.
pub open spec fn checked_in_on(c: Circulation, today: int) -> bool {
    c.circulation_type == CirculationKind::Periodic && match c.last_completed_at {
        Some(t) => t.day == today,
        None => false,
    }
}

/// The check-in days of a log (oldest first), newest first.
pub open spec fn log_days(history: Seq<CirculationLog>) -> Seq<i32> {
    Seq::new(history.len(), |i: int| history[history.len() - 1 - i].completed_at.day)
}

/// The log's check-in days all lie within the calendar's range.
pub open spec fn valid_log(history: Seq<CirculationLog>) -> bool {
    forall|i: int| 0 <= i < history.len() ==> valid_day(#[trigger] history[i].completed_at.day as int)
}

/// Circulation `c` after a check-in at `now` on day `today`, given its log.
pub open spec fn after_check_in(c: Circulation, history: Seq<CirculationLog>, now: Timestamp, today: int) -> Circulation {
    match c.circulation_type {
        CirculationKind::Count => Circulation {
            current_count: (c.current_count + 1) as i32,
            last_completed_at: Some(now),
            updated_at: now.text,
            ..c
        },
        CirculationKind::Periodic => {
            let s = check_in_streak(frequency_of(c), log_days(history), today);
            Circulation {
                streak_count: s as i32,
                best_streak: if s > c.best_streak {
                    s as i32
                } else {
                    c.best_streak
                },
                last_completed_at: Some(now),
                updated_at: now.text,
                ..c
            }
        },
    }
}

/// The moment of the check-in before the newest one, if any.
pub open spec fn previous_completion(history: Seq<CirculationLog>) -> Option<Timestamp> {
    if history.len() >= 2 {
        Some(history[history.len() - 2].completed_at)
    } else {
        None
    }
}

/// Circulation `c` after its newest check-in is undone on day `today`.
pub open spec fn after_undo(c: Circulation, history: Seq<CirculationLog>, today: int, now: String) -> Circulation {
    match c.circulation_type {
        CirculationKind::Count => Circulation {
            current_count: if c.current_count - 1 > 0 {
                (c.current_count - 1) as i32
            } else {
                0
            },
            last_completed_at: previous_completion(history),
            updated_at: now,
            ..c
        },
        CirculationKind::Periodic => Circulation {
            streak_count: undo_streak(frequency_of(c), log_days(history), today) as i32,
            last_completed_at: previous_completion(history),
            updated_at: now,
            ..c
        },
    }
}

/// A check-in on a fresh count circulation (nothing counted, never
/// completed, no log), followed by an undo, gives back its count and its last
/// completion, and leaves its log empty again.
pub proof fn count_check_in_then_undo_restores(
    c: Circulation,
    entry: CirculationLog,
    now: Timestamp,
    today: int,
    later_today: int,
    undo_time: String,
)
    requires
        c.circulation_type == CirculationKind::Count,
        c.current_count == 0,
        c.last_completed_at is None,
    ensures
        ({
            let checked = after_check_in(c, Seq::empty(), now, today);
            let logged = Seq::<CirculationLog>::empty().push(entry);
            let undone = after_undo(checked, logged, later_today, undo_time);
            &&& undone.current_count == c.current_count
            &&& undone.last_completed_at == c.last_completed_at
            &&& logged.drop_last().len() == 0
        }),
{
    let logged = Seq::<CirculationLog>::empty().push(entry);
    assert(logged.drop_last() =~= Seq::<CirculationLog>::empty());
}

/// After a check-in at a moment on day `today`, a periodic circulation counts
/// as checked in on `today`, so a second check-in that day is refused (and,
/// by [`checkin_circulation`], changes nothing).
pub proof fn second_periodic_check_in_same_day_refused(
    c: Circulation,
    history: Seq<CirculationLog>,
    now: Timestamp,
    today: int,
)
    requires
        c.circulation_type == CirculationKind::Periodic,
        now.day == today,
    ensures
        checked_in_on(after_check_in(c, history, now, today), today),
{
}

fn days_newest_first(history: &Vec<CirculationLog>) -> (r: Vec<i32>)
    requires
        valid_log(history@),
    ensures
        r@ == log_days(history@),
        all_valid(r@),
{
    let mut r: Vec<i32> = Vec::new();
    let n = history.len();
    let mut k: usize = 0;
    while k < n
        invariant
            n == history@.len(),
            valid_log(history@),
            k <= n,
            r@.len() == k,
            forall|j: int| 0 <= j < k ==> #[trigger] r@[j] == history@[n - 1 - j].completed_at.day,
        decreases n - k,
    {
        r.push(history[n - 1 - k].completed_at.day);
        k = k + 1;
    }
    assert(r@ =~= log_days(history@));
    r
}

/// Checks circulation `circ` in at moment `now`, on calendar day `today`,
/// appending the check-in (id `log_id`, with `note`) to its log `history`
/// (oldest first).
///
/// A periodic circulation whose newest check-in fell on `today` is refused
/// with `InvalidState` and left as it was. Otherwise a count circulation
/// counts one up; a periodic one takes the streak of this check-in (see
/// [`check_in_streak`]), raising its best streak to it, and its log entry
/// carries the period key of `today`.
pub fn checkin_circulation(
    circ: &mut Circulation,
    history: &mut Vec<CirculationLog>,
    log_id: String,
    now: Timestamp,
    today: i32,
    note: Option<String>,
) -> (r: Result<(), EngineError>)
    requires
        valid_day(today as int),
        valid_log(old(history)@),
        old(history)@.len() < i32::MAX - 1,
        old(circ).circulation_type == CirculationKind::Count ==> old(circ).current_count < i32::MAX,
    ensures
        r is Err <==> checked_in_on(*old(circ), today as int),
        r is Err ==> r == Err::<(), EngineError>(EngineError::InvalidState(InvalidState::AlreadyCheckedInToday))
            && *final(circ) == *old(circ) && final(history)@ == old(history)@,
        r is Ok ==> {
            &&& *final(circ) == after_check_in(*old(circ), old(history)@, now, today as int)
            &&& final(history)@.len() == old(history)@.len() + 1
            &&& final(history)@.drop_last() == old(history)@
            &&& final(history)@.last().id == log_id
            &&& final(history)@.last().circulation_id == old(circ).id
            &&& final(history)@.last().completed_at == now
            &&& final(history)@.last().note == note
            &&& old(circ).circulation_type == CirculationKind::Count ==> (final(history)@.last().period is None)
            &&& old(circ).circulation_type == CirculationKind::Periodic ==> (final(history)@.last().period matches Some(p)
                && p@ == period_key(frequency_of(*old(circ)), today as int))
        },
{
    let frequency = match circ.frequency {
        Some(f) => f,
        None => Frequency::Daily,
    };
    let periodic = match circ.circulation_type {
        CirculationKind::Periodic => true,
        CirculationKind::Count => false,
    };
    if periodic {
        if let Some(t) = &circ.last_completed_at {
            if t.day == today {
                return Err(EngineError::InvalidState(InvalidState::AlreadyCheckedInToday));
            }
        }
    }
    let period = if periodic {
        Some(calculate_period(frequency, today))
    } else {
        None
    };
    if periodic {
        let days = days_newest_first(history);
        let s = calculate_streak(frequency, &days, today);
        circ.streak_count = s;
        if s > circ.best_streak {
            circ.best_streak = s;
        }
    } else {
        circ.current_count = circ.current_count + 1;
    }
    circ.last_completed_at = Some(now.duplicate());
    circ.updated_at = now.text.clone();
    let entry = CirculationLog {
        id: log_id,
        circulation_id: circ.id.clone(),
        completed_at: now,
        note,
        period,
    };
    history.push(entry);
    assert(history@.drop_last() =~= old(history)@);
    Ok(())
}

/// Undoes the newest check-in of circulation `circ` on calendar day `today`
/// at moment text `now`, removing it from the log `history` (oldest first)
/// and returning it.
///
/// Refused with `InvalidState` when the log is empty. Otherwise a count
/// circulation counts one down, not below zero; a periodic one takes the
/// streak of the periods before `today`'s, counted from 0 (see
/// [`undo_streak`]), and keeps its best streak; the newest remaining
/// check-in becomes the last completion.
pub fn undo_checkin_circulation(
    circ: &mut Circulation,
    history: &mut Vec<CirculationLog>,
    today: i32,
    now: String,
) -> (r: Result<CirculationLog, EngineError>)
    requires
        valid_day(today as int),
        valid_log(old(history)@),
        old(history)@.len() < i32::MAX,
    ensures
        r is Err <==> old(history)@.len() == 0,
        r is Err ==> r == Err::<CirculationLog, EngineError>(EngineError::InvalidState(InvalidState::NoCheckInHistory))
            && *final(circ) == *old(circ) && final(history)@ == old(history)@,
        r matches Ok(removed) ==> {
            &&& *final(circ) == after_undo(*old(circ), old(history)@, today as int, now)
            &&& final(history)@ == old(history)@.drop_last()
            &&& removed == old(history)@.last()
        },
{
    if history.len() == 0 {
        return Err(EngineError::InvalidState(InvalidState::NoCheckInHistory));
    }
    let n = history.len();
    match circ.circulation_type {
        CirculationKind::Count => {
            if circ.current_count > 1 {
                circ.current_count = circ.current_count - 1;
            } else {
                circ.current_count = 0;
            }
        },
        CirculationKind::Periodic => {
            let frequency = match circ.frequency {
                Some(f) => f,
                None => Frequency::Daily,
            };
            let days = days_newest_first(history);
            circ.streak_count = calculate_streak_undo(frequency, &days, today);
        },
    }
    circ.last_completed_at = if n >= 2 {
        Some(history[n - 2].completed_at.duplicate())
    } else {
        None
    };
    circ.updated_at = now;
    match history.pop() {
        Some(removed) => Ok(removed),
        None => Err(EngineError::InvalidState(InvalidState::NoCheckInHistory)),
    }
}

} // verus!
