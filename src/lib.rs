//! Progress roll-up and habit-streak engine for a personal planning tracker.
//!
//! The record types mirror the rows of the planning store; the functions
//! compute the values that are derived from them: weighted target progress,
//! milestone progress by link kind, the check-in / undo state machine of
//! recurring habits with its period keys and streaks, and the productivity
//! score of the dashboard.

pub mod calendar;
pub mod circulation;
pub mod dashboard;
pub mod error;
pub mod productivity;
pub mod progress;
pub mod records;
pub mod steps;
pub mod streak;
pub mod text;

pub use calendar::{FIRST_DAY, LAST_DAY};
pub use circulation::{
    checkin_circulation, undo_checkin_circulation, Circulation, CirculationKind, CirculationLog,
    Timestamp,
};
pub use dashboard::{
    DailyStat, Dashboard, EfficiencyStats, EntityCounts, MilestoneWithProgress, Overview,
    PlanWithProgress, TargetWithProgress, TodaySummary, TodoSummary, TrendStats, WeekStats,
};
pub use error::{EngineError, InvalidState};
pub use productivity::{calculate_efficiency, calculate_productivity_score, completion_streak};
pub use progress::{
    calculate_milestone_progress, calculate_plan_progress, calculate_target_progress,
    calculate_task_progress, get_milestone_progress, get_target_progress, milestone_link,
    milestone_with_progress, milestones_with_progress, target_with_progress, targets_with_progress,
    MilestoneLink,
};
pub use records::{Milestone, Plan, Step, Target, Task, Todo};
pub use steps::{create_step, update_step};
pub use streak::{calculate_period, calculate_streak, calculate_streak_undo, Frequency};
