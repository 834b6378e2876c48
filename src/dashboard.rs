//! The figures of the dashboard and of the statistics view.

use vstd::prelude::*;
use crate::progress::{
    calculate_milestone_progress, calculate_target_progress, link_of, link_progress, percent_of,
    target_progress, weights_in_range,
};
use crate::records::{Milestone, Step, Target, Task};

verus! {

/// Everything the dashboard shows.
#[derive(Debug)]
pub struct Dashboard {
    pub overview: Overview,
    pub week: WeekStats,
    pub counts: EntityCounts,
    pub today_todos: Vec<TodoSummary>,
    pub overdue_todos: Vec<TodoSummary>,
    pub completed_today: Vec<TodoSummary>,
    pub active_plans: Vec<PlanWithProgress>,
    pub active_targets: Vec<TargetWithProgress>,
    pub active_milestones: Vec<MilestoneWithProgress>,
}

/// Today at a glance.
#[derive(Debug, Clone, Copy, PartialEq, Eq, Structural)]
pub struct Overview {
    pub today_todos_count: i32,
    pub upcoming_3days_count: i32,
    pub completed_today_count: i32,
    pub overdue_count: i32,
    /// The completion streak (see [`crate::productivity::completion_streak`]).
    pub streak_days: i32,
    /// The productivity score (see [`crate::productivity::productivity_score`]).
    pub productivity_score: i32,
}

/// The todos completed in the last seven days.
#[derive(Debug, Clone, Copy, PartialEq, Eq, Structural)]
pub struct WeekStats {
    pub completed_count: i32,
}

/// How many records of each kind the store holds.
#[derive(Debug, Clone, Copy, PartialEq, Eq, Structural)]
pub struct EntityCounts {
    pub todo: i32,
    pub plan: i32,
    pub task: i32,
    pub target: i32,
    pub step: i32,
    pub milestone: i32,
}

/// A todo as the dashboard lists it.
#[derive(Debug, Clone)]
pub struct TodoSummary {
    pub id: String,
    pub title: String,
    pub due_date: Option<String>,
    pub status: String,
    pub priority: String,
}

/// A plan with its done-task share.
#[derive(Debug, Clone)]
pub struct PlanWithProgress {
    pub id: String,
    pub title: String,
    pub progress: i32,
    pub task_count: i32,
    pub completed_count: i32,
}

/// A target with its weighted progress.
#[derive(Debug, Clone)]
pub struct TargetWithProgress {
    pub id: String,
    pub title: String,
    pub progress: i32,
    pub due_date: Option<String>,
}

/// A milestone with its resolved progress.
#[derive(Debug, Clone)]
pub struct MilestoneWithProgress {
    pub id: String,
    pub title: String,
    pub progress: i32,
    pub target_date: Option<String>,
}

/// Today's totals.
#[derive(Debug, Clone, Copy, PartialEq, Eq, Structural)]
pub struct TodaySummary {
    pub total_todos: i32,
    pub completed_todos: i32,
    pub upcoming_count: i32,
    pub active_plans_count: i32,
    pub active_targets_count: i32,
}

/// Completions over time.
#[derive(Debug, Clone)]
pub struct TrendStats {
    pub daily: Vec<DailyStat>,
}

/// The todos completed on one date.
#[derive(Debug, Clone)]
pub struct DailyStat {
    pub date: String,
    pub completed: i32,
}

/// Completion counts with the streak and the productivity score.
#[derive(Debug, Clone, Copy, PartialEq, Eq, Structural)]
pub struct EfficiencyStats {
    pub streak_days: i32,
    pub today_completed: i32,
    pub week_completed: i32,
    pub month_completed: i32,
    pub productivity_score: i32,
}

impl PlanWithProgress {
    /// A plan listing entry: `completed_count` of its `task_count` tasks are
    /// done, and its progress is their floored percentage (`0` with no tasks).
    pub fn new(id: String, title: String, task_count: i32, completed_count: i32) -> (r: PlanWithProgress)
        requires
            0 <= completed_count <= task_count,
        ensures
            r.id == id,
            r.title == title,
            r.task_count == task_count,
            r.completed_count == completed_count,
            r.progress == percent_of(completed_count as int, task_count as int),
            0 <= r.progress <= 100,
    {
        let progress = if task_count > 0 {
            assert(100 * (completed_count as int) <= 100 * (task_count as int)) by (nonlinear_arith)
                requires
                    completed_count <= task_count,
            ;
            assert(0 <= 100 * (completed_count as int) / (task_count as int) <= 100) by (nonlinear_arith)
                requires
                    0 <= completed_count <= task_count,
                    task_count > 0,
            ;
            ((100 * (completed_count as i64)) / (task_count as i64)) as i32
        } else {
            0
        };
        PlanWithProgress { id, title, progress, task_count, completed_count }
    }
}

impl TargetWithProgress {
    /// A target listing entry, its progress recomputed from `steps`.
    pub fn from_target(target: &Target, steps: &Vec<Step>) -> (r: TargetWithProgress)
        requires
            weights_in_range(steps@),
            steps@.len() <= u32::MAX,
        ensures
            r.id == target.id,
            r.title == target.title,
            r.due_date == target.due_date,
            r.progress == target_progress(steps@, target.id@),
    {
        TargetWithProgress {
            id: target.id.clone(),
            title: target.title.clone(),
            progress: calculate_target_progress(steps, &target.id),
            due_date: target.due_date.clone(),
        }
    }
}

impl MilestoneWithProgress {
    /// A milestone listing entry, its progress resolved from its link.
    pub fn from_milestone(milestone: &Milestone, tasks: &Vec<Task>, steps: &Vec<Step>) -> (r: MilestoneWithProgress)
        requires
            tasks@.len() <= u32::MAX,
            steps@.len() <= u32::MAX,
            weights_in_range(steps@),
        ensures
            r.id == milestone.id,
            r.title == milestone.title,
            r.target_date == milestone.target_date,
            r.progress == link_progress(link_of(*milestone), tasks@, steps@),
    {
        MilestoneWithProgress {
            id: milestone.id.clone(),
            title: milestone.title.clone(),
            progress: calculate_milestone_progress(tasks, steps, milestone),
            target_date: milestone.target_date.clone(),
        }
    }
}

} // verus!
