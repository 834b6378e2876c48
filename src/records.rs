//! The records of the planning store that the engine reads and writes.

use vstd::prelude::*;

verus! {

/// A plan: a container of tasks.
#[derive(Debug, Clone)]
pub struct Plan {
    pub id: String,
    pub title: String,
    pub description: Option<String>,
    pub start_date: Option<String>,
    pub end_date: Option<String>,
    /// `active`, `completed` or `archived`.
    pub status: String,
    pub created_at: String,
    pub updated_at: String,
}

/// A task of a plan.
#[derive(Debug, Clone)]
pub struct Task {
    pub id: String,
    pub plan_id: String,
    pub title: String,
    pub description: Option<String>,
    pub start_date: Option<String>,
    pub end_date: Option<String>,
    /// `pending`, `in-progress` or `done`.
    pub status: String,
    /// An urgency label, `P0` being the most urgent.
    pub priority: String,
    pub created_at: String,
    pub updated_at: String,
}

/// A target, whose progress is rolled up from its weighted steps.
#[derive(Debug, Clone)]
pub struct Target {
    pub id: String,
    pub title: String,
    pub description: Option<String>,
    pub due_date: Option<String>,
    /// `active`, `completed` or `archived`.
    pub status: String,
    /// Recomputed from the steps on every read, in `0..=100`.
    pub progress: i32,
    pub created_at: String,
    pub updated_at: String,
}

/// A weighted step of a target.
#[derive(Debug, Clone)]
pub struct Step {
    pub id: String,
    pub target_id: String,
    pub title: String,
    /// The step's share of its target, in `0..=100`.
    pub weight: i32,
    /// `pending` or `completed`.
    pub status: String,
    pub priority: String,
    pub created_at: String,
    pub updated_at: String,
}

impl Step {
    /// A field-by-field copy of the step.
    pub fn duplicate(&self) -> (r: Step)
        ensures
            r == *self,
    {
        Step {
            id: self.id.clone(),
            target_id: self.target_id.clone(),
            title: self.title.clone(),
            weight: self.weight,
            status: self.status.clone(),
            priority: self.priority.clone(),
            created_at: self.created_at.clone(),
            updated_at: self.updated_at.clone(),
        }
    }
}

/// A flat todo item.
#[derive(Debug, Clone)]
pub struct Todo {
    pub id: String,
    pub title: String,
    pub content: Option<String>,
    pub due_date: Option<String>,
    /// `pending`, `in-progress` or `done`.
    pub status: String,
    pub priority: String,
    pub created_at: String,
    pub updated_at: String,
}

/// A milestone, linked to at most one plan, task, target or circulation.
///
/// The link is stored as a kind word and an identifier; see
/// [`crate::progress::milestone_link`] for its reading as a tagged value.
#[derive(Debug, Clone)]
pub struct Milestone {
    pub id: String,
    pub title: String,
    pub target_date: Option<String>,
    /// `plan`, `task`, `target` or `circulation`.
    pub biz_type: Option<String>,
    pub biz_id: Option<String>,
    /// `pending` or `completed`.
    pub status: String,
    /// Recomputed from the linked record on every read, in `0..=100`.
    pub progress: i32,
    pub created_at: String,
    pub updated_at: String,
}

} // verus!
