//! Weighted target progress and milestone progress by link kind.

use vstd::prelude::*;
use crate::error::EngineError;
use crate::records::{Milestone, Step, Target, Task};
use crate::text::text_equals;

verus! {

/// The status word of a completed step.
pub const STEP_COMPLETED: &'static str = "completed";

/// The status word of a finished task.
pub const TASK_DONE: &'static str = "done";

/// `floor(100 * part / whole)`, or `0` when `whole` is `0`.
pub open spec fn percent_of(part: int, whole: int) -> int {
    if whole == 0 {
        0
    } else {
        100 * part / whole
    }
}

/// A step's weight in the total of target `target`.
pub open spec fn share_of(s: Step, target: Seq<char>) -> int {
    if s.target_id@ == target {
        s.weight as int
    } else {
        0
    }
}

/// A step's weight in the completed total of target `target`.
pub open spec fn completed_share_of(s: Step, target: Seq<char>) -> int {
    if s.target_id@ == target && s.status@ == STEP_COMPLETED@ {
        s.weight as int
    } else {
        0
    }
}

/// The weights of the steps of target `target`, summed.
pub open spec fn weight_sum(steps: Seq<Step>, target: Seq<char>) -> int
    decreases steps.len(),
{
    if steps.len() == 0 {
        0
    } else {
        weight_sum(steps.drop_last(), target) + share_of(steps.last(), target)
    }
}

/// The weights of the completed steps of target `target`, summed.
pub open spec fn completed_weight_sum(steps: Seq<Step>, target: Seq<char>) -> int
    decreases steps.len(),
{
    if steps.len() == 0 {
        0
    } else {
        completed_weight_sum(steps.drop_last(), target) + completed_share_of(steps.last(), target)
    }
}

/// Every step weighs between 0 and 100.
pub open spec fn weights_in_range(steps: Seq<Step>) -> bool {
    forall|i: int| 0 <= i < steps.len() ==> 0 <= #[trigger] steps[i].weight <= 100
}

/// The progress of target `target`: the completed share of its steps' weight.
pub open spec fn target_progress(steps: Seq<Step>, target: Seq<char>) -> int {
    percent_of(completed_weight_sum(steps, target), weight_sum(steps, target))
}

/// The number of tasks of plan `plan`.
pub open spec fn task_count(tasks: Seq<Task>, plan: Seq<char>) -> int
    decreases tasks.len(),
{
    if tasks.len() == 0 {
        0
    } else {
        task_count(tasks.drop_last(), plan) + if tasks.last().plan_id@ == plan {
            1int
        } else {
            0int
        }
    }
}

/// The number of done tasks of plan `plan`.
pub open spec fn done_task_count(tasks: Seq<Task>, plan: Seq<char>) -> int
    decreases tasks.len(),
{
    if tasks.len() == 0 {
        0
    } else {
        done_task_count(tasks.drop_last(), plan) + if tasks.last().plan_id@ == plan
            && tasks.last().status@ == TASK_DONE@ {
            1int
        } else {
            0int
        }
    }
}

/// The progress of plan `plan`: the share of its tasks that are done.
pub open spec fn plan_progress(tasks: Seq<Task>, plan: Seq<char>) -> int {
    percent_of(done_task_count(tasks, plan), task_count(tasks, plan))
}

/// The progress of task `id`: 100 when the first task with that id is done,
/// 0 when it is not or when no task has that id.
pub open spec fn task_progress(tasks: Seq<Task>, id: Seq<char>) -> int
    decreases tasks.len(),
{
    if tasks.len() == 0 {
        0
    } else if tasks[0].id@ == id {
        if tasks[0].status@ == TASK_DONE@ {
            100
        } else {
            0
        }
    } else {
        task_progress(tasks.drop_first(), id)
    }
}

proof fn lemma_weight_sums_bounded(steps: Seq<Step>, target: Seq<char>)
    requires
        weights_in_range(steps),
    ensures
        0 <= completed_weight_sum(steps, target) <= weight_sum(steps, target) <= 100 * steps.len(),
    decreases steps.len(),
{
    if steps.len() > 0 {
        assert(weights_in_range(steps.drop_last()));
        lemma_weight_sums_bounded(steps.drop_last(), target);
    }
}

proof fn lemma_percent_in_range(part: int, whole: int)
    requires
        0 <= part <= whole,
    ensures
        0 <= percent_of(part, whole) <= 100,
{
    if whole != 0 {
        assert(100 * part / whole <= 100) by (nonlinear_arith)
            requires
                0 <= part <= whole,
                whole > 0,
        ;
        assert(100 * part / whole >= 0) by (nonlinear_arith)
            requires
                0 <= part,
                whole > 0,
        ;
    }
}

/// A target none of whose steps belong to it has progress 0.
pub proof fn target_without_steps_has_no_progress(steps: Seq<Step>, target: Seq<char>)
    requires
        forall|i: int| 0 <= i < steps.len() ==> #[trigger] steps[i].target_id@ != target,
    ensures
        weight_sum(steps, target) == 0,
        target_progress(steps, target) == 0,
    decreases steps.len(),
{
    if steps.len() > 0 {
        let rest = steps.drop_last();
        assert forall|i: int| 0 <= i < rest.len() implies #[trigger] rest[i].target_id@ != target by {
            assert(rest[i] == steps[i]);
        }
        target_without_steps_has_no_progress(rest, target);
        assert(steps.last() == steps[steps.len() - 1]);
    }
}

/// `floor(100 * part / whole)` on machine integers, `0` for an empty whole.
fn percent(part: u64, whole: u64) -> (r: i32)
    requires
        part <= whole,
        whole <= 100 * (u32::MAX as int) * 100,
    ensures
        r == percent_of(part as int, whole as int),
        0 <= r <= 100,
{
    if whole == 0 {
        return 0;
    }
    proof {
        lemma_percent_in_range(part as int, whole as int);
    }
    assert(100 * (part as int) <= 100 * (whole as int)) by (nonlinear_arith)
        requires
            part <= whole,
    ;
    let r = (100 * part) / whole;
    r as i32
}

/// The progress of target `target_id`, in `0..=100`: the completed steps'
/// weight as a floored percentage of all its steps' weight, `0` when the
/// target has no steps or they weigh nothing.
pub fn calculate_target_progress(steps: &Vec<Step>, target_id: &String) -> (r: i32)
    requires
        weights_in_range(steps@),
        steps@.len() <= u32::MAX,
    ensures
        r == target_progress(steps@, target_id@),
        0 <= r <= 100,
        weight_sum(steps@, target_id@) == 0 ==> r == 0,
        (forall|i: int| 0 <= i < steps@.len() ==> #[trigger] steps@[i].target_id@ != target_id@) ==> r == 0,
{
    let mut total: u64 = 0;
    let mut done: u64 = 0;
    let mut i: usize = 0;
    while i < steps.len()
        invariant
            weights_in_range(steps@),
            steps@.len() <= u32::MAX,
            i <= steps@.len(),
            total == weight_sum(steps@.subrange(0, i as int), target_id@),
            done == completed_weight_sum(steps@.subrange(0, i as int), target_id@),
            done <= total <= 100 * i,
        decreases steps@.len() - i,
    {
        let s = &steps[i];
        proof {
            let pre = steps@.subrange(0, i as int);
            let post = steps@.subrange(0, i + 1);
            assert(post.drop_last() =~= pre);
            assert(post.last() == steps@[i as int]);
        }
        if text_equals(s.target_id.as_str(), target_id.as_str()) {
            total = total + s.weight as u64;
            if text_equals(s.status.as_str(), STEP_COMPLETED) {
                done = done + s.weight as u64;
            }
        }
        i = i + 1;
    }
    assert(steps@.subrange(0, steps@.len() as int) =~= steps@);
    proof {
        lemma_weight_sums_bounded(steps@, target_id@);
        if forall|i: int| 0 <= i < steps@.len() ==> #[trigger] steps@[i].target_id@ != target_id@ {
            target_without_steps_has_no_progress(steps@, target_id@);
        }
    }
    percent(done, total)
}


/// The progress of plan `plan_id`, in `0..=100`: the done tasks as a floored
/// percentage of all its tasks, `0` when it has none.
pub fn calculate_plan_progress(tasks: &Vec<Task>, plan_id: &String) -> (r: i32)
    requires
        tasks@.len() <= u32::MAX,
    ensures
        r == plan_progress(tasks@, plan_id@),
        0 <= r <= 100,
{
    let mut total: u64 = 0;
    let mut done: u64 = 0;
    let mut i: usize = 0;
    while i < tasks.len()
        invariant
            tasks@.len() <= u32::MAX,
            i <= tasks@.len(),
            total == task_count(tasks@.subrange(0, i as int), plan_id@),
            done == done_task_count(tasks@.subrange(0, i as int), plan_id@),
            done <= total <= i,
        decreases tasks@.len() - i,
    {
        let t = &tasks[i];
        proof {
            let pre = tasks@.subrange(0, i as int);
            let post = tasks@.subrange(0, i + 1);
            assert(post.drop_last() =~= pre);
            assert(post.last() == tasks@[i as int]);
        }
        if text_equals(t.plan_id.as_str(), plan_id.as_str()) {
            total = total + 1;
            if text_equals(t.status.as_str(), TASK_DONE) {
                done = done + 1;
            }
        }
        i = i + 1;
    }
    assert(tasks@.subrange(0, tasks@.len() as int) =~= tasks@);
    percent(done, total)
}

/// The progress of task `task_id`: `100` when it is done, `0` when it is not
/// or when no task has that id.
pub fn calculate_task_progress(tasks: &Vec<Task>, task_id: &String) -> (r: i32)
    ensures
        r == task_progress(tasks@, task_id@),
        r == 0 || r == 100,
{
    let mut i: usize = 0;
    assert(tasks@.subrange(0, tasks@.len() as int) =~= tasks@);
    while i < tasks.len()
        invariant
            i <= tasks@.len(),
            task_progress(tasks@, task_id@) == task_progress(tasks@.subrange(i as int, tasks@.len() as int), task_id@),
        decreases tasks@.len() - i,
    {
        let t = &tasks[i];
        let ghost rest = tasks@.subrange(i as int, tasks@.len() as int);
        assert(rest[0] == tasks@[i as int]);
        assert(rest.drop_first() =~= tasks@.subrange(i + 1, tasks@.len() as int));
        if text_equals(t.id.as_str(), task_id.as_str()) {
            if text_equals(t.status.as_str(), TASK_DONE) {
                return 100;
            } else {
                return 0;
            }
        }
        i = i + 1;
    }
    0
}

/// What a milestone is linked to, read as a tagged value.
#[derive(Debug, Clone)]
pub enum MilestoneLink {
    /// No link, or a link of a kind this engine does not know.
    Unlinked,
    Plan(String),
    Task(String),
    Target(String),
    /// A circulation: recognised, but it adds no progress.
    Circulation(String),
}

/// The link that a milestone's kind word and identifier describe.
pub open spec fn link_of(m: Milestone) -> MilestoneLink {
    match (m.biz_type, m.biz_id) {
        (Some(kind), Some(id)) => {
            if kind@ == "plan"@ {
                MilestoneLink::Plan(id)
            } else if kind@ == "task"@ {
                MilestoneLink::Task(id)
            } else if kind@ == "target"@ {
                MilestoneLink::Target(id)
            } else if kind@ == "circulation"@ {
                MilestoneLink::Circulation(id)
            } else {
                MilestoneLink::Unlinked
            }
        },
        _ => MilestoneLink::Unlinked,
    }
}

/// The progress that a link resolves to.
pub open spec fn link_progress(link: MilestoneLink, tasks: Seq<Task>, steps: Seq<Step>) -> int {
    match link {
        MilestoneLink::Unlinked => 0,
        MilestoneLink::Plan(id) => plan_progress(tasks, id@),
        MilestoneLink::Task(id) => task_progress(tasks, id@),
        MilestoneLink::Target(id) => target_progress(steps, id@),
        MilestoneLink::Circulation(_) => 0,
    }
}

/// Reads a milestone's kind word and identifier as a tagged link.
pub fn milestone_link(m: &Milestone) -> (r: MilestoneLink)
    ensures
        r == link_of(*m),
{
    match (&m.biz_type, &m.biz_id) {
        (Some(kind), Some(id)) => {
            if text_equals(kind.as_str(), "plan") {
                MilestoneLink::Plan(id.clone())
            } else if text_equals(kind.as_str(), "task") {
                MilestoneLink::Task(id.clone())
            } else if text_equals(kind.as_str(), "target") {
                MilestoneLink::Target(id.clone())
            } else if text_equals(kind.as_str(), "circulation") {
                MilestoneLink::Circulation(id.clone())
            } else {
                MilestoneLink::Unlinked
            }
        },
        _ => MilestoneLink::Unlinked,
    }
}

/// The progress of a milestone, in `0..=100`, resolved from what it links to:
/// a plan's done-task share, a task's done state, a target's weighted
/// progress; `0` when it is unlinked, linked to a circulation, or linked to
/// a record that no longer exists.
pub fn calculate_milestone_progress(tasks: &Vec<Task>, steps: &Vec<Step>, milestone: &Milestone) -> (r: i32)
    requires
        tasks@.len() <= u32::MAX,
        steps@.len() <= u32::MAX,
        weights_in_range(steps@),
    ensures
        r == link_progress(link_of(*milestone), tasks@, steps@),
        0 <= r <= 100,
{
    match milestone_link(milestone) {
        MilestoneLink::Unlinked => 0,
        MilestoneLink::Plan(id) => calculate_plan_progress(tasks, &id),
        MilestoneLink::Task(id) => calculate_task_progress(tasks, &id),
        MilestoneLink::Target(id) => calculate_target_progress(steps, &id),
        MilestoneLink::Circulation(_) => 0,
    }
}

/// Whether some target has id `id`.
pub open spec fn has_target(targets: Seq<Target>, id: Seq<char>) -> bool {
    exists|i: int| 0 <= i < targets.len() && #[trigger] targets[i].id@ == id
}

/// Whether some milestone has id `id`.
pub open spec fn has_milestone(milestones: Seq<Milestone>, id: Seq<char>) -> bool {
    exists|i: int| 0 <= i < milestones.len() && #[trigger] milestones[i].id@ == id
}

/// The progress of the target with id `id`, or `NotFound` when there is none.
pub fn get_target_progress(targets: &Vec<Target>, steps: &Vec<Step>, id: &String) -> (r: Result<i32, EngineError>)
    requires
        weights_in_range(steps@),
        steps@.len() <= u32::MAX,
    ensures
        has_target(targets@, id@) ==> r == Ok::<i32, EngineError>(target_progress(steps@, id@) as i32),
        !has_target(targets@, id@) ==> r == Err::<i32, EngineError>(EngineError::NotFound),
        r matches Ok(p) ==> 0 <= p <= 100,
        (forall|i: int| 0 <= i < steps@.len() ==> #[trigger] steps@[i].target_id@ != id@) ==> (r matches Ok(
            p,
        ) ==> p == 0),
{
    let mut i: usize = 0;
    while i < targets.len()
        invariant
            weights_in_range(steps@),
            steps@.len() <= u32::MAX,
            i <= targets@.len(),
            forall|j: int| 0 <= j < i ==> targets@[j].id@ != id@,
        decreases targets@.len() - i,
    {
        if text_equals(targets[i].id.as_str(), id.as_str()) {
            return Ok(calculate_target_progress(steps, id));
        }
        i = i + 1;
    }
    Err(EngineError::NotFound)
}

/// The progress of the milestone with id `id` (see
/// [`calculate_milestone_progress`]), or `NotFound` when there is none.
pub fn get_milestone_progress(
    milestones: &Vec<Milestone>,
    tasks: &Vec<Task>,
    steps: &Vec<Step>,
    id: &String,
) -> (r: Result<i32, EngineError>)
    requires
        tasks@.len() <= u32::MAX,
        steps@.len() <= u32::MAX,
        weights_in_range(steps@),
    ensures
        !has_milestone(milestones@, id@) ==> r == Err::<i32, EngineError>(EngineError::NotFound),
        has_milestone(milestones@, id@) ==> exists|i: int|
            0 <= i < milestones@.len() && milestones@[i].id@ == id@ && (forall|j: int|
                0 <= j < i ==> #[trigger] milestones@[j].id@ != id@) && r == Ok::<i32, EngineError>(
                link_progress(link_of(milestones@[i]), tasks@, steps@) as i32,
            ),
        r matches Ok(p) ==> 0 <= p <= 100,
{
    let mut i: usize = 0;
    while i < milestones.len()
        invariant
            tasks@.len() <= u32::MAX,
            steps@.len() <= u32::MAX,
            weights_in_range(steps@),
            i <= milestones@.len(),
            forall|j: int| 0 <= j < i ==> milestones@[j].id@ != id@,
        decreases milestones@.len() - i,
    {
        if text_equals(milestones[i].id.as_str(), id.as_str()) {
            return Ok(calculate_milestone_progress(tasks, steps, &milestones[i]));
        }
        i = i + 1;
    }
    Err(EngineError::NotFound)
}


/// Target `t` with its progress recomputed from `steps`.
pub fn target_with_progress(t: &Target, steps: &Vec<Step>) -> (r: Target)
    requires
        weights_in_range(steps@),
        steps@.len() <= u32::MAX,
    ensures
        r == (Target { progress: target_progress(steps@, t.id@) as i32, ..*t }),
        0 <= r.progress <= 100,
{
    Target {
        id: t.id.clone(),
        title: t.title.clone(),
        description: t.description.clone(),
        due_date: t.due_date.clone(),
        status: t.status.clone(),
        progress: calculate_target_progress(steps, &t.id),
        created_at: t.created_at.clone(),
        updated_at: t.updated_at.clone(),
    }
}

/// Every target of `targets`, in order, each with its progress recomputed
/// from `steps`.
pub fn targets_with_progress(targets: &Vec<Target>, steps: &Vec<Step>) -> (r: Vec<Target>)
    requires
        weights_in_range(steps@),
        steps@.len() <= u32::MAX,
    ensures
        r@.len() == targets@.len(),
        forall|i: int|
            0 <= i < targets@.len() ==> #[trigger] r@[i] == (Target {
                progress: target_progress(steps@, targets@[i].id@) as i32,
                ..targets@[i]
            }),
{
    let mut r: Vec<Target> = Vec::new();
    let mut i: usize = 0;
    while i < targets.len()
        invariant
            weights_in_range(steps@),
            steps@.len() <= u32::MAX,
            i <= targets@.len(),
            r@.len() == i,
            forall|j: int|
                0 <= j < i ==> #[trigger] r@[j] == (Target {
                    progress: target_progress(steps@, targets@[j].id@) as i32,
                    ..targets@[j]
                }),
        decreases targets@.len() - i,
    {
        r.push(target_with_progress(&targets[i], steps));
        i = i + 1;
    }
    r
}

/// Milestone `m` with its progress resolved from its link.
pub fn milestone_with_progress(m: &Milestone, tasks: &Vec<Task>, steps: &Vec<Step>) -> (r: Milestone)
    requires
        tasks@.len() <= u32::MAX,
        steps@.len() <= u32::MAX,
        weights_in_range(steps@),
    ensures
        r == (Milestone { progress: link_progress(link_of(*m), tasks@, steps@) as i32, ..*m }),
        0 <= r.progress <= 100,
{
    Milestone {
        id: m.id.clone(),
        title: m.title.clone(),
        target_date: m.target_date.clone(),
        biz_type: m.biz_type.clone(),
        biz_id: m.biz_id.clone(),
        status: m.status.clone(),
        progress: calculate_milestone_progress(tasks, steps, m),
        created_at: m.created_at.clone(),
        updated_at: m.updated_at.clone(),
    }
}

/// Every milestone of `milestones`, in order, each with its progress resolved
/// on its own from its link.
pub fn milestones_with_progress(milestones: &Vec<Milestone>, tasks: &Vec<Task>, steps: &Vec<Step>) -> (r: Vec<
    Milestone,
>)
    requires
        tasks@.len() <= u32::MAX,
        steps@.len() <= u32::MAX,
        weights_in_range(steps@),
    ensures
        r@.len() == milestones@.len(),
        forall|i: int|
            0 <= i < milestones@.len() ==> #[trigger] r@[i] == (Milestone {
                progress: link_progress(link_of(milestones@[i]), tasks@, steps@) as i32,
                ..milestones@[i]
            }),
{
    let mut r: Vec<Milestone> = Vec::new();
    let mut i: usize = 0;
    while i < milestones.len()
        invariant
            tasks@.len() <= u32::MAX,
            steps@.len() <= u32::MAX,
            weights_in_range(steps@),
            i <= milestones@.len(),
            r@.len() == i,
            forall|j: int|
                0 <= j < i ==> #[trigger] r@[j] == (Milestone {
                    progress: link_progress(link_of(milestones@[j]), tasks@, steps@) as i32,
                    ..milestones@[j]
                }),
        decreases milestones@.len() - i,
    {
        r.push(milestone_with_progress(&milestones[i], tasks, steps));
        i = i + 1;
    }
    r
}

} // verus!
