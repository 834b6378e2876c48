//! Creating and editing the weighted steps of a target, under the rule that
//! a target's steps never weigh more than 100 in all.

use vstd::prelude::*;
use crate::error::EngineError;
use crate::progress::{share_of, weight_sum, weights_in_range};
use crate::records::Step;
use crate::text::text_equals;

verus! {

/// The status word of a step that is not yet completed.
pub const STEP_PENDING: &'static str = "pending";

/// The priority a step gets when none is given.
pub const DEFAULT_PRIORITY: &'static str = "P2";

/// The weights of the steps of target `target` other than those with id `id`.
pub open spec fn weight_sum_except(steps: Seq<Step>, target: Seq<char>, id: Seq<char>) -> int
    decreases steps.len(),
{
    if steps.len() == 0 {
        0
    } else {
        weight_sum_except(steps.drop_last(), target, id) + if steps.last().id@ == id {
            0
        } else {
            share_of(steps.last(), target)
        }
    }
}

/// Whether adding `weight` to steps that already weigh `current` is allowed.
pub open spec fn weight_fits(current: int, weight: int) -> bool {
    0 <= weight <= 100 && current + weight <= 100
}

/// The index of the first step with id `id`, if any.
pub open spec fn first_step_with(steps: Seq<Step>, id: Seq<char>, i: int) -> bool {
    0 <= i < steps.len() && steps[i].id@ == id && forall|j: int|
        0 <= j < i ==> #[trigger] steps[j].id@ != id
}

/// Sums the weights of the steps of `target`, leaving out those with id
/// `skip` when one is given.
fn sum_weights(steps: &Vec<Step>, target: &String, skip: Option<&String>) -> (r: u64)
    requires
        weights_in_range(steps@),
        steps@.len() <= u32::MAX,
    ensures
        skip is None ==> r == weight_sum(steps@, target@),
        skip matches Some(id) ==> r == weight_sum_except(steps@, target@, id@),
        r <= 100 * steps@.len(),
{
    let mut total: u64 = 0;
    let mut i: usize = 0;
    while i < steps.len()
        invariant
            weights_in_range(steps@),
            steps@.len() <= u32::MAX,
            i <= steps@.len(),
            skip is None ==> total == weight_sum(steps@.subrange(0, i as int), target@),
            skip matches Some(id) ==> total == weight_sum_except(steps@.subrange(0, i as int), target@, id@),
            total <= 100 * i,
        decreases steps@.len() - i,
    {
        let s = &steps[i];
        proof {
            let pre = steps@.subrange(0, i as int);
            let post = steps@.subrange(0, i + 1);
            assert(post.drop_last() =~= pre);
            assert(post.last() == steps@[i as int]);
        }
        let skipped = match skip {
            Some(id) => text_equals(s.id.as_str(), id.as_str()),
            None => false,
        };
        if !skipped && text_equals(s.target_id.as_str(), target.as_str()) {
            total = total + s.weight as u64;
        }
        i = i + 1;
    }
    assert(steps@.subrange(0, steps@.len() as int) =~= steps@);
    total
}

/// Adds a pending step of weight `weight` to target `target_id`.
///
/// Refused with `ConstraintViolation`, and nothing added, when `weight` is
/// outside `0..=100` or the target's steps would then weigh more than 100.
pub fn create_step(
    steps: &mut Vec<Step>,
    id: String,
    target_id: String,
    title: String,
    weight: i32,
    priority: Option<String>,
    now: String,
) -> (r: Result<Step, EngineError>)
    requires
        weights_in_range(old(steps)@),
        old(steps)@.len() < u32::MAX,
    ensures
        weights_in_range(final(steps)@),
        weight_fits(weight_sum(old(steps)@, target_id@), weight as int) <==> r is Ok,
        r matches Err(e) ==> e == EngineError::ConstraintViolation && final(steps)@ == old(steps)@,
        r matches Ok(s) ==> {
            &&& final(steps)@ == old(steps)@.push(s)
            &&& s.id == id
            &&& s.target_id == target_id
            &&& s.title == title
            &&& s.weight == weight
            &&& s.status@ == STEP_PENDING@
            &&& s.priority@ == (match priority {
                Some(p) => p@,
                None => DEFAULT_PRIORITY@,
            })
            &&& s.created_at == now
            &&& s.updated_at == now
        },
{
    let current = sum_weights(steps, &target_id, None);
    if weight < 0 || weight > 100 || current + weight as u64 > 100 {
        return Err(EngineError::ConstraintViolation);
    }
    let priority = match priority {
        Some(p) => p,
        None => DEFAULT_PRIORITY.to_string(),
    };
    let step = Step {
        id,
        target_id,
        title,
        weight,
        status: STEP_PENDING.to_string(),
        priority,
        created_at: now.clone(),
        updated_at: now,
    };
    steps.push(step.duplicate());
    assert(weights_in_range(steps@)) by {
        assert forall|i: int| 0 <= i < steps@.len() implies 0 <= #[trigger] steps@[i].weight <= 100 by {
            if i < old(steps)@.len() {
                assert(steps@[i] == old(steps)@[i]);
            }
        }
    }
    Ok(step)
}


/// Whether some step has id `id`.
pub open spec fn has_step(steps: Seq<Step>, id: Seq<char>) -> bool {
    exists|i: int| 0 <= i < steps.len() && #[trigger] steps[i].id@ == id
}

/// Whether an edit that sets the weight to `weight` breaks the weight rule for
/// step `s` among `steps`.
pub open spec fn weight_refused(steps: Seq<Step>, s: Step, weight: Option<i32>) -> bool {
    match weight {
        Some(w) => !weight_fits(weight_sum_except(steps, s.target_id@, s.id@), w as int),
        None => false,
    }
}

/// Step `s` after an edit: each given field replaces the old one.
pub open spec fn edited_step(
    s: Step,
    title: Option<String>,
    weight: Option<i32>,
    status: Option<String>,
    priority: Option<String>,
    now: String,
) -> Step {
    Step {
        title: match title {
            Some(t) => t,
            None => s.title,
        },
        weight: match weight {
            Some(w) => w,
            None => s.weight,
        },
        status: match status {
            Some(t) => t,
            None => s.status,
        },
        priority: match priority {
            Some(t) => t,
            None => s.priority,
        },
        updated_at: now,
        ..s
    }
}

fn find_step(steps: &Vec<Step>, id: &String) -> (r: Option<usize>)
    ensures
        r matches Some(i) ==> first_step_with(steps@, id@, i as int),
        r is None ==> !has_step(steps@, id@),
{
    let mut i: usize = 0;
    while i < steps.len()
        invariant
            i <= steps@.len(),
            forall|j: int| 0 <= j < i ==> #[trigger] steps@[j].id@ != id@,
        decreases steps@.len() - i,
    {
        if text_equals(steps[i].id.as_str(), id.as_str()) {
            return Some(i);
        }
        i = i + 1;
    }
    None
}

/// Edits the step with id `id`: each given field replaces the old one.
///
/// Refused with `NotFound` when no step has that id, and with
/// `ConstraintViolation` when a new weight is outside `0..=100` or would
/// make the target's steps weigh more than 100; nothing changes then.
pub fn update_step(
    steps: &mut Vec<Step>,
    id: &String,
    title: Option<String>,
    weight: Option<i32>,
    status: Option<String>,
    priority: Option<String>,
    now: String,
) -> (r: Result<Step, EngineError>)
    requires
        weights_in_range(old(steps)@),
        old(steps)@.len() <= u32::MAX,
    ensures
        weights_in_range(final(steps)@),
        r is Err ==> final(steps)@ == old(steps)@,
        !has_step(old(steps)@, id@) ==> r == Err::<Step, EngineError>(EngineError::NotFound),
        forall|i: int|
            first_step_with(old(steps)@, id@, i) ==> {
                let s = #[trigger] old(steps)@[i];
                let n = edited_step(s, title, weight, status, priority, now);
                &&& weight_refused(old(steps)@, s, weight) ==> r == Err::<Step, EngineError>(
                    EngineError::ConstraintViolation,
                )
                &&& !weight_refused(old(steps)@, s, weight) ==> r == Ok::<Step, EngineError>(n)
                    && final(steps)@ == old(steps)@.update(i, n)
            },
{
    let i = match find_step(steps, id) {
        Some(i) => i,
        None => {
            return Err(EngineError::NotFound);
        },
    };
    let ghost s = steps@[i as int];
    let target = steps[i].target_id.clone();
    assert(s.id@ == id@);
    if let Some(w) = weight {
        let others = sum_weights(steps, &target, Some(id));
        if w < 0 || w > 100 || others + w as u64 > 100 {
            return Err(EngineError::ConstraintViolation);
        }
    }
    let old_step = steps[i].duplicate();
    let edited = Step {
        id: old_step.id,
        target_id: old_step.target_id,
        title: match title {
            Some(t) => t,
            None => old_step.title,
        },
        weight: match weight {
            Some(w) => w,
            None => old_step.weight,
        },
        status: match status {
            Some(t) => t,
            None => old_step.status,
        },
        priority: match priority {
            Some(t) => t,
            None => old_step.priority,
        },
        created_at: old_step.created_at,
        updated_at: now,
    };
    steps.set(i, edited.duplicate());
    assert(weights_in_range(steps@)) by {
        assert forall|j: int| 0 <= j < steps@.len() implies 0 <= #[trigger] steps@[j].weight <= 100 by {
            if j != i {
                assert(steps@[j] == old(steps)@[j]);
            }
        }
    }
    assert(forall|j: int| first_step_with(old(steps)@, id@, j) ==> j == i);
    Ok(edited)
}

} // verus!
