use habit_progress::{
    calculate_milestone_progress, calculate_plan_progress, calculate_target_progress,
    calculate_task_progress, create_step, get_milestone_progress, get_target_progress,
    milestone_link, update_step, EngineError, Milestone, MilestoneLink, MilestoneWithProgress,
    PlanWithProgress, Step, Target, TargetWithProgress, Task,
};

fn step(id: &str, target: &str, weight: i32, status: &str) -> Step {
    Step {
        id: id.to_string(),
        target_id: target.to_string(),
        title: format!("Step {}", id),
        weight,
        status: status.to_string(),
        priority: "P2".to_string(),
        created_at: "2026-01-01T00:00:00Z".to_string(),
        updated_at: "2026-01-01T00:00:00Z".to_string(),
    }
}

fn task(id: &str, plan: &str, status: &str) -> Task {
    Task {
        id: id.to_string(),
        plan_id: plan.to_string(),
        title: format!("Task {}", id),
        description: None,
        start_date: None,
        end_date: None,
        status: status.to_string(),
        priority: "P2".to_string(),
        created_at: "2026-01-01T00:00:00Z".to_string(),
        updated_at: "2026-01-01T00:00:00Z".to_string(),
    }
}

fn target(id: &str) -> Target {
    Target {
        id: id.to_string(),
        title: "Target".to_string(),
        description: None,
        due_date: Some("2026-06-01".to_string()),
        status: "active".to_string(),
        progress: 0,
        created_at: "2026-01-01T00:00:00Z".to_string(),
        updated_at: "2026-01-01T00:00:00Z".to_string(),
    }
}

fn milestone(kind: Option<&str>, id: Option<&str>) -> Milestone {
    Milestone {
        id: "m1".to_string(),
        title: "Milestone".to_string(),
        target_date: None,
        biz_type: kind.map(|k| k.to_string()),
        biz_id: id.map(|i| i.to_string()),
        status: "pending".to_string(),
        progress: 0,
        created_at: "2026-01-01T00:00:00Z".to_string(),
        updated_at: "2026-01-01T00:00:00Z".to_string(),
    }
}

#[test]
fn target_progress_weighted_thirty_of_hundred() {
    let steps = vec![step("s1", "t1", 30, "completed"), step("s2", "t1", 70, "pending")];
    assert_eq!(calculate_target_progress(&steps, &"t1".to_string()), 30);
}

#[test]
fn target_progress_without_steps_is_zero() {
    let steps = vec![step("s1", "other", 50, "completed")];
    assert_eq!(calculate_target_progress(&steps, &"t1".to_string()), 0);
    assert_eq!(calculate_target_progress(&Vec::new(), &"t1".to_string()), 0);
}

#[test]
fn target_progress_with_zero_weights_is_zero() {
    let steps = vec![step("s1", "t1", 0, "completed"), step("s2", "t1", 0, "pending")];
    assert_eq!(calculate_target_progress(&steps, &"t1".to_string()), 0);
}

#[test]
fn target_progress_is_floored_and_ignores_other_targets() {
    let steps = vec![
        step("s1", "t1", 1, "completed"),
        step("s2", "t1", 1, "pending"),
        step("s3", "t1", 1, "pending"),
        step("s4", "t2", 90, "completed"),
    ];
    assert_eq!(calculate_target_progress(&steps, &"t1".to_string()), 33);
    let full = vec![step("s1", "t1", 40, "completed"), step("s2", "t1", 20, "completed")];
    assert_eq!(calculate_target_progress(&full, &"t1".to_string()), 100);
}

#[test]
fn get_target_progress_finds_or_refuses() {
    let targets = vec![target("t1")];
    let steps = vec![step("s1", "t1", 30, "completed"), step("s2", "t1", 70, "pending")];
    assert_eq!(get_target_progress(&targets, &steps, &"t1".to_string()), Ok(30));
    assert_eq!(get_target_progress(&targets, &steps, &"nope".to_string()), Err(EngineError::NotFound));
}

#[test]
fn create_step_over_one_hundred_is_refused() {
    let mut steps = vec![step("s1", "t1", 60, "pending"), step("s2", "t1", 30, "pending")];
    let r = create_step(
        &mut steps,
        "s3".to_string(),
        "t1".to_string(),
        "Third".to_string(),
        11,
        None,
        "2026-02-01T00:00:00Z".to_string(),
    );
    assert_eq!(r.unwrap_err(), EngineError::ConstraintViolation);
    assert_eq!(steps.len(), 2);
    let r = create_step(
        &mut steps,
        "s3".to_string(),
        "t1".to_string(),
        "Third".to_string(),
        -5,
        None,
        "2026-02-01T00:00:00Z".to_string(),
    );
    assert_eq!(r.unwrap_err(), EngineError::ConstraintViolation);
    assert_eq!(steps.len(), 2);
}

#[test]
fn create_step_up_to_one_hundred_is_added() {
    let mut steps = vec![step("s1", "t1", 60, "pending"), step("s2", "t2", 90, "pending")];
    let s = create_step(
        &mut steps,
        "s3".to_string(),
        "t1".to_string(),
        "Third".to_string(),
        40,
        None,
        "2026-02-01T00:00:00Z".to_string(),
    )
    .unwrap();
    assert_eq!(s.weight, 40);
    assert_eq!(s.status, "pending");
    assert_eq!(s.priority, "P2");
    assert_eq!(s.created_at, "2026-02-01T00:00:00Z");
    assert_eq!(steps.len(), 3);
    assert_eq!(steps[2].id, "s3");
}

#[test]
fn update_step_checks_the_other_steps() {
    let mut steps = vec![step("s1", "t1", 60, "pending"), step("s2", "t1", 30, "pending")];
    let r = update_step(&mut steps, &"s2".to_string(), None, Some(41), None, None, "now".to_string());
    assert_eq!(r.unwrap_err(), EngineError::ConstraintViolation);
    assert_eq!(steps[1].weight, 30);
    let r = update_step(&mut steps, &"zz".to_string(), None, Some(1), None, None, "now".to_string());
    assert_eq!(r.unwrap_err(), EngineError::NotFound);
    let s = update_step(
        &mut steps,
        &"s2".to_string(),
        Some("Renamed".to_string()),
        Some(40),
        Some("completed".to_string()),
        None,
        "now".to_string(),
    )
    .unwrap();
    assert_eq!(s.weight, 40);
    assert_eq!(steps[1].title, "Renamed");
    assert_eq!(steps[1].status, "completed");
    assert_eq!(steps[1].updated_at, "now");
    assert_eq!(calculate_target_progress(&steps, &"t1".to_string()), 40);
}

#[test]
fn milestone_linked_to_plan_counts_done_tasks() {
    let tasks = vec![
        task("a", "p1", "done"),
        task("b", "p1", "done"),
        task("c", "p1", "done"),
        task("d", "p1", "pending"),
        task("e", "p2", "pending"),
    ];
    let m = milestone(Some("plan"), Some("p1"));
    assert_eq!(calculate_milestone_progress(&tasks, &Vec::new(), &m), 75);
    assert_eq!(calculate_plan_progress(&tasks, &"p2".to_string()), 0);
    assert_eq!(calculate_plan_progress(&tasks, &"p9".to_string()), 0);
}

#[test]
fn unlinked_milestone_has_no_progress() {
    let tasks = vec![task("a", "p1", "done")];
    assert_eq!(calculate_milestone_progress(&tasks, &Vec::new(), &milestone(None, None)), 0);
    assert_eq!(calculate_milestone_progress(&tasks, &Vec::new(), &milestone(Some("plan"), None)), 0);
    assert!(matches!(milestone_link(&milestone(None, Some("p1"))), MilestoneLink::Unlinked));
}

#[test]
fn milestone_linked_to_task_target_or_circulation() {
    let tasks = vec![task("a", "p1", "done"), task("b", "p1", "in-progress")];
    let steps = vec![step("s1", "t1", 30, "completed"), step("s2", "t1", 70, "pending")];
    assert_eq!(calculate_milestone_progress(&tasks, &steps, &milestone(Some("task"), Some("a"))), 100);
    assert_eq!(calculate_milestone_progress(&tasks, &steps, &milestone(Some("task"), Some("b"))), 0);
    assert_eq!(calculate_milestone_progress(&tasks, &steps, &milestone(Some("task"), Some("gone"))), 0);
    assert_eq!(calculate_milestone_progress(&tasks, &steps, &milestone(Some("target"), Some("t1"))), 30);
    assert_eq!(calculate_milestone_progress(&tasks, &steps, &milestone(Some("target"), Some("gone"))), 0);
    assert_eq!(
        calculate_milestone_progress(&tasks, &steps, &milestone(Some("circulation"), Some("c1"))),
        0
    );
    assert_eq!(calculate_task_progress(&tasks, &"a".to_string()), 100);
    assert!(matches!(
        milestone_link(&milestone(Some("circulation"), Some("c1"))),
        MilestoneLink::Circulation(ref id) if id == "c1"
    ));
}

#[test]
fn get_milestone_progress_finds_or_refuses() {
    let tasks = vec![task("a", "p1", "done"), task("b", "p1", "pending")];
    let milestones = vec![milestone(Some("plan"), Some("p1"))];
    assert_eq!(get_milestone_progress(&milestones, &tasks, &Vec::new(), &"m1".to_string()), Ok(50));
    assert_eq!(
        get_milestone_progress(&milestones, &tasks, &Vec::new(), &"m2".to_string()),
        Err(EngineError::NotFound)
    );
}

#[test]
fn listing_entries_carry_recomputed_progress() {
    let p = PlanWithProgress::new("p1".to_string(), "Plan".to_string(), 3, 2);
    assert_eq!(p.progress, 66);
    let empty = PlanWithProgress::new("p2".to_string(), "Plan".to_string(), 0, 0);
    assert_eq!(empty.progress, 0);
    let steps = vec![step("s1", "t1", 30, "completed"), step("s2", "t1", 70, "pending")];
    let t = TargetWithProgress::from_target(&target("t1"), &steps);
    assert_eq!(t.progress, 30);
    assert_eq!(t.due_date, Some("2026-06-01".to_string()));
    let tasks = vec![task("a", "p1", "done")];
    let m = MilestoneWithProgress::from_milestone(&milestone(Some("plan"), Some("p1")), &tasks, &steps);
    assert_eq!(m.progress, 100);
}

#[test]
fn error_messages() {
    assert_eq!(EngineError::NotFound.message(), "Record not found");
    assert_eq!(EngineError::ConstraintViolation.message(), "Step weights would exceed 100%");
}

#[test]
fn listings_recompute_each_record() {
    let mut stale = target("t1");
    stale.progress = 99;
    let targets = vec![stale, target("t2")];
    let steps = vec![
        step("s1", "t1", 30, "completed"),
        step("s2", "t1", 70, "pending"),
        step("s3", "t2", 50, "completed"),
    ];
    let listed = habit_progress::targets_with_progress(&targets, &steps);
    assert_eq!(listed.len(), 2);
    assert_eq!(listed[0].progress, 30);
    assert_eq!(listed[1].progress, 100);
    assert_eq!(listed[1].id, "t2");
    assert_eq!(habit_progress::target_with_progress(&targets[0], &steps).progress, 30);

    let tasks = vec![task("a", "p1", "done"), task("b", "p1", "pending")];
    let milestones = vec![
        milestone(Some("plan"), Some("p1")),
        milestone(Some("target"), Some("t1")),
        milestone(None, None),
    ];
    let listed = habit_progress::milestones_with_progress(&milestones, &tasks, &steps);
    assert_eq!(listed.iter().map(|m| m.progress).collect::<Vec<_>>(), vec![50, 30, 0]);
    assert_eq!(habit_progress::milestone_with_progress(&milestones[1], &tasks, &steps).progress, 30);
}
