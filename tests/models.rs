use habit_progress::{Milestone, Plan, Step, Target, Task, Todo};

#[test]
fn test_plan_model() {
    let plan = Plan {
        id: "test-1".to_string(),
        title: "Test".to_string(),
        description: None,
        start_date: None,
        end_date: None,
        status: "active".to_string(),
        created_at: "2026-01-01T00:00:00Z".to_string(),
        updated_at: "2026-01-01T00:00:00Z".to_string(),
    };
    assert_eq!(plan.status, "active");
}

#[test]
fn test_todo_model() {
    let todo = Todo {
        id: "t1".to_string(),
        title: "Test".to_string(),
        content: None,
        due_date: None,
        status: "pending".to_string(),
        priority: "P2".to_string(),
        created_at: "2026-01-01T00:00:00Z".to_string(),
        updated_at: "2026-01-01T00:00:00Z".to_string(),
    };
    assert_eq!(todo.status, "pending");
}

#[test]
fn test_task_model() {
    let task = Task {
        id: "t1".to_string(),
        plan_id: "p1".to_string(),
        title: "Test".to_string(),
        description: None,
        start_date: None,
        end_date: None,
        status: "pending".to_string(),
        priority: "P2".to_string(),
        created_at: "2026-01-01T00:00:00Z".to_string(),
        updated_at: "2026-01-01T00:00:00Z".to_string(),
    };
    assert_eq!(task.plan_id, "p1");
}

#[test]
fn test_target_model() {
    let target = Target {
        id: "t1".to_string(),
        title: "Test".to_string(),
        description: None,
        due_date: None,
        status: "active".to_string(),
        progress: 0,
        created_at: "2026-01-01T00:00:00Z".to_string(),
        updated_at: "2026-01-01T00:00:00Z".to_string(),
    };
    assert_eq!(target.progress, 0);
}

#[test]
fn test_step_model() {
    let step = Step {
        id: "s1".to_string(),
        target_id: "t1".to_string(),
        title: "Test".to_string(),
        weight: 25,
        status: "pending".to_string(),
        priority: "P2".to_string(),
        created_at: "2026-01-01T00:00:00Z".to_string(),
        updated_at: "2026-01-01T00:00:00Z".to_string(),
    };
    assert_eq!(step.weight, 25);
}

#[test]
fn test_milestone_model() {
    let m = Milestone {
        id: "m1".to_string(),
        title: "Test".to_string(),
        target_date: None,
        biz_type: Some("plan".to_string()),
        biz_id: Some("p1".to_string()),
        status: "pending".to_string(),
        progress: 0,
        created_at: "2026-01-01T00:00:00Z".to_string(),
        updated_at: "2026-01-01T00:00:00Z".to_string(),
    };
    assert_eq!(m.biz_type, Some("plan".to_string()));
    assert_eq!(m.biz_id, Some("p1".to_string()));
}
