use aether_code::todo_context::{init_context_if_missing, max_task_id, TaskStatus, TodoContext};

#[test]
fn test_create_new_context() {
    let ctx = TodoContext::new("Test Project");
    assert_eq!(ctx.project_name, "Test Project");
    assert_eq!(ctx.current_stage, "Dev");
    assert!(ctx.tasks.is_empty());
}

#[test]
fn test_add_task() {
    let mut ctx = TodoContext::new("Test");
    let id1 = ctx.add_task("Task 1");
    assert_eq!(id1, 1);
    assert_eq!(ctx.tasks[0].status, TaskStatus::Pending);

    let id2 = ctx.add_task("Task 2");
    assert_eq!(id2, 2);
    assert_eq!(ctx.tasks.len(), 2);
}

#[test]
fn test_set_stage() {
    let mut ctx = TodoContext::new("Test");
    ctx.set_stage("Arquitecte");
    assert_eq!(ctx.current_stage, "Arquitecte");
}

#[test]
fn test_complete_current_task() {
    let mut ctx = TodoContext::new("Test");
    ctx.add_task("Tasca 1");
    ctx.add_task("Tasca 2");
    ctx.tasks[1].status = TaskStatus::InProgress;
    let count = ctx.complete_current_task();
    assert_eq!(count, 1);
    assert!(ctx.tasks[1].status.is_completed());
}

#[test]
fn test_complete_no_in_progress() {
    let mut ctx = TodoContext::new("Test");
    ctx.add_task("Tasca 1");
    let count = ctx.complete_current_task();
    assert_eq!(count, 0);
}

#[test]
fn test_get_current_task() {
    let mut ctx = TodoContext::new("Test");
    ctx.add_task("Tasca 1");
    ctx.add_task("Tasca 2");
    assert!(ctx.get_current_task().is_none());
    ctx.tasks[0].status = TaskStatus::InProgress;
    let current = ctx.get_current_task().unwrap();
    assert_eq!(current.id, 1);
    assert_eq!(current.description, "Tasca 1");
}

#[test]
fn test_init_context_if_missing() {
    let created = init_context_if_missing(false).expect("a context is created when none exists");
    assert_eq!(created.project_name, "Aether Code");
    assert_eq!(created.current_stage, "Dev");
    assert!(created.tasks.is_empty());
    assert!(init_context_if_missing(true).is_none());
}

#[test]
fn test_add_task_after_gap_uses_largest_id() {
    let mut ctx = TodoContext::new("Test");
    ctx.add_task("a");
    ctx.add_task("b");
    ctx.tasks[0].id = 7;
    assert_eq!(max_task_id(&ctx.tasks), 7);
    let id = ctx.add_task("c");
    assert_eq!(id, 8);
    assert!(ctx.tasks.iter().filter(|t| t.id == 8).count() == 1);
}

#[test]
fn test_complete_several_in_progress() {
    let mut ctx = TodoContext::new("Test");
    ctx.add_task("a");
    ctx.add_task("b");
    ctx.add_task("c");
    ctx.tasks[0].status = TaskStatus::InProgress;
    ctx.tasks[2].status = TaskStatus::InProgress;
    assert_eq!(ctx.complete_current_task(), 2);
    assert_eq!(ctx.tasks[0].status, TaskStatus::Completed);
    assert_eq!(ctx.tasks[1].status, TaskStatus::Pending);
    assert_eq!(ctx.tasks[2].status, TaskStatus::Completed);
    assert!(ctx.get_current_task().is_none());
    assert_eq!(ctx.complete_current_task(), 0);
    assert!(!ctx.tasks[1].status.is_in_progress());
}

#[test]
fn test_context_path() {
    assert_eq!(aether_code::todo_context::context_path("/repo"), "/repo/todo-context.json");
    assert_eq!(aether_code::todo_context::context_path("/repo/"), "/repo/todo-context.json");
}
