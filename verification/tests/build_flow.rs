use aether_code::build_flow::{
    advance_context, console_input, default_rule_description, default_rule_id, default_rule_name,
    default_todo_description, default_todo_status, invalid_json_result, BuildAction, BuildEvent, BuildFlow,
    BuildPhase, BuildRequest, ConsoleInput, Status,
};
use aether_code::docker_sandbox::DockerCheckResult;
use aether_code::todo_context::{TaskStatus, TodoContext};

fn request(code: &str) -> BuildRequest {
    BuildRequest {
        code: code.into(),
        rule_id: "RO-6".into(),
        rule_name: "Historial Atòmic".into(),
        rule_description: "Commit automàtic".into(),
        todo_status: "complete".into(),
        todo_description: "Fet".into(),
        pending_tasks: vec!["Docker".into()],
    }
}

fn finish(a: BuildAction) -> aether_code::build_flow::BuildResult {
    match a {
        BuildAction::Finish(r) => r,
        other => panic!("expected the end, got {:?}", other),
    }
}

#[test]
fn test_default_request_metadata() {
    assert_eq!(default_rule_id(), "BR-000");
    assert_eq!(default_rule_name(), "Compilació Simple");
    assert_eq!(default_rule_description(), "Codi enviat via HTTP sense metadades");
    assert_eq!(default_todo_status(), "in-progress");
    assert_eq!(default_todo_description(), "Compilació via HTTP");
}

#[test]
fn test_build_flow_docker_success_commits() {
    let flow = BuildFlow::new(request("fn main() {}"));
    let (flow, a) = flow.step(BuildEvent::Started);
    assert!(matches!(a, BuildAction::Prepare));
    let (flow, a) = flow.step(BuildEvent::DockerProbed(true));
    assert!(matches!(a, BuildAction::RunDockerCheck { ref code } if code == "fn main() {}"));
    let check = DockerCheckResult { success: true, output: "ok".into(), error: None };
    let (flow, a) = flow.step(BuildEvent::DockerChecked(Ok(check)));
    assert!(matches!(a, BuildAction::WriteSandbox { .. }));
    let (flow, a) = flow.step(BuildEvent::SandboxWritten(Ok(())));
    assert!(matches!(a, BuildAction::CompleteTasks { ref todo_status } if todo_status == "complete"));
    let (flow, a) = flow.step(BuildEvent::TasksCompleted(1));
    let message = match a {
        BuildAction::Commit { message } => message,
        other => panic!("{:?}", other),
    };
    assert!(message.starts_with("feat: [RO-6] Historial Atòmic — Commit automàtic"));
    assert!(message.contains("Tests: 0 passed, 0 failed"));
    assert!(message.contains("1. Docker"));
    let (flow, a) = flow.step(BuildEvent::Committed(Ok("abc1234".into())));
    match a {
        BuildAction::UpdateTodoDocument { todo } => {
            assert_eq!(todo.status, "complete");
            assert_eq!(todo.pending, vec!["Docker".to_string()]);
        },
        other => panic!("{:?}", other),
    }
    let (flow, a) = flow.step(BuildEvent::DocumentUpdated);
    assert_eq!(flow.phase(), BuildPhase::Done);
    let r = finish(a);
    assert_eq!(r.status, Status::Success);
    assert_eq!(r.message, "Compilació correcta — docker check ha passat sense errors.");
    assert_eq!(r.commit_hash.as_deref(), Some("abc1234"));
    assert_eq!(r.commit_message.as_deref(), Some(message.as_str()));
    assert_eq!(r.completed_tasks, Some(1));
}

#[test]
fn test_build_flow_rejects_network_code() {
    let flow = BuildFlow::new(request("use std::net::TcpStream; fn main() {}"));
    let (flow, _) = flow.step(BuildEvent::Started);
    let (_, a) = flow.step(BuildEvent::DockerProbed(true));
    let r = finish(a);
    assert_eq!(r.status, Status::Error);
    assert_eq!(r.message, "Seguretat: Codi detectat amb possible accés a xarxa: std::net::");
    assert!(r.commit_hash.is_none());
}

#[test]
fn test_build_flow_local_fallback() {
    let flow = BuildFlow::new(request("use std::net::TcpStream; fn main() {}"));
    let (flow, _) = flow.step(BuildEvent::Started);
    let (flow, a) = flow.step(BuildEvent::DockerProbed(false));
    assert!(matches!(a, BuildAction::RunDockerCheck { .. }));
    let (flow, _) = flow.step(BuildEvent::DockerChecked(Err("no docker".into())));
    let (flow, a) = flow.step(BuildEvent::SandboxWritten(Ok(())));
    assert!(matches!(a, BuildAction::RunLocalCheck));
    let (flow, _) = flow.step(BuildEvent::LocalChecked(Ok("Finished".into())));
    let (flow, _) = flow.step(BuildEvent::TasksCompleted(0));
    let (_, a) = flow.step(BuildEvent::Committed(Err("No hi ha canvis per commitar".into())));
    let r = finish(a);
    assert_eq!(r.status, Status::Success);
    assert_eq!(r.message, "Compilació correcta (fallback local). Docker no disponible: no docker");
    assert!(r.commit_hash.is_none());
    assert_eq!(r.completed_tasks, Some(0));
}

#[test]
fn test_build_flow_failures() {
    let flow = BuildFlow::new(request("fn main() { x }"));
    let (flow, _) = flow.step(BuildEvent::Started);
    let (flow, _) = flow.step(BuildEvent::DockerProbed(true));
    let bad = DockerCheckResult { success: false, output: "error[E0425]".into(), error: Some("e".into()) };
    let (_, a) = flow.step(BuildEvent::DockerChecked(Ok(bad)));
    let r = finish(a);
    assert_eq!(r.status, Status::Error);
    assert_eq!(r.message, "error[E0425]");

    let flow = BuildFlow::new(request("fn main() {}"));
    let (flow, _) = flow.step(BuildEvent::Started);
    let (flow, _) = flow.step(BuildEvent::DockerProbed(false));
    let (flow, _) = flow.step(BuildEvent::DockerChecked(Err("x".into())));
    let (flow, _) = flow.step(BuildEvent::SandboxWritten(Ok(())));
    let (_, a) = flow.step(BuildEvent::LocalChecked(Err("error: cannot find".into())));
    assert_eq!(finish(a).message, "Error en fallback local: error: cannot find");

    let flow = BuildFlow::new(request("fn main() {}"));
    let (flow, _) = flow.step(BuildEvent::Started);
    let (flow, _) = flow.step(BuildEvent::DockerProbed(false));
    let (flow, _) = flow.step(BuildEvent::DockerChecked(Err("x".into())));
    let (_, a) = flow.step(BuildEvent::SandboxWritten(Err("disk full".into())));
    assert_eq!(finish(a).message, "Error d'escriptura: disk full");
}

#[test]
fn test_advance_context_completes_and_starts_next() {
    let mut ctx = TodoContext::new("P");
    ctx.add_task("a");
    ctx.add_task("b");
    ctx.add_task("c");
    ctx.tasks[0].status = TaskStatus::InProgress;
    let n = advance_context(&mut ctx, "QA");
    assert_eq!(n, 1);
    assert_eq!(ctx.tasks[0].status, TaskStatus::Completed);
    assert_eq!(ctx.tasks[1].status, TaskStatus::InProgress);
    assert_eq!(ctx.tasks[2].status, TaskStatus::Pending);
    assert_eq!(ctx.current_stage, "QA");
    let n = advance_context(&mut ctx, "in-progress");
    assert_eq!(n, 1);
    assert_eq!(ctx.tasks[2].status, TaskStatus::InProgress);
    assert_eq!(ctx.current_stage, "QA");
}

#[test]
fn test_console_input_plain_and_json() {
    match console_input("  fn main() {}\n") {
        ConsoleInput::Plain(q) => {
            assert_eq!(q.code, "fn main() {}");
            assert_eq!(q.rule_id, "BR-000");
            assert_eq!(q.rule_name, "Compilació Simple");
            assert_eq!(q.rule_description, "Codi enviat via stdin sense metadades de regla de negoci");
            assert_eq!(q.todo_status, "in-progress");
            assert_eq!(q.todo_description, "Compilació via stdin");
            assert!(q.pending_tasks.is_empty());
        },
        other => panic!("{:?}", other),
    }
    match console_input("\n{\"code\": \"x\"}  ") {
        ConsoleInput::Json(t) => assert_eq!(t, "{\"code\": \"x\"}"),
        other => panic!("{:?}", other),
    }
}

#[test]
fn test_invalid_json_result() {
    let r = invalid_json_result("EOF while parsing");
    assert_eq!(r.status, Status::Error);
    assert_eq!(r.message, "JSON invàlid: EOF while parsing. Intentant com a codi simple...");
    assert!(r.commit_message.is_none());
    assert!(r.completed_tasks.is_none());
}

#[test]
fn test_workspace_root_exists() {
    let root = aether_code::build_flow::workspace_root(".");
    assert_eq!(root, "./..");
    assert!(std::path::Path::new(&root).exists(), "La ruta del workspace ha d'existir: {:?}", root);
}
