use aether_code::command::CommandOutcome;
use aether_code::commit::{
    generate_commit_message, initial_todo_document, short_commit_hash, todo_document_text, BusinessRule,
    CommitAction, CommitEvent, CommitMetadata, CommitPhase, GitCommand, GitCommit, TestResults, TodoContext,
};

#[test]
fn test_test_results_summary_all_passed() {
    let results = TestResults::all_passed(5);
    assert_eq!(results.summary(), "5 passed, 0 failed");
    assert_eq!(results.total, 5);
    assert_eq!(results.passed, 5);
    assert_eq!(results.failed, 0);
}

#[test]
fn test_test_results_summary_with_failures() {
    let results = TestResults::with_failures(5, 2, vec!["test_a".into(), "test_b".into()]);
    assert_eq!(results.summary(), "3 passed, 2 failed");
    assert_eq!(results.total, 5);
    assert_eq!(results.passed, 3);
    assert_eq!(results.failed, 2);
}

#[test]
fn test_todo_context_short() {
    let mut todo = TodoContext::new("in-progress", "Implementant commit git");
    assert_eq!(todo.short(), "[in-progress] Implementant commit git");
    todo.add_pending("Afegir tests");
    assert_eq!(todo.pending.len(), 1);
}

#[test]
fn test_generate_commit_message_basic() {
    let meta = CommitMetadata {
        business_rule: BusinessRule {
            id: "RO-6".into(),
            name: "Historial Atòmic".into(),
            description: "Commit automàtic amb missatge estandarditzat".into(),
        },
        test_results: TestResults::all_passed(5),
        todo_context: TodoContext::new("complete", "Regla d'Or 6 implementada"),
    };
    let msg = generate_commit_message(&meta);
    assert!(msg.starts_with("feat: [RO-6] Historial Atòmic — "));
    assert!(msg.contains("5 passed, 0 failed"));
    assert!(msg.contains("[complete] Regla d'Or 6 implementada"));
}

#[test]
fn test_generate_commit_message_with_pending() {
    let mut todo = TodoContext::new("in-progress", "Desenvolupament en curs");
    todo.add_pending("Afegir suport per a Docker");
    todo.add_pending("Crear interfície web");
    let meta = CommitMetadata {
        business_rule: BusinessRule {
            id: "BR-001".into(),
            name: "Test Primer".into(),
            description: "Implementació de TDD obligatori".into(),
        },
        test_results: TestResults::with_failures(3, 1, vec!["test_auth".into()]),
        todo_context: todo,
    };
    let msg = generate_commit_message(&meta);
    assert!(msg.contains("2 passed, 1 failed"));
    assert!(msg.contains("[in-progress] Desenvolupament en curs"));
    assert!(msg.contains("Pending tasks:"));
    assert!(msg.contains("1. Afegir suport per a Docker"));
    assert!(msg.contains("2. Crear interfície web"));
}

#[test]
fn test_generate_commit_message_no_pending() {
    let meta = CommitMetadata {
        business_rule: BusinessRule {
            id: "BR-002".into(),
            name: "Context Atòmic".into(),
            description: "Gestió de fitxer de context".into(),
        },
        test_results: TestResults::all_passed(3),
        todo_context: TodoContext::new("complete", "Context gestionat correctament"),
    };
    let msg = generate_commit_message(&meta);
    assert!(msg.contains("3 passed, 0 failed"));
    assert!(!msg.contains("Pending tasks:"));
}

#[test]
fn test_init_todo_context() {
    let content = initial_todo_document("Test inicial");
    assert!(content.contains("Test inicial"));
    assert_eq!(
        content,
        "# Todo-Context — Aether Code\n\n## Estat actual\n\nStatus: init\nDescription: Test inicial\n\n## Tasques pendents\n\n- [ ] Inicialitzar projecte\n"
    );
}

#[test]
fn test_update_todo_context() {
    let todo = TodoContext::new("in-progress", "Actualitzant context");
    let content = todo_document_text(&todo);
    assert!(content.contains("[in-progress]"));
    assert!(content.contains("Actualitzant context"));
}

#[test]
fn test_commit_message_exact_layout() {
    let mut todo = TodoContext::new("complete", "Fet");
    todo.add_pending("A");
    let meta = CommitMetadata {
        business_rule: BusinessRule { id: "R-1".into(), name: "Nom".into(), description: "Desc".into() },
        test_results: TestResults::with_failures(2, 1, vec!["t1".into()]),
        todo_context: todo,
    };
    assert_eq!(
        generate_commit_message(&meta),
        "feat: [R-1] Nom — Desc\n\nTests: 1 passed, 1 failed\n\nTest details:\n  - t1\n\nTodo-Context: [complete] Fet\n\nPending tasks:\n  1. A"
    );
}

#[test]
fn test_todo_document_with_pending_tasks() {
    let mut todo = TodoContext::new("in-progress", "D");
    todo.add_pending("X");
    todo.add_pending("Y");
    assert_eq!(
        todo_document_text(&todo),
        "# Todo-Context — Aether Code\n\n## Estat actual\n\nStatus: [in-progress]\nDescription: D\n\n## Tasques pendents\n\n- [ ] 1. X\n- [ ] 2. Y\n"
    );
}

#[test]
fn test_short_commit_hash() {
    assert_eq!(short_commit_hash("  0123456789abcdef\n"), "0123456");
    assert_eq!(short_commit_hash("abc\n"), "abc");
}

fn ran(success: bool, stdout: &str, stderr: &str) -> CommandOutcome {
    CommandOutcome::Ran { success, stdout: stdout.into(), stderr: stderr.into() }
}

fn run_command(action: CommitAction) -> GitCommand {
    match action {
        CommitAction::Run(c) => c,
        CommitAction::Finish(r) => panic!("finished early: {:?}", r),
    }
}

#[test]
fn test_git_commit_full_run_sets_identity() {
    let c = GitCommit::new("feat: x");
    let (c, a) = c.step(CommitEvent::Started);
    assert_eq!(run_command(a), GitCommand::ConfigGet { key: "user.name".into() });
    let (c, a) = c.step(CommitEvent::Replied(ran(true, "", "")));
    assert_eq!(run_command(a), GitCommand::ConfigSet { key: "user.name".into(), value: "Aether Code".into() });
    let (c, a) = c.step(CommitEvent::Replied(ran(true, "", "")));
    assert_eq!(run_command(a), GitCommand::ConfigGet { key: "user.email".into() });
    let (c, a) = c.step(CommitEvent::Replied(ran(true, "", "")));
    assert_eq!(run_command(a), GitCommand::ConfigSet { key: "user.email".into(), value: "aether@local".into() });
    let (c, a) = c.step(CommitEvent::Replied(ran(true, "", "")));
    assert_eq!(run_command(a), GitCommand::AddAll);
    let (c, a) = c.step(CommitEvent::Replied(ran(true, "", "")));
    assert_eq!(run_command(a), GitCommand::DiffCachedQuiet);
    let (c, a) = c.step(CommitEvent::Replied(ran(false, "", "")));
    assert_eq!(run_command(a), GitCommand::Commit { message: "feat: x".into() });
    let (c, a) = c.step(CommitEvent::Replied(ran(true, "", "")));
    assert_eq!(run_command(a), GitCommand::RevParseHead);
    let (c, a) = c.step(CommitEvent::Replied(ran(true, "abcdef0123456789\n", "")));
    assert_eq!(c.phase(), CommitPhase::Done);
    match a {
        CommitAction::Finish(r) => assert_eq!(r, Ok("abcdef0".to_string())),
        _ => panic!("expected the end"),
    }
}

#[test]
fn test_git_commit_keeps_configured_identity() {
    let c = GitCommit::new("m");
    let (c, _) = c.step(CommitEvent::Started);
    let (c, a) = c.step(CommitEvent::Replied(ran(true, "Someone\n", "")));
    assert_eq!(run_command(a), GitCommand::ConfigGet { key: "user.email".into() });
    let (_, a) = c.step(CommitEvent::Replied(CommandOutcome::NotRun("no git".into())));
    assert_eq!(run_command(a), GitCommand::AddAll);
}

#[test]
fn test_git_commit_errors() {
    let start = |c: GitCommit| {
        let (c, _) = c.step(CommitEvent::Started);
        let (c, _) = c.step(CommitEvent::Replied(ran(true, "n", "")));
        let (c, _) = c.step(CommitEvent::Replied(ran(true, "e", "")));
        c
    };
    let (_, a) = start(GitCommit::new("m")).step(CommitEvent::Replied(ran(false, "", "")));
    match a {
        CommitAction::Finish(r) => assert_eq!(r, Err("git add ha fallat".to_string())),
        _ => panic!(),
    }
    let c = start(GitCommit::new("m"));
    let (c, _) = c.step(CommitEvent::Replied(ran(true, "", "")));
    let (_, a) = c.step(CommitEvent::Replied(ran(true, "", "")));
    match a {
        CommitAction::Finish(r) => assert_eq!(r, Err("No hi ha canvis per commitar".to_string())),
        _ => panic!(),
    }
    let c = start(GitCommit::new("m"));
    let (c, _) = c.step(CommitEvent::Replied(ran(true, "", "")));
    let (c, _) = c.step(CommitEvent::Replied(ran(false, "", "")));
    let (_, a) = c.step(CommitEvent::Replied(ran(false, "", "hook refused")));
    match a {
        CommitAction::Finish(r) => assert_eq!(r, Err("git commit ha fallat: hook refused".to_string())),
        _ => panic!(),
    }
    let c = GitCommit::new("m");
    let (c, _) = c.step(CommitEvent::Started);
    let (c, _) = c.step(CommitEvent::Replied(ran(true, "", "")));
    let (_, a) = c.step(CommitEvent::Replied(CommandOutcome::NotRun("denied".into())));
    match a {
        CommitAction::Finish(r) => assert_eq!(r, Err("Error configurant user.name: denied".to_string())),
        _ => panic!(),
    }
}

#[test]
fn test_git_commit_sets_identity_when_key_unset() {
    let c = GitCommit::new("m");
    let (c, _) = c.step(CommitEvent::Started);
    let (c, a) = c.step(CommitEvent::Replied(ran(false, "", "")));
    assert_eq!(run_command(a), GitCommand::ConfigSet { key: "user.name".into(), value: "Aether Code".into() });
    let (c, _) = c.step(CommitEvent::Replied(ran(true, "", "")));
    let (_, a) = c.step(CommitEvent::Replied(ran(false, "", "")));
    assert_eq!(run_command(a), GitCommand::ConfigSet { key: "user.email".into(), value: "aether@local".into() });
}
