use aether_code::coding_agent::{
    extract_rust_code, generate_fixer_prompt, generate_initial_prompt, update_task_state, CompileOutcome,
    CorrectionConfig, CorrectionIteration, CorrectionLoop, CorrectionResult, LlmReply, LoopAction, LoopEvent,
    LoopPhase, SYSTEM_FIX, SYSTEM_GENERATE,
};
use aether_code::todo_context::{TaskStatus, TodoContext};

#[test]
fn test_extract_rust_code_simple_block() {
    let response = "Aquí tens el codi:\n```rust\nfn main() { println!(\"Hola\"); }\n```\nMés text.";
    let code = extract_rust_code(response);
    assert_eq!(code.trim(), "fn main() { println!(\"Hola\"); }");
}

#[test]
fn test_extract_rust_code_no_extra_backticks() {
    let response = "```rust\nfn main() {}\n```";
    let code = extract_rust_code(response);
    assert_eq!(code.trim(), "fn main() {}");
}

#[test]
fn test_extract_rust_code_generic_backticks() {
    let response = "```fn main() {}\n```";
    let code = extract_rust_code(response);
    assert_eq!(code.trim(), "fn main() {}");
}

#[test]
fn test_extract_rust_code_doc_example() {
    let response = "Aquí tens el codi:\n```rust\nfn main() {}\n```";
    assert_eq!(extract_rust_code(response), "fn main() {}");
    assert_eq!(extract_rust_code("```rust\r\n  let x = 1;\r\n```"), "let x = 1;");
}

#[test]
fn test_extract_rust_code_no_block() {
    let response = "No hi ha blocs de codi aquí.";
    let code = extract_rust_code(response);
    assert_eq!(code, "No hi ha blocs de codi aquí.");
}

#[test]
fn test_extract_rust_code_empty_block() {
    let response = "```\n```";
    let code = extract_rust_code(response);
    assert_eq!(code, "");
}

#[test]
fn test_extract_rust_code_multiple_blocks() {
    let response = "```rust\nprimera\n```\n\n```rust\nsegona\n```";
    let code = extract_rust_code(response);
    assert_eq!(code.trim(), "primera");
}

#[test]
fn test_extract_rust_code_with_explanation() {
    let response = r#"
He generat el codi per al factorial:

```rust
fn factorial(n: u32) -> u32 {
    if n <= 1 { return 1; }
    n * factorial(n - 1)
}

fn main() {
    println!("{}", factorial(5));
}
```

Espero que funcioni!
"#;
    let code = extract_rust_code(response);
    assert!(code.contains("fn factorial"));
    assert!(code.contains("fn main"));
    assert!(code.contains("println!"));
    assert!(!code.contains("Espero que funcioni"));
}

#[test]
fn test_generate_fixer_prompt_contains_error() {
    let error = "error[E0308]: mismatched types\n  --> src/main.rs:2:5";
    let prompt = generate_fixer_prompt("fn main() {}", error, "Test task");
    assert!(prompt.contains(error));
    assert!(prompt.contains("Test task"));
    assert!(prompt.contains("fn main() {}"));
}

#[test]
fn test_generate_fixer_prompt_contains_instruction() {
    let prompt = generate_fixer_prompt("", "error", "Task");
    assert!(prompt.contains("Corregeix"));
    assert!(prompt.contains("```rust"));
    assert!(prompt.contains("només"));
}

#[test]
fn test_generate_initial_prompt_contains_instruction() {
    let prompt = generate_initial_prompt("Print Hello", "Task", "Context");
    assert!(prompt.contains("Print Hello"));
    assert!(prompt.contains("Task"));
    assert!(prompt.contains("Context"));
    assert!(prompt.contains("```rust"));
}

#[test]
fn test_correction_loop_success_first_attempt() {
    let config = CorrectionConfig { task_name: "Print Hello".into(), ..Default::default() };
    assert_eq!(config.task_name, "Print Hello");

    let prompt = generate_initial_prompt("Print Hello", "Test", "");
    assert!(prompt.contains("Print Hello"));

    let response = format!("```rust\nfn main() {{ println!(\"Hello\"); }}\n```");
    let code = extract_rust_code(&response);
    assert!(code.contains("fn main"));
    assert!(code.contains("println"));
}

#[test]
fn test_correction_max_retries_config() {
    let config = CorrectionConfig { max_retries: 5, llm_timeout_seconds: 120, task_name: "Max retries test".into() };
    assert_eq!(config.max_retries, 5);
    assert_eq!(config.llm_timeout_seconds, 120);
    assert_eq!(config.task_name, "Max retries test");
}

#[test]
fn test_correction_result_success_state() {
    let result = CorrectionResult {
        code: "fn main() {}".into(),
        attempts: 2,
        success: true,
        iterations: vec![
            CorrectionIteration { attempt: 1, code: "bad".into(), error: None, stderr: "err1".into() },
            CorrectionIteration { attempt: 2, code: "good".into(), error: None, stderr: "".into() },
        ],
        final_error: None,
    };
    assert!(result.success);
    assert_eq!(result.attempts, 2);
    assert_eq!(result.code, "fn main() {}");
    assert!(result.final_error.is_none());
    assert_eq!(result.iterations.len(), 2);
}

#[test]
fn test_correction_result_failure_state() {
    let result = CorrectionResult {
        code: "fn main() {}".into(),
        attempts: 3,
        success: false,
        iterations: vec![
            CorrectionIteration { attempt: 1, code: "bad".into(), error: None, stderr: "err1".into() },
            CorrectionIteration { attempt: 2, code: "worse".into(), error: None, stderr: "err2".into() },
            CorrectionIteration { attempt: 3, code: "still bad".into(), error: None, stderr: "err3".into() },
        ],
        final_error: Some("Type error".into()),
    };
    assert!(!result.success);
    assert_eq!(result.attempts, 3);
    assert_eq!(result.iterations.len(), 3);
    assert_eq!(result.final_error.as_ref().unwrap(), "Type error");
}

#[test]
fn test_safety_network_check_during_loop() {
    let code_with_network = "use std::net::TcpStream;\nfn main() { TcpStream::connect(\"127.0.0.1\"); }";
    let result = aether_code::docker_sandbox::check_no_network_code(code_with_network);
    assert!(result.is_err());
    assert!(result.unwrap_err().contains("xarxa"));
}

#[test]
fn test_default_correction_config() {
    let config = CorrectionConfig::default();
    assert_eq!(config.max_retries, 3);
    assert_eq!(config.llm_timeout_seconds, 60);
    assert_eq!(config.task_name, "Generació de codi");
}

fn ask(action: &LoopAction) -> (String, String) {
    match action {
        LoopAction::AskModel { system, prompt } => (system.clone(), prompt.clone()),
        other => panic!("expected a model call, got {:?}", other),
    }
}

fn compile(action: &LoopAction) -> String {
    match action {
        LoopAction::Compile { code } => code.clone(),
        other => panic!("expected a compilation, got {:?}", other),
    }
}

fn finish(action: LoopAction) -> CorrectionResult {
    match action {
        LoopAction::Finish(r) => r,
        other => panic!("expected the end, got {:?}", other),
    }
}

#[test]
fn test_loop_compiles_on_first_attempt() {
    let config = CorrectionConfig { task_name: "Hola".into(), ..Default::default() };
    let cycle = CorrectionLoop::new(&config, "Print Hello", "ctx");
    assert_eq!(cycle.phase(), LoopPhase::Idle);
    let (cycle, action) = cycle.step(LoopEvent::Started);
    let (system, prompt) = ask(&action);
    assert_eq!(system, SYSTEM_GENERATE);
    assert_eq!(prompt, generate_initial_prompt("Print Hello", "Hola", "ctx"));
    let (cycle, action) =
        cycle.step(LoopEvent::Replied(LlmReply::Content("```rust\nfn main() {}\n```".into())));
    assert_eq!(compile(&action), "fn main() {}");
    let (cycle, action) = cycle.step(LoopEvent::Compiled(CompileOutcome::Passed));
    assert_eq!(cycle.phase(), LoopPhase::Done);
    let result = finish(action);
    assert!(result.success);
    assert_eq!(result.attempts, 1);
    assert_eq!(result.code, "fn main() {}");
    assert!(result.final_error.is_none());
    assert_eq!(result.iterations.len(), 1);
    assert_eq!(result.iterations[0].attempt, 1);
    assert_eq!(result.iterations[0].stderr, "");
}

#[test]
fn test_loop_fixes_after_compile_error() {
    let config = CorrectionConfig { task_name: "T".into(), ..Default::default() };
    let cycle = CorrectionLoop::new(&config, "I", "");
    let (cycle, _) = cycle.step(LoopEvent::Started);
    let (cycle, _) = cycle.step(LoopEvent::Replied(LlmReply::Content("```rust\nfn main() { x }\n```".into())));
    let (cycle, action) = cycle.step(LoopEvent::Compiled(CompileOutcome::Failed("error: x".into())));
    let (system, prompt) = ask(&action);
    assert_eq!(system, SYSTEM_FIX);
    assert_eq!(prompt, generate_fixer_prompt("fn main() { x }", "error: x", "T"));
    let (cycle, action) = cycle.step(LoopEvent::Replied(LlmReply::Content("```rust\nfn main() {}\n```".into())));
    assert_eq!(compile(&action), "fn main() {}");
    let (_, action) = cycle.step(LoopEvent::Compiled(CompileOutcome::Passed));
    let result = finish(action);
    assert!(result.success);
    assert_eq!(result.attempts, 2);
    assert_eq!(result.iterations.len(), 2);
    assert_eq!(result.iterations[1].attempt, 2);
    assert_eq!(result.iterations[1].stderr, "error: x");
}

#[test]
fn test_loop_gives_up_after_max_retries() {
    let config = CorrectionConfig { max_retries: 2, llm_timeout_seconds: 5, task_name: "T".into() };
    let cycle = CorrectionLoop::new(&config, "I", "");
    let (cycle, _) = cycle.step(LoopEvent::Started);
    let (cycle, _) = cycle.step(LoopEvent::Replied(LlmReply::Content("a".into())));
    let (cycle, _) = cycle.step(LoopEvent::Compiled(CompileOutcome::Failed("e1".into())));
    let (cycle, _) = cycle.step(LoopEvent::Replied(LlmReply::Content("b".into())));
    let (cycle, action) = cycle.step(LoopEvent::Compiled(CompileOutcome::Failed("e2".into())));
    assert_eq!(cycle.phase(), LoopPhase::Done);
    let result = finish(action);
    assert!(!result.success);
    assert_eq!(result.attempts, 2);
    assert_eq!(result.code, "b");
    assert_eq!(result.final_error.as_deref(), Some("e2"));
    assert_eq!(result.iterations.len(), 2);
}

#[test]
fn test_loop_initial_model_failure() {
    let config = CorrectionConfig::default();
    let cycle = CorrectionLoop::new(&config, "I", "");
    let (cycle, _) = cycle.step(LoopEvent::Started);
    let (_, action) = cycle.step(LoopEvent::Replied(LlmReply::Failed));
    let result = finish(action);
    assert!(!result.success);
    assert_eq!(result.attempts, 1);
    assert_eq!(result.final_error.as_deref(), Some("Error en la generació inicial del LLM"));
    assert_eq!(result.iterations[0].error.as_deref(), Some("El LLM va retornar un error en la generació inicial"));
}

#[test]
fn test_loop_initial_network_error() {
    let config = CorrectionConfig::default();
    let cycle = CorrectionLoop::new(&config, "I", "");
    let (cycle, _) = cycle.step(LoopEvent::Started);
    let (_, action) = cycle.step(LoopEvent::Replied(LlmReply::NetworkError("timeout".into())));
    let result = finish(action);
    assert_eq!(result.final_error.as_deref(), Some("Error de xarxa: timeout"));
}

#[test]
fn test_loop_network_error_during_correction() {
    let config = CorrectionConfig { max_retries: 3, llm_timeout_seconds: 5, task_name: "T".into() };
    let cycle = CorrectionLoop::new(&config, "I", "");
    let (cycle, _) = cycle.step(LoopEvent::Started);
    let (cycle, _) = cycle.step(LoopEvent::Replied(LlmReply::Content("a".into())));
    let (cycle, _) = cycle.step(LoopEvent::Compiled(CompileOutcome::Failed("e1".into())));
    let (cycle, action) = cycle.step(LoopEvent::Replied(LlmReply::NetworkError("down".into())));
    let (_, prompt) = ask(&action);
    assert!(prompt.contains("Error de xarxa en intent 2: down"));
    let (cycle, action) = cycle.step(LoopEvent::Replied(LlmReply::Failed));
    assert_eq!(cycle.phase(), LoopPhase::Done);
    let result = finish(action);
    assert_eq!(result.attempts, 3);
    assert_eq!(result.final_error.as_deref(), Some("Intent 3 fallit: el LLM va retornar un error"));
    assert_eq!(result.iterations[2].stderr, "Error de xarxa en intent 2: down");
}

#[test]
fn test_update_task_state_success_and_failure() {
    let mut ctx = TodoContext::new("Test");
    let id = ctx.add_task("Fer X");
    let ok = CorrectionResult { code: "c".into(), attempts: 1, success: true, iterations: vec![], final_error: None };
    update_task_state(&mut ctx, id, &ok);
    assert_eq!(ctx.tasks[0].status, TaskStatus::Completed);
    assert_eq!(ctx.tasks[0].description, "Fer X");

    let id2 = ctx.add_task("Fer Y");
    let bad = CorrectionResult {
        code: "c".into(),
        attempts: 3,
        success: false,
        iterations: vec![],
        final_error: Some("E".into()),
    };
    update_task_state(&mut ctx, id2, &bad);
    assert_eq!(ctx.tasks[1].description, "Fer Y — Error final: E");
    assert_eq!(ctx.tasks[1].status, TaskStatus::Failed);
    assert_eq!(ctx.tasks[0].status, TaskStatus::Completed);

    update_task_state(&mut ctx, 99, &bad);
    assert_eq!(ctx.tasks.len(), 3);
    assert_eq!(ctx.tasks[2].id, 99);
    assert_eq!(ctx.tasks[2].status, TaskStatus::Failed);
    assert_eq!(ctx.tasks[2].description, "Tasca auto-generada (corregit en 3 intents) — Error final: E");

    update_task_state(&mut ctx, 100, &ok);
    assert_eq!(ctx.tasks[3].status, TaskStatus::Completed);
    assert_eq!(ctx.tasks[3].description, "Tasca auto-generada (corregit en 1 intents)");
}

#[test]
fn test_loop_attempts_count_iterations_without_retries() {
    let config = CorrectionConfig { max_retries: 0, llm_timeout_seconds: 5, task_name: "T".into() };
    let cycle = CorrectionLoop::new(&config, "I", "");
    let (cycle, _) = cycle.step(LoopEvent::Started);
    let (cycle, _) = cycle.step(LoopEvent::Replied(LlmReply::Content("fn main() { x }".into())));
    let (_, action) = cycle.step(LoopEvent::Compiled(CompileOutcome::Failed("e".into())));
    let result = finish(action);
    assert!(!result.success);
    assert_eq!(result.attempts, 1);
    assert_eq!(result.iterations.len(), 1);
    assert_eq!(result.iterations[0].attempt, 1);
}

#[test]
fn test_loop_screens_network_code_before_compiling() {
    let config = CorrectionConfig { max_retries: 2, llm_timeout_seconds: 5, task_name: "T".into() };
    let cycle = CorrectionLoop::new(&config, "I", "");
    let (cycle, _) = cycle.step(LoopEvent::Started);
    let (cycle, action) =
        cycle.step(LoopEvent::Replied(LlmReply::Content("```rust\nuse std::net::TcpStream;\n```".into())));
    let (system, prompt) = ask(&action);
    assert_eq!(system, SYSTEM_FIX);
    assert!(prompt.contains("Codi detectat amb possible accés a xarxa: std::net::"));
    let (_, action) = cycle.step(LoopEvent::Replied(LlmReply::Content("```rust\nuse std::net::X;\n```".into())));
    let result = finish(action);
    assert!(!result.success);
    assert_eq!(result.attempts, 2);
    assert_eq!(result.final_error.as_deref(), Some("Codi detectat amb possible accés a xarxa: std::net::"));
}
