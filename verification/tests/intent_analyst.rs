use aether_code::intent_analyst::{
    approve_proposal, generate_mock_proposal, generate_proposal, proposal_from_lowercase, IntentProposal,
    TaskStatus, TechnicalTask,
};
use aether_code::todo_context::{TaskStatus as ContextStatus, TodoContext};

#[test]
fn test_generate_mock_proposal_greeting() {
    let proposal = generate_mock_proposal("Vull que el sistema saludi en català", "").unwrap();
    assert_eq!(proposal.proposal_id, 1);
    assert!(!proposal.tasks.is_empty());
    assert_eq!(proposal.tasks[0].status, TaskStatus::Proposal);
}

#[test]
fn test_generate_mock_proposal_api() {
    let proposal = generate_mock_proposal("Vull crear un endpoint API", "").unwrap();
    assert_eq!(proposal.proposal_id, 1);
    assert!(proposal.tasks.len() >= 2);
}

#[test]
fn test_generate_mock_proposal_generic() {
    let proposal = generate_mock_proposal("Vull afegir una funcionalitat nova", "").unwrap();
    assert_eq!(proposal.proposal_id, 1);
    assert!(proposal.tasks.len() >= 2);
}

#[test]
fn test_approve_proposal() {
    let mut context = TodoContext::new("Test");
    context.set_stage("Analyst");
    let proposal = IntentProposal {
        proposal_id: 1,
        original_intent: "Test intent".into(),
        tasks: vec![
            TechnicalTask { id: 1, description: "Task 1".into(), status: TaskStatus::Proposal },
            TechnicalTask { id: 2, description: "Task 2".into(), status: TaskStatus::Proposal },
        ],
        explanation: "Test explanation".into(),
    };
    let result = approve_proposal(&proposal, &mut context);
    assert_eq!(result.tasks_added, 2);
    assert_eq!(context.tasks.len(), 2);
    assert_eq!(result.status, "success");
    assert_eq!(result.message, "Proposta #1 aprovada. 2 tasques afegides.");
}

#[test]
fn test_approved_ids_are_shifted_by_largest() {
    let mut context = TodoContext::new("Test");
    context.add_task("existing");
    let proposal = generate_mock_proposal("Vull crear un endpoint API", "").unwrap();
    approve_proposal(&proposal, &mut context);
    let ids: Vec<u32> = context.tasks.iter().map(|t| t.id).collect();
    assert_eq!(ids, vec![1, 2, 4, 7]);
    assert!(context.tasks[1..].iter().all(|t| t.status == ContextStatus::Pending));
}

#[test]
fn test_mock_proposal_exact_tasks() {
    let p = generate_mock_proposal("Say HELLO", "").unwrap();
    let d: Vec<&str> = p.tasks.iter().map(|t| t.description.as_str()).collect();
    assert_eq!(
        d,
        vec!["Crear funció saludar() que retorni 'Hola món' en català", "Crear test per validar la funció salutació"]
    );
    let p = generate_mock_proposal("fer X", "").unwrap();
    let ids: Vec<u32> = p.tasks.iter().map(|t| t.id).collect();
    assert_eq!(ids, vec![1, 2, 3]);
    assert_eq!(p.tasks[0].description, "Analitzar requisits de: fer X");
    assert_eq!(p.explanation, "S'han generat 3 tasques tècniques basades en la intenció: fer X");
    let api = proposal_from_lowercase("Un ENDPOINT", "un endpoint");
    let ids: Vec<u32> = api.tasks.iter().map(|t| t.id).collect();
    assert_eq!(ids, vec![1, 2, 3]);
}

#[test]
fn test_generate_proposal_needs_key_without_mock() {
    assert_eq!(
        generate_proposal("x", "", false, false).unwrap_err(),
        "AI_API_KEY no configurada. Configura la clau d'API de Qwen."
    );
    assert!(generate_proposal("x", "", false, true).is_ok());
    assert!(generate_proposal("x", "", true, false).is_ok());
}

#[test]
fn test_mock_api_proposal_ids_distinct() {
    let r = generate_mock_proposal("Vull crear un endpoint API", "").unwrap();
    assert_eq!(r.proposal_id, 1);
    assert!(r.tasks.len() >= 2);
    let ids: Vec<u32> = r.tasks.iter().map(|t| t.id).collect();
    assert_eq!(ids, vec![1, 2, 3]);
}
