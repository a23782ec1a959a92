use aether_code::telegram_bot::{
    build_action_message, build_proposal_message, build_status_message, build_welcome_message,
    parse_authorized_ids, parse_telegram_command, ChatRegistry, IntentProposal, TelegramCommand, TelegramConfig,
};

#[test]
fn test_parse_command_start() {
    assert_eq!(parse_telegram_command("/start"), TelegramCommand::Start);
    assert_eq!(parse_telegram_command("/start "), TelegramCommand::Start);
}

#[test]
fn test_parse_command_new_intent() {
    assert_eq!(
        parse_telegram_command("/new_intent Vull crear una funció factorial"),
        TelegramCommand::NewIntent("Vull crear una funció factorial".into())
    );
    assert_eq!(
        parse_telegram_command("/new_intent\tVull crear una funció factorial"),
        TelegramCommand::NewIntent("Vull crear una funció factorial".into())
    );
}

#[test]
fn test_parse_command_new_intent_empty() {
    let result = parse_telegram_command("/new_intent");
    assert!(matches!(result, TelegramCommand::Unknown(_)));
}

#[test]
fn test_parse_command_status() {
    assert_eq!(parse_telegram_command("/status"), TelegramCommand::Status);
}

#[test]
fn test_parse_command_switch() {
    assert_eq!(
        parse_telegram_command("/switch factorial-lab"),
        TelegramCommand::SwitchWorkspace("factorial-lab".into())
    );
    assert_eq!(parse_telegram_command("/switch\tmy-project"), TelegramCommand::SwitchWorkspace("my-project".into()));
}

#[test]
fn test_parse_command_switch_empty() {
    let result = parse_telegram_command("/switch");
    assert!(matches!(result, TelegramCommand::Unknown(_)));
}

#[test]
fn test_parse_command_logs() {
    assert_eq!(parse_telegram_command("/logs"), TelegramCommand::Logs);
}

#[test]
fn test_parse_command_as_intent() {
    assert_eq!(
        parse_telegram_command("Vull crear un servidor HTTP"),
        TelegramCommand::NewIntent("Vull crear un servidor HTTP".into())
    );
    assert_eq!(
        parse_telegram_command("Afegir autenticació al projecte"),
        TelegramCommand::NewIntent("Afegir autenticació al projecte".into())
    );
}

#[test]
fn test_telegram_config_from_env_missing() {
    let result = TelegramConfig::from_env_values(None, None);
    assert!(result.is_err());
    assert!(result.unwrap_err().contains("TELEGRAM_BOT_TOKEN"));
}

#[test]
fn test_telegram_config_is_authorized() {
    let config = TelegramConfig { bot_token: "fake-token".into(), authorized_ids: vec!["user1".into(), "user2".into()] };
    assert!(config.is_authorized("user1"));
    assert!(config.is_authorized("user2"));
    assert!(!config.is_authorized("user3"));
}

#[test]
fn test_telegram_config_authorized_ids_parsing() {
    let config = TelegramConfig {
        bot_token: "fake-token".into(),
        authorized_ids: vec!["id1".into(), "id2".into(), "id3".into()],
    };
    assert!(config.is_authorized("id1"));
    assert!(config.is_authorized("id2"));
    assert!(config.is_authorized("id3"));
    assert!(!config.is_authorized("unknown"));
}

#[test]
fn test_authorized_ids_from_text() {
    assert_eq!(parse_authorized_ids("a, b|c  d"), vec!["a", "b", "c", "d"]);
    assert!(parse_authorized_ids(" , ").is_empty());
    let c = TelegramConfig::from_env_values(Some("tok".into()), Some("7,8".into())).unwrap();
    assert_eq!(c.authorized_ids, vec!["7", "8"]);
    let open = TelegramConfig::from_env_values(Some("tok".into()), None).unwrap();
    assert!(open.is_authorized("anyone"));
}

#[test]
fn test_build_welcome_message() {
    let msg = build_welcome_message("AetherBot");
    assert!(msg.contains("AetherBot"));
    assert!(msg.contains("/new_intent"));
    assert!(msg.contains("/status"));
    assert!(msg.contains("/switch"));
    assert!(msg.contains("/logs"));
}

#[test]
fn test_build_status_message() {
    let tasks = vec![("completed", 5), ("pending", 3), ("failed", 1)];
    let msg = build_status_message(&tasks);
    assert!(msg.contains("✅"));
    assert!(msg.contains("⏳"));
    assert!(msg.contains("❌"));
    assert!(msg.contains("completed"));
    assert!(msg.contains("pending"));
    assert!(msg.contains("failed"));
}

#[test]
fn test_build_proposal_message() {
    let proposal = IntentProposal {
        id: "prop-1".into(),
        workspace_id: "test-ws".into(),
        intent: "Crear funció factorial".into(),
        explanation: "Implementar factorial recursiu".into(),
        tasks: vec!["Crear funció factorial".into(), "Afegir tests".into()],
        timestamp: "2024-01-01T00:00:00Z".into(),
    };
    let (text, callback_data) = build_proposal_message(&proposal);
    assert!(text.contains("Crear funció factorial"));
    assert!(text.contains("Implementar factorial recursiu"));
    assert!(callback_data.contains("test-ws"));
    assert!(callback_data.contains("prop-1"));
}

#[test]
fn test_build_action_message_approve() {
    let msg = build_action_message("approve", "test-ws");
    assert!(msg.contains("✅"));
    assert!(msg.contains("approve"));
    assert!(msg.contains("test-ws"));
}

#[test]
fn test_build_action_message_reject() {
    let msg = build_action_message("reject", "test-ws");
    assert!(msg.contains("❌"));
    assert!(msg.contains("reject"));
    assert!(msg.contains("test-ws"));
}

#[test]
fn test_build_action_message_uppercase_approve() {
    let msg = build_action_message("APPROVE", "ws");
    assert!(msg.contains("❌"));
    assert!(msg.contains("Proposta approve per al workspace `ws`"));
    assert!(!msg.contains("APPROVE"));
}

#[test]
fn test_chat_registry_register_and_get() {
    let mut registry = ChatRegistry::new("/tmp/aether_telegram_test_1");
    let chat_id = 123456789;
    registry.register_chat(chat_id, Some("my-ws"));
    let chat = registry.get_chat(chat_id);
    assert!(chat.is_some());
    let chat = chat.unwrap();
    assert_eq!(chat.chat_id, chat_id);
    assert_eq!(chat.active_workspace.as_deref(), Some("my-ws"));
}

#[test]
fn test_chat_registry_get_active_workspace() {
    let mut registry = ChatRegistry::new("/tmp/aether_telegram_test_2");
    registry.register_chat(987654321, Some("ws-alpha"));
    assert_eq!(registry.get_active_workspace(987654321), Some("ws-alpha"));
    assert_eq!(registry.get_active_workspace(0), None);
}

#[test]
fn test_chat_registry_set_active_workspace() {
    let mut registry = ChatRegistry::new("/tmp/aether_telegram_test_3");
    registry.register_chat(111222333, Some("ws-old"));
    registry.set_active_workspace(111222333, "ws-new");
    assert_eq!(registry.get_active_workspace(111222333), Some("ws-new"));
}

#[test]
fn test_chat_registry_unregistered_chat() {
    let registry = ChatRegistry::new("/tmp/aether_telegram_test_5");
    assert!(registry.get_chat(999999999).is_none());
    assert_eq!(registry.get_active_workspace(999999999), None);
    assert_eq!(registry.registry_path, "/tmp/aether_telegram_test_5/telegram_chats.json");
}

#[test]
fn test_parse_command_with_special_characters() {
    assert_eq!(
        parse_telegram_command("/new_intent Crear un servidor HTTP/2 amb TLS"),
        TelegramCommand::NewIntent("Crear un servidor HTTP/2 amb TLS".into())
    );
}
