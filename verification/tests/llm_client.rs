use aether_code::llm_client::{
    build_context_prompt, build_system_prompt, chat_url, json_error_message, llm_result, network_failure,
    parse_llm_response, LLMConfig,
};

#[test]
fn test_build_system_prompt_not_empty() {
    let prompt = build_system_prompt();
    assert!(!prompt.is_empty());
    assert!(prompt.contains("Rust"));
    assert!(prompt.contains("JSON"));
}

#[test]
fn test_build_context_prompt() {
    let context = r#"{ "tasks": [] }"#;
    let prompt = build_context_prompt(context);
    assert!(prompt.contains("Context Actual"));
    assert!(prompt.contains(context));
}

#[test]
fn test_llm_config_from_env_missing() {
    let result = LLMConfig::from_env_values(None, None, None);
    assert!(result.is_err());
    assert!(result.unwrap_err().contains("AETHER_LLM_URL"));
}

#[test]
fn test_llm_config_from_env_missing_key() {
    let result = LLMConfig::from_env_values(Some("https://api.test.com/v1".into()), None, None);
    assert!(result.is_err());
    assert!(result.unwrap_err().contains("AETHER_LLM_KEY"));
}

#[test]
fn test_llm_config_from_env_default_model() {
    let c = LLMConfig::from_env_values(Some("u".into()), Some("k".into()), None).unwrap();
    assert_eq!(c.model, "gpt-4");
    let c = LLMConfig::from_env_values(Some("u".into()), Some("k".into()), Some("m".into())).unwrap();
    assert_eq!(c.model, "m");
}

#[test]
fn test_llm_config_is_valid() {
    let config = LLMConfig { url: "https://api.example.com/v1".into(), api_key: "test-key".into(), model: "gpt-4".into() };
    assert!(config.is_valid());
    let invalid = LLMConfig { url: "".into(), api_key: "test".into(), model: "gpt-4".into() };
    assert!(!invalid.is_valid());
}

#[test]
fn test_parse_llm_response_valid_json() {
    let json = r#"{"explanation": "test", "tasks": [{"id": 1, "description": "task", "status": "pending"}]}"#;
    let result = parse_llm_response(json);
    assert!(result.is_ok());
    assert_eq!(result.unwrap()["tasks"][0]["id"], 1);
}

#[test]
fn test_parse_llm_response_invalid_json() {
    let json = r#"not valid json"#;
    let result = parse_llm_response(json);
    assert!(result.is_err());
    assert!(result.unwrap_err().starts_with("Error parsejant JSON del LLM: "));
}

#[test]
fn test_json_error_message() {
    assert_eq!(json_error_message("x"), "Error parsejant JSON del LLM: x");
}

#[test]
fn test_chat_url() {
    assert_eq!(chat_url("https://api.openai.com/v1"), "https://api.openai.com/v1/chat/completions");
    assert_eq!(chat_url("https://api.openai.com/v1//"), "https://api.openai.com/v1/chat/completions");
    assert_eq!(chat_url(""), "/chat/completions");
}

#[test]
fn test_llm_client_connectivity_mock() {
    let content = "{\"explanation\":\"OK\",\"tasks\":[]}".to_string();
    let r = llm_result(true, "200 OK", "{...}", Ok(Some(content.clone())));
    assert!(r.success, "success: {:?}", r.error);
    assert!(r.content.contains("explanation"));
    assert!(r.error.is_none());
}

#[test]
fn test_llm_malformed_json_response() {
    let r = llm_result(true, "200 OK", "", Ok(Some("això no és JSON vàlid!!!".into())));
    assert!(r.success, "error: {:?}", r.error);
    assert!(r.content.contains("això no és JSON"));
}

#[test]
fn test_llm_http_error_response() {
    let body = r#"{"error": {"message": "Invalid API key"}}"#;
    let r = llm_result(false, "401 Unauthorized", body, Err("unused".into()));
    assert!(!r.success, "HTTP 401 ha de marcar failure");
    let err_msg = r.error.as_ref().unwrap();
    assert!(err_msg.contains("401") || err_msg.contains("Invalid API key"), "got: {}", err_msg);
    assert_eq!(err_msg, &format!("Error HTTP 401 Unauthorized: {}", body));
}

#[test]
fn test_llm_result_answer_errors() {
    let r = llm_result(true, "200 OK", "{}", Ok(None));
    assert_eq!(r.error.as_deref(), Some("Resposta buida del LLM"));
    assert!(r.content.is_empty());
    let r = llm_result(true, "200 OK", "x", Err("expected value".into()));
    assert_eq!(r.error.as_deref(), Some("Error parsejant resposta LLM: expected value"));
    let r = network_failure("timed out");
    assert!(!r.success);
    assert_eq!(r.error.as_deref(), Some("Error de xarxa: timed out"));
}

#[test]
fn test_bearer_authorization() {
    assert_eq!(aether_code::llm_client::bearer_authorization("k-123"), "Bearer k-123");
}
