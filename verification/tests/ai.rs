use speakly::json::JsonFound;
use speakly::ai::{claude_reply_from,
    get_system_prompt, handle_http_status_anthropic, handle_network_error_anthropic,
    parse_claude_response, prepare_claude_request, validate_anthropic_key, ANTHROPIC_KEY_ERROR,
    CLAUDE_NETWORK_ERROR, CLAUDE_REPLY_ERROR, FORMAL_PROMPT,
};

#[test]
fn test_get_prompt_formal() {
    let result = get_system_prompt("formal");
    assert!(result.is_ok());
    let prompt = result.unwrap();
    assert!(!prompt.is_empty(), "Prompt fuer 'formal' darf nicht leer sein");
    assert!(!prompt.contains("unknown"), "Prompt fuer 'formal' enthaelt 'unknown'");
}

#[test]
fn test_get_prompt_kuerzer() {
    let result = get_system_prompt("kuerzer");
    assert!(result.is_ok());
    let prompt = result.unwrap();
    assert!(!prompt.is_empty(), "Prompt fuer 'kuerzer' darf nicht leer sein");
}

#[test]
fn test_get_prompt_translate_en_de() {
    let result = get_system_prompt("translate_en_de");
    assert!(result.is_ok());
    let prompt = result.unwrap();
    assert!(!prompt.is_empty());
    assert!(
        prompt.contains("Deutsch") || prompt.contains("German"),
        "Prompt fuer 'translate_en_de' muss 'Deutsch' oder 'German' enthalten: {}",
        prompt
    );
}

#[test]
fn test_get_prompt_translate_de_en() {
    let result = get_system_prompt("translate_de_en");
    assert!(result.is_ok());
    let prompt = result.unwrap();
    assert!(!prompt.is_empty());
    assert!(
        prompt.contains("English"),
        "Prompt fuer 'translate_de_en' muss 'English' enthalten: {}",
        prompt
    );
}

#[test]
fn test_get_prompt_email() {
    let result = get_system_prompt("email");
    assert!(result.is_ok());
    let prompt = result.unwrap();
    assert!(!prompt.is_empty(), "Prompt fuer 'email' darf nicht leer sein");
}

#[test]
fn test_get_prompt_slack() {
    let result = get_system_prompt("slack");
    assert!(result.is_ok());
    let prompt = result.unwrap();
    assert!(!prompt.is_empty(), "Prompt fuer 'slack' darf nicht leer sein");
}

#[test]
fn test_get_prompt_unknown_returns_err() {
    let result = get_system_prompt("unknown_id");
    assert!(result.is_err(), "Unbekannter Command muss Err zurueckgeben");
    let err = result.unwrap_err();
    assert!(
        err.contains("Unbekannter AI-Command"),
        "Fehlermeldung muss 'Unbekannter AI-Command' enthalten: {}",
        err
    );
}

#[test]
fn test_validate_anthropic_key_empty() {
    let result = validate_anthropic_key("");
    assert!(result.is_err());
    let err = result.unwrap_err();
    assert!(err.contains("API-Key fehlt"), "Erwartete 'API-Key fehlt' in: {}", err);
}

#[test]
fn test_validate_anthropic_key_whitespace_only() {
    let result = validate_anthropic_key("   ");
    assert!(result.is_err());
}

#[test]
fn test_http_401_maps_to_api_key_error() {
    let result = handle_http_status_anthropic(401);
    assert!(result.is_err());
    let err = result.unwrap_err();
    assert!(err.contains("API-Key fehlt"), "HTTP 401 muss 'API-Key fehlt' melden: {}", err);
}

#[test]
fn test_http_403_maps_to_api_key_error() {
    let result = handle_http_status_anthropic(403);
    assert!(result.is_err());
    let err = result.unwrap_err();
    assert!(err.contains("API-Key fehlt"), "HTTP 403 muss 'API-Key fehlt' melden: {}", err);
}

#[test]
fn test_http_529_maps_to_network_error() {
    let result = handle_http_status_anthropic(529);
    assert!(result.is_err());
    let err = result.unwrap_err();
    assert!(err.contains("Netzwerkfehler"), "HTTP 529 muss 'Netzwerkfehler' melden: {}", err);
}

#[test]
fn test_network_error_message() {
    let result = handle_network_error_anthropic();
    assert!(result.is_err());
    let err = result.unwrap_err();
    assert!(err.contains("Netzwerkfehler"), "Netzwerkfehler muss 'Netzwerkfehler' melden: {}", err);
}

#[test]
fn test_parse_claude_response_valid() {
    let body = r#"{"content": [{"type": "text", "text": "Umformulierter Text"}]}"#;
    let result = parse_claude_response(body);
    assert!(result.is_ok());
    assert_eq!(result.unwrap(), "Umformulierter Text");
}

#[test]
fn test_parse_claude_response_missing_text() {
    let body = r#"{"content": []}"#;
    let result = parse_claude_response(body);
    assert!(result.is_err());
    let err = result.unwrap_err();
    assert!(
        err.contains("Ungueltiger AI-Response"),
        "Fehlende text-Feld muss 'Ungueltiger AI-Response' melden: {}",
        err
    );
}

#[test]
fn test_http_200_success() {
    let result = handle_http_status_anthropic(200);
    assert!(result.is_ok());
}

#[test]
fn test_all_six_commands_have_prompts() {
    let commands = ["formal", "kuerzer", "translate_en_de", "translate_de_en", "email", "slack"];
    for cmd in &commands {
        let result = get_system_prompt(cmd);
        assert!(result.is_ok(), "Command '{}' muss Ok sein", cmd);
        assert!(!result.unwrap().is_empty(), "Command '{}' muss nicht-leeren Prompt haben", cmd);
    }
}

#[test]
fn unknown_command_message_names_the_id() {
    assert_eq!(get_system_prompt("poem").unwrap_err(), "Unbekannter AI-Command: poem");
    assert_eq!(get_system_prompt("").unwrap_err(), "Unbekannter AI-Command: ");
    assert!(get_system_prompt("Formal").is_err());
    assert!(get_system_prompt(" formal").is_err());
    assert_eq!(get_system_prompt("formal").unwrap(), FORMAL_PROMPT);
}

#[test]
fn status_classes_of_the_anthropic_api() {
    for status in [200u16, 201, 204, 299] {
        assert_eq!(handle_http_status_anthropic(status), Ok(()));
    }
    for status in [100u16, 199, 300, 302, 400, 404, 429, 500, 529] {
        assert_eq!(handle_http_status_anthropic(status), Err(CLAUDE_NETWORK_ERROR.to_string()));
    }
    for status in [401u16, 403] {
        assert_eq!(handle_http_status_anthropic(status), Err(ANTHROPIC_KEY_ERROR.to_string()));
    }
    assert_eq!(handle_network_error_anthropic(), Err(CLAUDE_NETWORK_ERROR.to_string()));
}

#[test]
fn key_check_comes_before_command_check() {
    let r = prepare_claude_request(" \t\n", "unknown_id", "Hallo");
    assert_eq!(r.err(), Some(ANTHROPIC_KEY_ERROR.to_string()));
    let r = prepare_claude_request("sk-1", "unknown_id", "Hallo");
    assert_eq!(r.err(), Some("Unbekannter AI-Command: unknown_id".to_string()));
    let req = prepare_claude_request("  sk-ant-1234 \n", "slack", " Hallo Team ").ok().unwrap();
    assert_eq!(req.max_tokens, 4096);
    assert_eq!(req.user_text, " Hallo Team ");
    assert_eq!(req.api_key, "sk-ant-1234");
    assert_eq!(req.system_prompt, get_system_prompt("slack").unwrap());
    assert!(validate_anthropic_key("\u{3000}\u{a0}").is_err());
    assert!(validate_anthropic_key(" x ").is_ok());
}

#[test]
fn claude_reply_edge_cases() {
    assert!(parse_claude_response("not json").is_err());
    assert_ne!(parse_claude_response("not json").unwrap_err(), CLAUDE_REPLY_ERROR);
    assert_eq!(
        parse_claude_response(r#"{"content": [{"text": 42}]}"#),
        Err(CLAUDE_REPLY_ERROR.to_string())
    );
    assert_eq!(parse_claude_response(r#"{"other": 1}"#), Err(CLAUDE_REPLY_ERROR.to_string()));
    assert_eq!(
        parse_claude_response(r#"{"content": [{"text": "a"}, {"text": "b"}]}"#),
        Ok("a".to_string())
    );
    assert_eq!(parse_claude_response(r#"{"content": [{"text": ""}]}"#), Ok(String::new()));
    // `content` must be an array, as `body["content"][0]` requires.
    assert_eq!(
        parse_claude_response(r#"{"content": {"0": {"text": "x"}}}"#),
        Err(CLAUDE_REPLY_ERROR.to_string())
    );
    assert_eq!(parse_claude_response(r#"{"content": "abc"}"#), Err(CLAUDE_REPLY_ERROR.to_string()));
    assert_eq!(parse_claude_response(r#"{"content": [["x"]]}"#), Err(CLAUDE_REPLY_ERROR.to_string()));
}

#[test]
fn claude_reply_from_found_values() {
    let list = || JsonFound { text: None, items: Some(1) };
    let text = |t: &str| JsonFound { text: Some(t.to_string()), items: None };
    let nothing = || JsonFound { text: None, items: None };
    assert_eq!(claude_reply_from(list(), text("neu")), Ok("neu".to_string()));
    assert_eq!(claude_reply_from(list(), nothing()), Err(CLAUDE_REPLY_ERROR.to_string()));
    assert_eq!(claude_reply_from(nothing(), text("neu")), Err(CLAUDE_REPLY_ERROR.to_string()));
    assert_eq!(claude_reply_from(text("x"), text("neu")), Err(CLAUDE_REPLY_ERROR.to_string()));
}
