use light_factory_tui::commands::{
    engine_approval_key, engine_forward_step, is_valid_provider, parse_ask_command,
    parse_connect_command, parse_key_command, parse_model_command, parse_models_command,
    word_boundary, EngineForward, KeyCommand, Received,
};
use light_factory_tui::engine_view::EventKind;
use light_factory_tui::modal_view::mask;

#[test]
fn approval_keys_only_fire_while_a_prompt_is_pending() {
    assert_eq!(engine_approval_key('a', true), Some(true));
    assert_eq!(engine_approval_key('d', true), Some(false));
    assert_eq!(engine_approval_key('a', false), None);
    assert_eq!(engine_approval_key('d', false), None);
    assert_eq!(engine_approval_key('x', true), None);
}

#[test]
fn a_lagged_broadcast_continues_instead_of_stopping() {
    assert!(matches!(
        engine_forward_step::<EventKind>(Received::Lagged(7)),
        EngineForward::Dropped(7)
    ));
    assert!(matches!(engine_forward_step::<EventKind>(Received::Closed), EngineForward::Stop));
}

#[test]
fn a_received_event_is_forwarded() {
    let event = EventKind::Log { message: "hi".into() };
    assert!(matches!(engine_forward_step(Received::Event(event)), EngineForward::Event(_)));
}

#[test]
fn parses_an_ask_prompt() {
    assert_eq!(parse_ask_command("/ask hello"), Some("hello"));
}

#[test]
fn rejects_an_empty_ask() {
    assert_eq!(parse_ask_command("/ask"), None);
    assert_eq!(parse_ask_command("/ask   "), None);
}

#[test]
fn rejects_other_commands() {
    assert_eq!(parse_ask_command("/auth/login"), None);
    assert_eq!(parse_ask_command("/askhello"), None);
}

#[test]
fn parses_connect_command() {
    assert!(parse_connect_command("/connect"));
    assert!(parse_connect_command("/connect   "));
    assert!(!parse_connect_command("/connectx"));
    assert!(!parse_connect_command("/provider"));
    assert!(!parse_connect_command("/ask hello"));
}

#[test]
fn app_mask_never_echoes_input() {
    assert_eq!(mask(""), "");
    assert_eq!(mask("abc"), "***");
    assert_eq!(mask("sk-secret"), "*********");
}

#[test]
fn parses_models_command() {
    assert!(parse_models_command("/models"));
    assert!(parse_models_command("/models   "));
    assert!(!parse_models_command("/modelsx"));
    assert!(!parse_models_command("/model gpt-5"));
    assert!(!parse_models_command("/connect"));
}

#[test]
fn parses_model_commands() {
    assert_eq!(parse_model_command("/model gpt-5"), Some(Some("gpt-5")));
    assert_eq!(parse_model_command("/model"), Some(None));
    assert_eq!(parse_model_command("/model   "), Some(None));
    assert_eq!(parse_model_command("/modelx"), None);
}

#[test]
fn parses_key_commands() {
    assert!(matches!(parse_key_command("/key"), Some(KeyCommand::List)));
    assert!(matches!(
        parse_key_command("/key openai"),
        Some(KeyCommand::Store(p)) if p == "openai"
    ));
    assert!(matches!(
        parse_key_command("/key openai clear"),
        Some(KeyCommand::Clear(p)) if p == "openai"
    ));
    assert!(matches!(parse_key_command("/key clear"), Some(KeyCommand::Store(p)) if p == "clear"));
    assert!(parse_key_command("/keyx").is_none());
}

#[test]
fn a_word_boundary_is_empty_or_whitespace() {
    assert!(word_boundary(""));
    assert!(word_boundary(" x"));
    assert!(word_boundary("\tx"));
    assert!(!word_boundary("x"));
}

#[test]
fn the_connect_modal_offers_exactly_five_providers() {
    for p in ["anthropic", "openai", "gemini", "deepseek", "ollama"] {
        assert!(is_valid_provider(p), "{p}");
    }
    assert!(!is_valid_provider("local"));
    assert!(!is_valid_provider("OpenAI"));
}

#[test]
fn an_ask_prompt_is_trimmed() {
    assert_eq!(parse_ask_command("  /ask   two words  "), Some("two words"));
}
