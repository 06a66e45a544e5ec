use oxide_agent::cli::{AgentType as CliAgent, Args, InterfaceType as CliInterface};
use oxide_agent::config::{
    config_format_for_extension, create_default_config_from_cli, default_api_base, default_max_agents,
    default_model, default_name, default_provider, default_system_prompt, default_telegram_polling_interval_ms,
    default_telegram_request_timeout_secs, default_web_host, default_web_max_payload_bytes, default_web_port,
    merge_configs, AgentType, ConfigError, ConfigFormat, ConfigFormatError, DiscordInterfaceConfig, InterfaceType,
    LLMConfig, OxideConfig, TelegramInterfaceConfig, WebInterfaceConfig,
};

fn no_args() -> Args {
    Args {
        agent: None,
        no_stream: None,
        session: None,
        list_sessions: None,
        mcp_server: None,
        mcp_auth_token: None,
        interface: None,
        config: None,
        llm_api_base: None,
        llm_api_key: None,
        llm_model: None,
    }
}

#[test]
fn defaults_have_their_documented_values() {
    assert_eq!(default_model(), "");
    assert_eq!(default_name(), "Qwen");
    assert_eq!(default_system_prompt(), "You are a Rust programming expert.");
    assert_eq!(default_provider(), "ollama");
    assert_eq!(default_api_base(), "http://localhost:11434");
    assert_eq!(default_max_agents(), 5);
    assert_eq!(default_web_host(), "127.0.0.1");
    assert_eq!(default_web_port(), 8080);
    assert_eq!(default_web_max_payload_bytes(), 1024 * 1024);
    assert_eq!(default_telegram_polling_interval_ms(), 1000);
    assert_eq!(default_telegram_request_timeout_secs(), 30);
}

#[test]
fn validation_reports_the_first_broken_rule() {
    let mut c = OxideConfig::default();
    assert_eq!(c.validate(), Ok(()));
    c.mcp.server = Some("http://mcp".to_string());
    assert_eq!(c.validate(), Err(ConfigError::McpServerWithoutToken));
    assert_eq!(ConfigError::McpServerWithoutToken.message(), "MCP server specified but no auth token provided");
    c.mcp.auth_token = Some("t".to_string());
    c.session = Some(String::new());
    assert_eq!(c.validate(), Err(ConfigError::EmptySessionName));
    c.session = Some("a/b".to_string());
    assert_eq!(c.validate(), Err(ConfigError::InvalidSessionName));
    c.session = Some("work".to_string());
    c.web = Some(WebInterfaceConfig { port: 0, ..WebInterfaceConfig::default() });
    assert_eq!(c.validate(), Err(ConfigError::ZeroWebPort));
    c.web = Some(WebInterfaceConfig { max_payload_bytes: 0, ..WebInterfaceConfig::default() });
    assert_eq!(c.validate(), Err(ConfigError::ZeroWebPayloadLimit));
    c.web = None;
    c.telegram = Some(TelegramInterfaceConfig {
        bot_token: "  ".to_string(),
        polling_interval_ms: 1000,
        request_timeout_secs: 30,
    });
    assert_eq!(c.validate(), Err(ConfigError::EmptyTelegramToken));
    c.telegram = None;
    c.discord = Some(DiscordInterfaceConfig { bot_token: "b".to_string(), application_id: String::new(), guild_id: None });
    assert_eq!(c.validate(), Err(ConfigError::EmptyDiscordApplicationId));
    assert_eq!(ConfigError::EmptyDiscordApplicationId.message(), "Discord application_id cannot be empty");
    c.discord = None;
    assert_eq!(c.validate(), Ok(()));
}

#[test]
fn config_format_needs_a_known_extension() {
    assert_eq!(config_format_for_extension(Some("yml")), Ok(ConfigFormat::Yaml));
    assert_eq!(config_format_for_extension(None), Err(ConfigFormatError::NoExtension));
    assert_eq!(
        config_format_for_extension(Some("ini")),
        Err(ConfigFormatError::Unsupported("ini".to_string()))
    );
}

fn llm() -> LLMConfig {
    LLMConfig {
        provider: "ollama".to_string(),
        api_base: "http://localhost:11434".to_string(),
        api_key: None,
        model: Some("qwen3:4b".to_string()),
    }
}

#[test]
fn command_line_config_fills_defaults() {
    let mut args = no_args();
    args.agent = Some(CliAgent::Llama);
    args.interface = Some(CliInterface::Web);
    let c = create_default_config_from_cli(&args, &[], &llm());
    assert_eq!(c.agent.agent_type, AgentType::Llama);
    assert_eq!(c.agent.model, "qwen3:4b");
    assert_eq!(c.interface, InterfaceType::Web);
    assert!(!c.no_stream);
    assert!(c.mcp.tools.is_empty());
}

#[test]
fn command_line_wins_over_the_file() {
    let mut file = OxideConfig::default();
    file.session = Some("from-file".to_string());
    file.no_stream = true;
    file.mcp.server = Some("http://file".to_string());
    let base = create_default_config_from_cli(&no_args(), &[], &llm());
    let mut args = no_args();
    args.session = Some("from-cli".to_string());
    let merged = merge_configs(Some(file), base, &args, &[]);
    assert_eq!(merged.session, Some("from-cli".to_string()));
    assert!(merged.no_stream);
    assert_eq!(merged.mcp.server, Some("http://file".to_string()));
    let base = create_default_config_from_cli(&no_args(), &[], &llm());
    let kept = merge_configs(None, base, &args, &[]);
    assert_eq!(kept.session, None);
}

#[test]
fn command_line_llm_settings_win_over_the_file() {
    let mut file = OxideConfig::default();
    file.llm.provider = "file-provider".to_string();
    file.llm.api_base = "http://file:11434".to_string();
    file.llm.model = Some("file-model".to_string());
    file.llm.api_key = Some("file-key".to_string());
    let mut args = no_args();
    args.llm_api_base = Some("http://cli:11434".to_string());
    args.llm_model = Some("cli-model".to_string());
    let base = create_default_config_from_cli(&args, &[], &llm());
    let merged = merge_configs(Some(file), base, &args, &[]);
    assert_eq!(merged.llm.api_base, "http://cli:11434");
    assert_eq!(merged.llm.model, Some("cli-model".to_string()));
    assert_eq!(merged.llm.api_key, Some("file-key".to_string()));
    assert_eq!(merged.llm.provider, "file-provider");
}
