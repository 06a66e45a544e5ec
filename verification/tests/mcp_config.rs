use oxide_agent::config::{ConfigFormat, MCPConfig, MCPToolConfig};
use oxide_agent::mcp_config::{
    connection_id, remote_server_config, server_config_for_tool, McpConfigFile, McpServerConfig, McpServerType,
};

fn server(name: &str, command: &str) -> McpServerConfig {
    McpServerConfig {
        name: name.to_string(),
        description: None,
        server_type: McpServerType::Command {
            command: command.to_string(),
            args: None,
            environment: None,
            working_directory: None,
        },
        auto_start: None,
        environment: None,
    }
}

fn command_of(c: &McpServerConfig) -> &str {
    match &c.server_type {
        McpServerType::Command { command, .. } => command,
        _ => panic!("Expected Command server type"),
    }
}

#[test]
fn new_configuration_is_empty_version_one() {
    let file = McpConfigFile::new();
    assert_eq!(file.version, "1.0");
    assert!(file.servers.is_empty());
    let d = McpConfigFile::default();
    assert_eq!(d.version, "1.0");
    assert!(d.list_server_names().is_empty());
}

#[test]
fn added_server_is_found_and_listed() {
    let mut file = McpConfigFile::new();
    file.add_server(server("alpha", "a"));
    file.add_server(server("beta", "b"));
    assert_eq!(command_of(file.get_server("beta").unwrap()), "b");
    assert!(file.get_server("gamma").is_none());
    assert_eq!(file.list_server_names(), vec!["alpha".to_string(), "beta".to_string()]);
}

#[test]
fn lookup_finds_the_first_of_a_name() {
    let mut file = McpConfigFile::new();
    file.add_server(server("dup", "first"));
    file.add_server(server("dup", "second"));
    assert_eq!(command_of(file.get_server("dup").unwrap()), "first");
}

#[test]
fn removal_takes_every_server_of_the_name() {
    let mut file = McpConfigFile::new();
    file.add_server(server("dup", "first"));
    file.add_server(server("keep", "k"));
    file.add_server(server("dup", "second"));
    assert!(file.remove_server("dup"));
    assert!(file.get_server("dup").is_none());
    assert_eq!(file.list_server_names(), vec!["keep".to_string()]);
    assert!(!file.remove_server("dup"));
    assert_eq!(file.servers.len(), 1);
}

#[test]
fn file_formats_follow_the_extension() {
    assert_eq!(McpConfigFile::load_format(None), Ok(ConfigFormat::Json));
    assert_eq!(McpConfigFile::load_format(Some("json")), Ok(ConfigFormat::Json));
    assert_eq!(McpConfigFile::load_format(Some("toml")), Ok(ConfigFormat::Toml));
    assert_eq!(McpConfigFile::load_format(Some("yml")), Ok(ConfigFormat::Yaml));
    assert_eq!(McpConfigFile::load_format(Some("yaml")), Ok(ConfigFormat::Yaml));
    assert_eq!(
        McpConfigFile::load_format(Some("ini")),
        Err("Unsupported configuration file format: ini".to_string())
    );
    assert_eq!(McpConfigFile::save_format(Some("ini")), ConfigFormat::Json);
    assert_eq!(McpConfigFile::save_format(None), ConfigFormat::Json);
    assert_eq!(McpConfigFile::save_format(Some("toml")), ConfigFormat::Toml);
    assert_eq!(McpConfigFile::save_format(Some("yaml")), ConfigFormat::Yaml);
}

#[test]
fn tool_servers_are_command_servers() {
    let tool = MCPToolConfig {
        name: "files".to_string(),
        command: "mcp-files".to_string(),
        args: vec!["--root".to_string(), "/".to_string()],
        requires_approval: true,
    };
    let c = server_config_for_tool(&tool);
    assert_eq!(c.name, "files");
    assert_eq!(c.description, Some("MCP server for files".to_string()));
    assert_eq!(c.auto_start, Some(true));
    match c.server_type {
        McpServerType::Command { command, args, environment, working_directory } => {
            assert_eq!(command, "mcp-files");
            assert_eq!(args, Some(vec!["--root".to_string(), "/".to_string()]));
            assert!(environment.is_none());
            assert!(working_directory.is_none());
        }
        _ => panic!("Expected Command server type"),
    }
    assert_eq!(connection_id("files"), "files_connection");
}

#[test]
fn remote_server_comes_from_the_configured_url() {
    let mcp = MCPConfig { server: None, auth_token: None, tools: Vec::new() };
    assert!(remote_server_config(&mcp).is_none());
    let mcp = MCPConfig {
        server: Some("http://localhost:9000".to_string()),
        auth_token: Some("secret".to_string()),
        tools: Vec::new(),
    };
    let c = remote_server_config(&mcp).unwrap();
    assert_eq!(c.name, "remote_mcp_server");
    assert_eq!(c.description, Some("Remote MCP server at http://localhost:9000".to_string()));
    match c.server_type {
        McpServerType::Remote { url, access_token, api_key } => {
            assert_eq!(url, "http://localhost:9000");
            assert_eq!(access_token, Some("secret".to_string()));
            assert!(api_key.is_none());
        }
        _ => panic!("Expected Remote server type"),
    }
}
