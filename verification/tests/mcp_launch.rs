use oxide_agent::launcher::{container_id_from_output, LaunchError, McpLauncher, McpProcess, RequiredTool};
use oxide_agent::mcp_config::{env_value, McpServerConfig, McpServerType};

fn s(x: &str) -> String {
    x.to_string()
}

#[test]
fn test_mcp_server_config_docker() {
    let config = McpServerConfig {
        name: s("test-docker"),
        description: Some(s("Test Docker server")),
        server_type: McpServerType::Docker {
            image: s("some-image:latest"),
            command: Some(vec![s("start")]),
            ports: Some(vec![s("3000:3000")]),
            volumes: Some(vec![s("/tmp:/tmp")]),
            environment: Some(vec![(s("ENV_VAR"), s("value"))]),
        },
        auto_start: Some(true),
        environment: None,
    };
    match &config.server_type {
        McpServerType::Docker { image, .. } => {
            assert_eq!(image, "some-image:latest");
        }
        _ => panic!("Expected Docker server type"),
    }
}

#[test]
fn test_mcp_server_config_npm() {
    let config = McpServerConfig {
        name: s("test-npm"),
        description: Some(s("Test NPM server")),
        server_type: McpServerType::Npm {
            package: s("@modelcontextprotocol/test-server"),
            command: Some(s("start")),
            args: Some(vec![s("--port"), s("3000")]),
            environment: Some(vec![(s("NODE_ENV"), s("test"))]),
        },
        auto_start: Some(true),
        environment: None,
    };
    match &config.server_type {
        McpServerType::Npm { package, .. } => {
            assert_eq!(package, "@modelcontextprotocol/test-server");
        }
        _ => panic!("Expected NPM server type"),
    }
}

#[test]
fn test_mcp_server_config_command() {
    let config = McpServerConfig {
        name: s("test-command"),
        description: Some(s("Test command server")),
        server_type: McpServerType::Command {
            command: s("cargo"),
            args: Some(vec![s("run")]),
            environment: Some(vec![(s("RUST_LOG"), s("debug"))]),
            working_directory: Some(s("/tmp")),
        },
        auto_start: Some(true),
        environment: None,
    };
    match &config.server_type {
        McpServerType::Command { command, .. } => {
            assert_eq!(command, "cargo");
        }
        _ => panic!("Expected Command server type"),
    }
}

#[test]
fn test_environment_variable_parsing() {
    let env_map = vec![(s("TEST_VAR"), s("test_value")), (s("ANOTHER_VAR"), s("another_value"))];
    assert_eq!(env_value(&env_map, "TEST_VAR"), Some(&s("test_value")));
    assert_eq!(env_value(&env_map, "ANOTHER_VAR"), Some(&s("another_value")));
    assert_eq!(env_map.len(), 2);
}

#[test]
fn test_environment_variable_application() {
    let env_map = vec![(s("OXIDE_TEST_VAR"), s("test_value")), (s("OXIDE_ANOTHER_VAR"), s("another_value"))];
    let config = McpServerConfig {
        name: s("env"),
        description: None,
        server_type: McpServerType::Command {
            command: s("env"),
            args: None,
            environment: Some(env_map.clone()),
            working_directory: None,
        },
        auto_start: None,
        environment: None,
    };
    let plan = McpLauncher::plan(&config).unwrap();
    assert_eq!(env_value(&plan.env, "OXIDE_TEST_VAR"), Some(&s("test_value")));
    assert_eq!(env_value(&plan.env, "OXIDE_ANOTHER_VAR"), Some(&s("another_value")));
}

#[test]
fn test_mcp_process_struct_fields() {
    let pid_field: u32 = 1234;
    let command_field = "test_command".to_string();
    let args_field = vec!["arg1".to_string(), "arg2".to_string()];
    let container_id_field = Some("test_container_id".to_string());
    let process = McpProcess {
        pid: pid_field,
        command: command_field.clone(),
        args: args_field.clone(),
        container_id: container_id_field.clone(),
    };
    assert_eq!(process.pid, 1234);
    assert_eq!(process.command, "test_command");
    assert_eq!(process.args, vec!["arg1".to_string(), "arg2".to_string()]);
    assert_eq!(process.container_id, Some("test_container_id".to_string()));
}

#[test]
fn test_config_parsing_various_types() {
    let docker_config = McpServerConfig {
        name: s("docker-test"),
        description: Some(s("Docker test")),
        server_type: McpServerType::Docker {
            image: s("test:latest"),
            command: None,
            ports: None,
            volumes: None,
            environment: None,
        },
        auto_start: None,
        environment: None,
    };
    match docker_config.server_type {
        McpServerType::Docker { image, .. } => assert_eq!(image, "test:latest"),
        _ => panic!("Expected Docker config type"),
    }

    let npm_config = McpServerConfig {
        name: s("npm-test"),
        description: Some(s("NPM test")),
        server_type: McpServerType::Npm { package: s("test-package"), command: None, args: None, environment: None },
        auto_start: None,
        environment: None,
    };
    match npm_config.server_type {
        McpServerType::Npm { package, .. } => assert_eq!(package, "test-package"),
        _ => panic!("Expected NPM config type"),
    }

    let command_config = McpServerConfig {
        name: s("command-test"),
        description: Some(s("Command test")),
        server_type: McpServerType::Command {
            command: s("test-command"),
            args: None,
            environment: None,
            working_directory: None,
        },
        auto_start: None,
        environment: None,
    };
    match command_config.server_type {
        McpServerType::Command { command, .. } => assert_eq!(command, "test-command"),
        _ => panic!("Expected Command config type"),
    }
}

#[test]
fn test_launch_with_remote_config() {
    let config = McpServerConfig {
        name: s("test-remote"),
        description: Some(s("Test remote server")),
        server_type: McpServerType::Remote {
            url: s("http://example.com"),
            access_token: Some(s("token")),
            api_key: None,
        },
        auto_start: Some(true),
        environment: None,
    };
    let result = McpLauncher::plan(&config);
    assert!(result.is_err());
    let error = result.err().unwrap();
    assert_eq!(error, LaunchError::RemoteServer);
    assert!(error.message().contains("don't need to be launched locally"));
}

#[test]
fn docker_plan_lists_every_flag_in_order() {
    let config = McpServerConfig {
        name: s("test-docker"),
        description: Some(s("Test Docker server")),
        server_type: McpServerType::Docker {
            image: s("alpine:latest"),
            command: Some(vec![s("echo"), s("hello")]),
            ports: Some(vec![s("3000:3000")]),
            volumes: Some(vec![s("/tmp:/tmp")]),
            environment: Some(vec![(s("ENV_VAR"), s("value"))]),
        },
        auto_start: Some(true),
        environment: None,
    };
    let plan = McpLauncher::plan(&config).unwrap();
    assert_eq!(plan.program, "docker");
    assert_eq!(
        plan.args,
        vec!["run", "-p", "3000:3000", "-v", "/tmp:/tmp", "-e", "ENV_VAR=value", "-d", "alpine:latest", "echo", "hello"]
    );
    assert!(plan.env.is_empty());
    assert_eq!(plan.requires, Some(RequiredTool::Docker));
    assert!(plan.detached_container);
    assert_eq!(plan.process_command, "docker run alpine:latest");
    assert!(plan.process_args.is_empty());
    let process = McpProcess::started(&plan, 4321, Some(s("abc123")));
    assert_eq!(process.pid, 0);
    assert_eq!(process.container_id, Some(s("abc123")));
}

#[test]
fn npm_plan_runs_the_package_with_npx() {
    let config = McpServerConfig {
        name: s("test-npm"),
        description: Some(s("Test NPM server")),
        server_type: McpServerType::Npm {
            package: s("@modelcontextprotocol/test-server"),
            command: Some(s("start")),
            args: Some(vec![s("--port"), s("3000")]),
            environment: Some(vec![(s("NODE_ENV"), s("test"))]),
        },
        auto_start: Some(true),
        environment: None,
    };
    let plan = McpLauncher::plan(&config).unwrap();
    assert_eq!(plan.program, "npx");
    assert_eq!(plan.args, vec!["--yes", "@modelcontextprotocol/test-server", "start", "--port", "3000"]);
    assert_eq!(plan.env, vec![(s("NODE_ENV"), s("test"))]);
    assert_eq!(plan.requires, Some(RequiredTool::Npx));
    assert_eq!(plan.process_command, "npx @modelcontextprotocol/test-server");
    assert_eq!(plan.process_args, vec!["--port", "3000"]);
    let process = McpProcess::started(&plan, 77, None);
    assert_eq!(process.pid, 77);
    assert_eq!(process.args, vec!["--port", "3000"]);
    assert!(process.container_id.is_none());
}

#[test]
fn uvx_command_is_checked_and_ignores_the_directory() {
    let config = McpServerConfig {
        name: s("test-uvx"),
        description: Some(s("Test UVX server")),
        server_type: McpServerType::Command {
            command: s("uvx"),
            args: Some(vec![s("--help")]),
            environment: Some(vec![(s("UVX_VAR"), s("value"))]),
            working_directory: Some(s("/tmp")),
        },
        auto_start: Some(true),
        environment: None,
    };
    let plan = McpLauncher::plan(&config).unwrap();
    assert_eq!(plan.program, "uvx");
    assert_eq!(plan.args, vec!["--help"]);
    assert_eq!(plan.requires, Some(RequiredTool::Uvx));
    assert!(plan.working_directory.is_none());
}

#[test]
fn command_plan_keeps_the_directory() {
    let config = McpServerConfig {
        name: s("test-command"),
        description: Some(s("Test command server")),
        server_type: McpServerType::Command {
            command: s("echo"),
            args: Some(vec![s("hello")]),
            environment: Some(vec![(s("TEST_VAR"), s("test_value"))]),
            working_directory: Some(s("/tmp")),
        },
        auto_start: Some(true),
        environment: None,
    };
    let plan = McpLauncher::plan(&config).unwrap();
    assert_eq!(plan.program, "echo");
    assert_eq!(plan.args, vec!["hello"]);
    assert_eq!(plan.requires, None);
    assert_eq!(plan.working_directory, Some(s("/tmp")));
    let stdio = McpLauncher::stdio_plan(&config).unwrap();
    assert_eq!(stdio.working_directory, Some(s("/tmp")));
    let remote = McpServerConfig {
        name: s("r"),
        description: None,
        server_type: McpServerType::Remote { url: s("http://x"), access_token: None, api_key: None },
        auto_start: None,
        environment: None,
    };
    assert!(McpLauncher::stdio_plan(&remote).is_none());
}

#[test]
fn uvx_package_plan_puts_the_package_first() {
    let plan = McpLauncher::uvx_package_plan("mcp-server-time", &Some(vec![s("--local")]), &None);
    assert_eq!(plan.program, "uvx");
    assert_eq!(plan.args, vec!["mcp-server-time", "--local"]);
    assert_eq!(plan.process_command, "uvx mcp-server-time");
}

#[test]
fn container_id_is_trimmed_output() {
    assert_eq!(container_id_from_output("db", "  abc123\n"), Ok(s("abc123")));
    assert_eq!(
        container_id_from_output("db", " \n"),
        Err(s("Failed to get container ID for MCP server 'db'"))
    );
}
