//! OxideAgent: a local-first AI agent.
//!
//! This crate holds the decision logic of the agent: configuration and its
//! validation, session and permission bookkeeping, tool-approval rules, the
//! MCP server launch plans and protocol response handling, the stream parser
//! of model output, and the state machines of the agent task, the orchestrator
//! and the terminal interface. Terminal, network and file work is done by the
//! program around it.

pub mod adapters;
pub mod agent_task;
pub mod agents;
pub mod capabilities;
pub mod cli;
pub mod config;
pub mod events;
pub mod json;
pub mod mocks;
pub mod launcher;
pub mod mcp_config;
pub mod mcp_protocol;
pub mod ollama;
pub mod orchestrator;
pub mod session;
pub mod status_table;
pub mod switcher;
pub mod text;
pub mod tool_approval;
pub mod tool_permissions;
pub mod tools;
pub mod tui_layout;
pub mod tui_messages;
pub mod tui_state;
pub mod types;
