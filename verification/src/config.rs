//! Configuration of the agent: its parts, their defaults, the rules a
//! configuration must meet, the choice of a file format, and how the
//! command line and a configuration file are combined.

use vstd::prelude::*;
use crate::cli;
use crate::cli::{agent_display_name, agent_prompt};
use crate::text::{all_ws, contains_str, is_blank, occurs_in, str_eq, to_owned_string};

verus! {

/// Agent configuration.
#[derive(Debug, PartialEq, Eq)]
pub struct AgentConfig {
    pub agent_type: AgentType,
    pub model: String,
    pub name: String,
    pub system_prompt: String,
}

/// Multi-agent mode configuration.
#[derive(Debug, PartialEq, Eq)]
pub struct MultiAgentConfig {
    pub enabled: bool,
    pub max_agents: usize,
    pub default_agents: Vec<AgentConfig>,
}

/// MCP (Model Context Protocol) configuration.
#[derive(Debug, PartialEq, Eq)]
pub struct MCPConfig {
    pub server: Option<String>,
    pub auth_token: Option<String>,
    pub tools: Vec<MCPToolConfig>,
}

/// An MCP tool server started by command.
#[derive(Debug, PartialEq, Eq)]
pub struct MCPToolConfig {
    pub name: String,
    pub command: String,
    pub args: Vec<String>,
    pub requires_approval: bool,
}

/// Agent types.
#[derive(Debug, Clone, Copy, PartialEq, Eq, Structural)]
pub enum AgentType {
    Qwen,
    Llama,
    Granite,
}

/// Interface types.
#[derive(Debug, Clone, Copy, PartialEq, Eq, Structural)]
pub enum InterfaceType {
    Tui,
    Web,
    Telegram,
    Discord,
}

/// LLM provider configuration.
#[derive(Debug, PartialEq, Eq)]
pub struct LLMConfig {
    pub provider: String,
    pub api_base: String,
    pub api_key: Option<String>,
    pub model: Option<String>,
}

/// Web interface configuration.
#[derive(Debug, PartialEq, Eq)]
pub struct WebInterfaceConfig {
    pub host: String,
    pub port: u16,
    pub auth_token: Option<String>,
    pub enable_cors: bool,
    pub max_payload_bytes: usize,
}

/// Telegram interface configuration.
#[derive(Debug, PartialEq, Eq)]
pub struct TelegramInterfaceConfig {
    pub bot_token: String,
    pub polling_interval_ms: u64,
    pub request_timeout_secs: u64,
}

/// Discord interface configuration.
#[derive(Debug, PartialEq, Eq)]
pub struct DiscordInterfaceConfig {
    pub bot_token: String,
    pub application_id: String,
    pub guild_id: Option<String>,
}

/// Application configuration.
#[derive(Debug, PartialEq, Eq)]
pub struct OxideConfig {
    pub agent: AgentConfig,
    pub multi_agent: MultiAgentConfig,
    pub mcp: MCPConfig,
    pub no_stream: bool,
    pub session: Option<String>,
    pub list_sessions: bool,
    pub interface: InterfaceType,
    pub llm: LLMConfig,
    pub web: Option<WebInterfaceConfig>,
    pub telegram: Option<TelegramInterfaceConfig>,
    pub discord: Option<DiscordInterfaceConfig>,
}

fn copy_opt_string(o: &Option<String>) -> (r: Option<String>)
    ensures
        r == *o,
{
    match o {
        Some(s) => Some(s.clone()),
        None => None,
    }
}

impl Clone for LLMConfig {
    fn clone(&self) -> (r: Self)
        ensures
            r == *self,
    {
        LLMConfig {
            provider: self.provider.clone(),
            api_base: self.api_base.clone(),
            api_key: copy_opt_string(&self.api_key),
            model: copy_opt_string(&self.model),
        }
    }
}

impl Default for AgentType {
    fn default() -> (r: Self)
        ensures
            r == AgentType::Qwen,
    {
        AgentType::Qwen
    }
}

impl Default for InterfaceType {
    fn default() -> (r: Self)
        ensures
            r == InterfaceType::Tui,
    {
        InterfaceType::Tui
    }
}

impl Default for AgentConfig {
    fn default() -> (r: Self)
        ensures
            r.agent_type == AgentType::Qwen,
            r.model@.len() == 0,
            r.name@.len() == 0,
            r.system_prompt@.len() == 0,
    {
        AgentConfig {
            agent_type: AgentType::Qwen,
            model: String::new(),
            name: String::new(),
            system_prompt: String::new(),
        }
    }
}

impl Default for MultiAgentConfig {
    fn default() -> (r: Self)
        ensures
            !r.enabled,
            r.max_agents == 0,
            r.default_agents@.len() == 0,
    {
        MultiAgentConfig { enabled: false, max_agents: 0, default_agents: Vec::new() }
    }
}

impl Default for MCPConfig {
    fn default() -> (r: Self)
        ensures
            r.server is None,
            r.auth_token is None,
            r.tools@.len() == 0,
    {
        MCPConfig { server: None, auth_token: None, tools: Vec::new() }
    }
}

impl Default for LLMConfig {
    fn default() -> (r: Self)
        ensures
            r.provider@.len() == 0,
            r.api_base@.len() == 0,
            r.api_key is None,
            r.model is None,
    {
        LLMConfig { provider: String::new(), api_base: String::new(), api_key: None, model: None }
    }
}

impl Default for WebInterfaceConfig {
    fn default() -> (r: Self)
        ensures
            r.host@ == "127.0.0.1"@,
            r.port == 8080,
            r.auth_token is None,
            !r.enable_cors,
            r.max_payload_bytes == 1024 * 1024,
    {
        WebInterfaceConfig {
            host: default_web_host(),
            port: default_web_port(),
            auth_token: None,
            enable_cors: false,
            max_payload_bytes: default_web_max_payload_bytes(),
        }
    }
}

impl Default for OxideConfig {
    fn default() -> (r: Self)
        ensures
            r.agent.agent_type == AgentType::Qwen,
            r.agent.model@.len() == 0,
            r.agent.name@.len() == 0,
            r.agent.system_prompt@.len() == 0,
            !r.multi_agent.enabled,
            r.multi_agent.max_agents == 0,
            r.multi_agent.default_agents@.len() == 0,
            r.mcp.server is None,
            r.mcp.auth_token is None,
            r.mcp.tools@.len() == 0,
            !r.no_stream,
            r.session is None,
            !r.list_sessions,
            r.interface == InterfaceType::Tui,
            r.llm.provider@.len() == 0,
            r.llm.api_base@.len() == 0,
            r.llm.api_key is None,
            r.llm.model is None,
            r.web is None,
            r.telegram is None,
            r.discord is None,
    {
        OxideConfig {
            agent: AgentConfig::default(),
            multi_agent: MultiAgentConfig::default(),
            mcp: MCPConfig::default(),
            no_stream: false,
            session: None,
            list_sessions: false,
            interface: InterfaceType::Tui,
            llm: LLMConfig::default(),
            web: None,
            telegram: None,
            discord: None,
        }
    }
}

/// The interface type selected on the command line.
pub open spec fn interface_from_cli(t: cli::InterfaceType) -> InterfaceType {
    match t {
        cli::InterfaceType::Tui => InterfaceType::Tui,
        cli::InterfaceType::Web => InterfaceType::Web,
        cli::InterfaceType::Telegram => InterfaceType::Telegram,
        cli::InterfaceType::Discord => InterfaceType::Discord,
    }
}

/// The agent type selected on the command line.
pub open spec fn agent_type_from_cli(t: cli::AgentType) -> AgentType {
    match t {
        cli::AgentType::Qwen => AgentType::Qwen,
        cli::AgentType::Llama => AgentType::Llama,
        cli::AgentType::Granite => AgentType::Granite,
    }
}

impl From<cli::InterfaceType> for InterfaceType {
    fn from(cli_type: cli::InterfaceType) -> (r: Self) {
        match cli_type {
            cli::InterfaceType::Tui => InterfaceType::Tui,
            cli::InterfaceType::Web => InterfaceType::Web,
            cli::InterfaceType::Telegram => InterfaceType::Telegram,
            cli::InterfaceType::Discord => InterfaceType::Discord,
        }
    }
}

impl vstd::std_specs::convert::FromSpecImpl<cli::InterfaceType> for InterfaceType {
    open spec fn obeys_from_spec() -> bool {
        true
    }

    open spec fn from_spec(v: cli::InterfaceType) -> Self {
        interface_from_cli(v)
    }
}

fn agent_type_of(t: cli::AgentType) -> (r: AgentType)
    ensures
        r == agent_type_from_cli(t),
{
    match t {
        cli::AgentType::Qwen => AgentType::Qwen,
        cli::AgentType::Llama => AgentType::Llama,
        cli::AgentType::Granite => AgentType::Granite,
    }
}

/// Default model name: empty.
pub fn default_model() -> (r: String)
    ensures
        r@ == Seq::<char>::empty(),
{
    String::new()
}

/// Default agent name.
pub fn default_name() -> (r: String)
    ensures
        r@ == "Qwen"@,
{
    String::from_str("Qwen")
}

/// Default system prompt.
pub fn default_system_prompt() -> (r: String)
    ensures
        r@ == "You are a Rust programming expert."@,
{
    String::from_str("You are a Rust programming expert.")
}

/// Default LLM provider.
pub fn default_provider() -> (r: String)
    ensures
        r@ == "ollama"@,
{
    String::from_str("ollama")
}

/// Default LLM API base URL.
pub fn default_api_base() -> (r: String)
    ensures
        r@ == "http://localhost:11434"@,
{
    String::from_str("http://localhost:11434")
}

/// Default maximum number of agents.
pub fn default_max_agents() -> (r: usize)
    ensures
        r == 5,
{
    5
}

/// Default web bind host.
pub fn default_web_host() -> (r: String)
    ensures
        r@ == "127.0.0.1"@,
{
    String::from_str("127.0.0.1")
}

/// Default web bind port.
pub fn default_web_port() -> (r: u16)
    ensures
        r == 8080,
{
    8080
}

/// Default maximum web payload: one mebibyte.
pub fn default_web_max_payload_bytes() -> (r: usize)
    ensures
        r == 1024 * 1024,
{
    1024 * 1024
}

/// Default Telegram polling interval in milliseconds.
pub fn default_telegram_polling_interval_ms() -> (r: u64)
    ensures
        r == 1000,
{
    1000
}

/// Default Telegram request timeout in seconds.
pub fn default_telegram_request_timeout_secs() -> (r: u64)
    ensures
        r == 30,
{
    30
}

/// Why a configuration is refused.
#[derive(Debug, Clone, Copy, PartialEq, Eq, Structural)]
pub enum ConfigError {
    McpServerWithoutToken,
    EmptySessionName,
    InvalidSessionName,
    ZeroWebPort,
    ZeroWebPayloadLimit,
    EmptyTelegramToken,
    EmptyDiscordToken,
    EmptyDiscordApplicationId,
}

/// The message shown for each refusal.
pub open spec fn config_error_message(e: ConfigError) -> Seq<char> {
    match e {
        ConfigError::McpServerWithoutToken => "MCP server specified but no auth token provided"@,
        ConfigError::EmptySessionName => "Session name cannot be empty"@,
        ConfigError::InvalidSessionName => "Session name contains invalid characters"@,
        ConfigError::ZeroWebPort => "Web interface port must be greater than 0"@,
        ConfigError::ZeroWebPayloadLimit => "Web interface max_payload_bytes must be greater than 0"@,
        ConfigError::EmptyTelegramToken => "Telegram bot_token cannot be empty"@,
        ConfigError::EmptyDiscordToken => "Discord bot_token cannot be empty"@,
        ConfigError::EmptyDiscordApplicationId => "Discord application_id cannot be empty"@,
    }
}

impl ConfigError {
    /// The message shown for this refusal.
    pub fn message(&self) -> (r: &'static str)
        ensures
            r@ == config_error_message(*self),
    {
        match self {
            ConfigError::McpServerWithoutToken => "MCP server specified but no auth token provided",
            ConfigError::EmptySessionName => "Session name cannot be empty",
            ConfigError::InvalidSessionName => "Session name contains invalid characters",
            ConfigError::ZeroWebPort => "Web interface port must be greater than 0",
            ConfigError::ZeroWebPayloadLimit => "Web interface max_payload_bytes must be greater than 0",
            ConfigError::EmptyTelegramToken => "Telegram bot_token cannot be empty",
            ConfigError::EmptyDiscordToken => "Discord bot_token cannot be empty",
            ConfigError::EmptyDiscordApplicationId => "Discord application_id cannot be empty",
        }
    }
}

/// A session name may not hold a path separator or a colon.
pub open spec fn has_forbidden_session_char(s: Seq<char>) -> bool {
    occurs_in(s, "/"@) || occurs_in(s, "\\"@) || occurs_in(s, ":"@)
}

/// The first rule that a configuration breaks, in the order they are
/// checked; `None` when it meets them all.
pub open spec fn config_error(c: OxideConfig) -> Option<ConfigError> {
    if c.mcp.server is Some && c.mcp.auth_token is None {
        Some(ConfigError::McpServerWithoutToken)
    } else if c.session is Some && c.session->0@.len() == 0 {
        Some(ConfigError::EmptySessionName)
    } else if c.session is Some && has_forbidden_session_char(c.session->0@) {
        Some(ConfigError::InvalidSessionName)
    } else if c.web is Some && c.web->0.port == 0 {
        Some(ConfigError::ZeroWebPort)
    } else if c.web is Some && c.web->0.max_payload_bytes == 0 {
        Some(ConfigError::ZeroWebPayloadLimit)
    } else if c.telegram is Some && all_ws(c.telegram->0.bot_token@) {
        Some(ConfigError::EmptyTelegramToken)
    } else if c.discord is Some && all_ws(c.discord->0.bot_token@) {
        Some(ConfigError::EmptyDiscordToken)
    } else if c.discord is Some && all_ws(c.discord->0.application_id@) {
        Some(ConfigError::EmptyDiscordApplicationId)
    } else {
        None
    }
}

impl OxideConfig {
    /// Checks the configuration: it is refused with the first rule it
    /// breaks, and accepted when it breaks none.
    pub fn validate(&self) -> (r: Result<(), ConfigError>)
        ensures
            r is Ok <==> config_error(*self) is None,
            r matches Err(e) ==> config_error(*self) == Some(e),
    {
        if self.mcp.server.is_some() && self.mcp.auth_token.is_none() {
            return Err(ConfigError::McpServerWithoutToken);
        }
        if let Some(session) = &self.session {
            if session.as_str().unicode_len() == 0 {
                return Err(ConfigError::EmptySessionName);
            }
            if contains_str(session.as_str(), "/") || contains_str(session.as_str(), "\\")
                || contains_str(session.as_str(), ":") {
                return Err(ConfigError::InvalidSessionName);
            }
        }
        if let Some(web) = &self.web {
            if web.port == 0 {
                return Err(ConfigError::ZeroWebPort);
            }
            if web.max_payload_bytes == 0 {
                return Err(ConfigError::ZeroWebPayloadLimit);
            }
        }
        if let Some(telegram) = &self.telegram {
            if is_blank(telegram.bot_token.as_str()) {
                return Err(ConfigError::EmptyTelegramToken);
            }
        }
        if let Some(discord) = &self.discord {
            if is_blank(discord.bot_token.as_str()) {
                return Err(ConfigError::EmptyDiscordToken);
            }
            if is_blank(discord.application_id.as_str()) {
                return Err(ConfigError::EmptyDiscordApplicationId);
            }
        }
        Ok(())
    }
}

/// A character that a session name may not hold: a path separator or a
/// colon.
pub open spec fn forbidden_in_session_name(ch: char) -> bool {
    ch == '/' || ch == '\\' || ch == ':'
}

proof fn lemma_single_char_occurs(s: Seq<char>, p: Seq<char>)
    requires
        p.len() == 1,
    ensures
        occurs_in(s, p) <==> exists|i: int| 0 <= i < s.len() && #[trigger] s[i] == p[0],
{
    if occurs_in(s, p) {
        let j = choose|j: int| crate::text::occurs_at(s, p, j);
        assert(s.subrange(j, j + 1)[0] == s[j]);
    }
    if exists|i: int| 0 <= i < s.len() && #[trigger] s[i] == p[0] {
        let i = choose|i: int| 0 <= i < s.len() && #[trigger] s[i] == p[0];
        assert(s.subrange(i, i + 1) =~= p);
        assert(crate::text::occurs_at(s, p, i));
    }
}

/// A session name is refused for holding `/`, `\` or `:` (once the MCP
/// settings pass), and never for any other character: a name of other
/// characters that is not empty passes the session rules.
pub proof fn lemma_session_name_characters(c: OxideConfig)
    requires
        c.session is Some,
        c.mcp.server is None || c.mcp.auth_token is Some,
    ensures
        (exists|i: int| 0 <= i < c.session->0@.len() && forbidden_in_session_name(#[trigger] c.session->0@[i]))
            ==> config_error(c) == Some(ConfigError::InvalidSessionName),
        (forall|i: int| 0 <= i < c.session->0@.len() ==> !forbidden_in_session_name(#[trigger] c.session->0@[i]))
            && c.session->0@.len() > 0 ==> config_error(c) != Some(ConfigError::InvalidSessionName)
            && config_error(c) != Some(ConfigError::EmptySessionName),
{
    reveal_strlit("/");
    reveal_strlit("\\");
    reveal_strlit(":");
    let s = c.session->0@;
    lemma_single_char_occurs(s, "/"@);
    lemma_single_char_occurs(s, "\\"@);
    lemma_single_char_occurs(s, ":"@);
    if exists|i: int| 0 <= i < s.len() && forbidden_in_session_name(#[trigger] s[i]) {
        let i = choose|i: int| 0 <= i < s.len() && forbidden_in_session_name(#[trigger] s[i]);
        assert(s.len() > 0);
        assert(has_forbidden_session_char(s));
    }
}

/// Command-line settings win over the file: each setting given on the
/// command line is taken from it, each one not given is taken from the
/// file; the MCP tools and the LLM provider come from the file; without a
/// file the command-line configuration is kept as it is.
pub proof fn lemma_command_line_wins(file: Option<OxideConfig>, base: OxideConfig, args: cli::Args, r: OxideConfig)
    requires
        merged_config(file, base, args, r),
    ensures
        file is None ==> r == base,
        file matches Some(f) ==> (args.interface is None ==> r.interface == f.interface),
        file is Some ==> (args.interface == Some(cli::InterfaceType::Tui) ==> r.interface == InterfaceType::Tui),
        file is Some ==> (args.interface == Some(cli::InterfaceType::Web) ==> r.interface == InterfaceType::Web),
        file is Some ==> (args.interface == Some(cli::InterfaceType::Telegram) ==> r.interface
            == InterfaceType::Telegram),
        file is Some ==> (args.interface == Some(cli::InterfaceType::Discord) ==> r.interface
            == InterfaceType::Discord),
        file matches Some(f) ==> (args.session is None ==> r.session == f.session),
        file is Some ==> (args.session is Some ==> r.session == args.session),
        file matches Some(f) ==> (args.no_stream is None ==> r.no_stream == f.no_stream),
        file is Some ==> (args.no_stream matches Some(b) ==> r.no_stream == b),
        file matches Some(f) ==> (args.list_sessions is None ==> r.list_sessions == f.list_sessions),
        file is Some ==> (args.list_sessions matches Some(b) ==> r.list_sessions == b),
        file matches Some(f) ==> (args.mcp_server is None ==> r.mcp.server == f.mcp.server),
        file is Some ==> (args.mcp_server is Some ==> r.mcp.server == args.mcp_server),
        file matches Some(f) ==> (args.mcp_auth_token is None ==> r.mcp.auth_token == f.mcp.auth_token),
        file is Some ==> (args.mcp_auth_token is Some ==> r.mcp.auth_token == args.mcp_auth_token),
        file matches Some(f) ==> (args.agent is None ==> r.agent == f.agent),
        file is Some ==> (args.agent == Some(cli::AgentType::Llama) ==> r.agent.agent_type == AgentType::Llama),
        file is Some ==> (args.agent == Some(cli::AgentType::Qwen) ==> r.agent.agent_type == AgentType::Qwen),
        file is Some ==> (args.agent == Some(cli::AgentType::Granite) ==> r.agent.agent_type == AgentType::Granite),
        file matches Some(f) ==> r.mcp.tools == f.mcp.tools && r.llm.provider == f.llm.provider,
        file matches Some(f) ==> (args.llm_api_base is None ==> r.llm.api_base == f.llm.api_base),
        file is Some ==> (args.llm_api_base matches Some(u) ==> r.llm.api_base == u),
        file matches Some(f) ==> (args.llm_api_key is None ==> r.llm.api_key == f.llm.api_key),
        file is Some ==> (args.llm_api_key is Some ==> r.llm.api_key == args.llm_api_key),
        file matches Some(f) ==> (args.llm_model is None ==> r.llm.model == f.llm.model),
        file is Some ==> (args.llm_model is Some ==> r.llm.model == args.llm_model),
{
}

/// The formats a configuration file may be written in.
#[derive(Debug, Clone, Copy, PartialEq, Eq, Structural)]
pub enum ConfigFormat {
    Json,
    Yaml,
    Toml,
}

/// Why no format can be chosen for a configuration file.
#[derive(Debug, Clone, PartialEq, Eq)]
pub enum ConfigFormatError {
    /// The extension names no supported format.
    Unsupported(String),
    /// The file name has no extension.
    NoExtension,
}

/// The format named by a file extension, if any.
pub open spec fn format_of_extension(e: Seq<char>) -> Option<ConfigFormat> {
    if e == "json"@ {
        Some(ConfigFormat::Json)
    } else if e == "yaml"@ || e == "yml"@ {
        Some(ConfigFormat::Yaml)
    } else if e == "toml"@ {
        Some(ConfigFormat::Toml)
    } else {
        None
    }
}

/// The format of a configuration file, chosen by its extension.
pub fn config_format_for_extension(ext: Option<&str>) -> (r: Result<ConfigFormat, ConfigFormatError>)
    ensures
        ext is None ==> r == Err::<ConfigFormat, ConfigFormatError>(ConfigFormatError::NoExtension),
        ext matches Some(e) ==> match format_of_extension(e@) {
            Some(f) => r == Ok::<ConfigFormat, ConfigFormatError>(f),
            None => r matches Err(ConfigFormatError::Unsupported(u)) && u@ == e@,
        },
{
    match ext {
        None => Err(ConfigFormatError::NoExtension),
        Some(e) => {
            if str_eq(e, "json") {
                Ok(ConfigFormat::Json)
            } else if str_eq(e, "yaml") || str_eq(e, "yml") {
                Ok(ConfigFormat::Yaml)
            } else if str_eq(e, "toml") {
                Ok(ConfigFormat::Toml)
            } else {
                Err(ConfigFormatError::Unsupported(to_owned_string(e)))
            }
        },
    }
}

/// `r` is `o` with `None` replaced by `d`.
pub open spec fn or_default<T>(o: Option<T>, d: T) -> T {
    match o {
        Some(v) => v,
        None => d,
    }
}

/// The configuration built from the command line alone: the chosen agent
/// (Qwen when none is chosen) with its name and prompt, the model asked of
/// the LLM (empty when none), the flags (off when absent), the interface
/// (the terminal when absent), the MCP server and token as given, no MCP
/// tools, the given LLM settings, and defaults for everything else.
pub open spec fn config_from_cli(args: cli::Args, llm: LLMConfig, r: OxideConfig) -> bool {
    let t = or_default(args.agent, cli::AgentType::Qwen);
    &&& r.agent.agent_type == agent_type_from_cli(t)
    &&& r.agent.model@ == (match llm.model {
        Some(m) => m@,
        None => Seq::<char>::empty(),
    })
    &&& r.agent.name@ == agent_display_name(t)
    &&& r.agent.system_prompt@ == agent_prompt(t)
    &&& r.no_stream == or_default(args.no_stream, false)
    &&& r.session == args.session
    &&& r.list_sessions == or_default(args.list_sessions, false)
    &&& r.interface == interface_from_cli(or_default(args.interface, cli::InterfaceType::Tui))
    &&& r.mcp.server == args.mcp_server
    &&& r.mcp.auth_token == args.mcp_auth_token
    &&& r.mcp.tools@.len() == 0
    &&& r.llm == llm
    &&& !r.multi_agent.enabled
    &&& r.multi_agent.max_agents == 0
    &&& r.multi_agent.default_agents@.len() == 0
    &&& r.web is None
    &&& r.telegram is None
    &&& r.discord is None
}

/// Creates the configuration from the command line, with defaults for
/// what it does not give.
pub fn create_default_config_from_cli(
    args: &cli::Args,
    _available_models: &[String],
    llm_config: &LLMConfig,
) -> (r: OxideConfig)
    ensures
        config_from_cli(*args, *llm_config, r),
{
    let agent_type = match args.agent {
        Some(t) => t,
        None => cli::AgentType::Qwen,
    };
    let model = match &llm_config.model {
        Some(m) => m.clone(),
        None => String::new(),
    };
    let agent_config = AgentConfig {
        agent_type: agent_type_of(agent_type),
        model,
        name: to_owned_string(agent_type.name()),
        system_prompt: to_owned_string(agent_type.system_prompt()),
    };
    let interface = match args.interface {
        Some(i) => InterfaceType::from(i),
        None => InterfaceType::Tui,
    };
    OxideConfig {
        agent: agent_config,
        multi_agent: MultiAgentConfig::default(),
        mcp: MCPConfig {
            server: copy_opt_string(&args.mcp_server),
            auth_token: copy_opt_string(&args.mcp_auth_token),
            tools: Vec::new(),
        },
        no_stream: match args.no_stream {
            Some(b) => b,
            None => false,
        },
        session: copy_opt_string(&args.session),
        list_sessions: match args.list_sessions {
            Some(b) => b,
            None => false,
        },
        interface,
        llm: llm_config.clone(),
        web: None,
        telegram: None,
        discord: None,
    }
}

/// The result of combining a configuration file with the command-line
/// configuration `base`: every setting given on the command line wins; the
/// others come from the file; the MCP tools and the LLM provider always
/// come from the file, the LLM base URL, key and model from the command
/// line where it gives them; what neither merges (multi-agent, web, Telegram,
/// Discord) stays as in `base`. Without a file, `base` is kept.
pub open spec fn merged_config(file: Option<OxideConfig>, base: OxideConfig, args: cli::Args, r: OxideConfig) -> bool {
    match file {
        None => r == base,
        Some(f) => {
            &&& (args.agent matches Some(t) ==> {
                &&& r.agent.agent_type == agent_type_from_cli(t)
                &&& r.agent.name@ == agent_display_name(t)
                &&& r.agent.system_prompt@ == agent_prompt(t)
                &&& r.agent.model == base.agent.model
            })
            &&& (args.agent is None ==> r.agent == f.agent)
            &&& r.no_stream == (match args.no_stream {
                Some(b) => b,
                None => f.no_stream,
            })
            &&& r.session == (if args.session is Some {
                args.session
            } else {
                f.session
            })
            &&& r.list_sessions == (match args.list_sessions {
                Some(b) => b,
                None => f.list_sessions,
            })
            &&& r.interface == (match args.interface {
                Some(i) => interface_from_cli(i),
                None => f.interface,
            })
            &&& r.mcp.server == (if args.mcp_server is Some {
                args.mcp_server
            } else {
                f.mcp.server
            })
            &&& r.mcp.auth_token == (if args.mcp_auth_token is Some {
                args.mcp_auth_token
            } else {
                f.mcp.auth_token
            })
            &&& r.mcp.tools == f.mcp.tools
            &&& r.llm.provider == f.llm.provider
            &&& r.llm.api_base == (match args.llm_api_base {
                Some(u) => u,
                None => f.llm.api_base,
            })
            &&& r.llm.api_key == (if args.llm_api_key is Some {
                args.llm_api_key
            } else {
                f.llm.api_key
            })
            &&& r.llm.model == (if args.llm_model is Some {
                args.llm_model
            } else {
                f.llm.model
            })
            &&& r.multi_agent == base.multi_agent
            &&& r.web == base.web
            &&& r.telegram == base.telegram
            &&& r.discord == base.discord
        },
    }
}

/// Merges a configuration file with the command-line configuration
/// (command-line settings take precedence).
pub fn merge_configs(
    config_from_file: Option<OxideConfig>,
    base_config: OxideConfig,
    args: &cli::Args,
    _available_models: &[String],
) -> (r: OxideConfig)
    ensures
        merged_config(config_from_file, base_config, *args, r),
{
    let mut base_config = base_config;
    match config_from_file {
        None => base_config,
        Some(file_config) => {
            let OxideConfig {
                agent: file_agent,
                mcp: file_mcp,
                no_stream: file_no_stream,
                session: file_session,
                list_sessions: file_list_sessions,
                interface: file_interface,
                llm: file_llm,
                ..
            } = file_config;
            match args.agent {
                Some(agent_type) => {
                    base_config.agent.agent_type = agent_type_of(agent_type);
                    base_config.agent.name = to_owned_string(agent_type.name());
                    base_config.agent.system_prompt = to_owned_string(agent_type.system_prompt());
                },
                None => {
                    base_config.agent = file_agent;
                },
            }
            base_config.no_stream = match args.no_stream {
                Some(b) => b,
                None => file_no_stream,
            };
            base_config.session = if args.session.is_some() {
                copy_opt_string(&args.session)
            } else {
                file_session
            };
            base_config.list_sessions = match args.list_sessions {
                Some(b) => b,
                None => file_list_sessions,
            };
            base_config.interface = match args.interface {
                Some(i) => InterfaceType::from(i),
                None => file_interface,
            };
            let MCPConfig { server: file_server, auth_token: file_token, tools: file_tools } =
                file_mcp;
            base_config.mcp.server = if args.mcp_server.is_some() {
                copy_opt_string(&args.mcp_server)
            } else {
                file_server
            };
            base_config.mcp.auth_token = if args.mcp_auth_token.is_some() {
                copy_opt_string(&args.mcp_auth_token)
            } else {
                file_token
            };
            base_config.mcp.tools = file_tools;
            let LLMConfig { provider: file_provider, api_base: file_base, api_key: file_key, model: file_model } =
                file_llm;
            base_config.llm = LLMConfig {
                provider: file_provider,
                api_base: match &args.llm_api_base {
                    Some(u) => u.clone(),
                    None => file_base,
                },
                api_key: if args.llm_api_key.is_some() {
                    copy_opt_string(&args.llm_api_key)
                } else {
                    file_key
                },
                model: if args.llm_model.is_some() {
                    copy_opt_string(&args.llm_model)
                } else {
                    file_model
                },
            };
            base_config
        },
    }
}

} // verus!
