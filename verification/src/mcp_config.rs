//! Configuration of MCP servers: the kinds of server, the configuration
//! file and its list of servers.
//!
//! The file itself is read and written by the caller with `serde`; this
//! module decides the file format from the extension and keeps the list.
use vstd::prelude::*;
use crate::config::{ConfigFormat, MCPConfig, MCPToolConfig, format_of_extension};
use crate::text::{concat2, str_eq, to_owned_string};

verus! {

/// Environment variables as name and value, in the order they are set.
pub open spec fn pairs_view(env: Seq<(String, String)>) -> Seq<(Seq<char>, Seq<char>)> {
    env.map_values(|p: (String, String)| (p.0@, p.1@))
}

/// The value of the first variable named `key`.
pub open spec fn env_lookup(env: Seq<(Seq<char>, Seq<char>)>, key: Seq<char>) -> Option<Seq<char>>
    decreases env.len(),
{
    if env.len() == 0 {
        None
    } else if env[0].0 == key {
        Some(env[0].1)
    } else {
        env_lookup(env.drop_first(), key)
    }
}

/// Looks up an environment variable by name.
pub fn env_value<'a>(env: &'a Vec<(String, String)>, key: &str) -> (r: Option<&'a String>)
    ensures
        match env_lookup(pairs_view(env@), key@) {
            Some(v) => r matches Some(s) && s@ == v,
            None => r is None,
        },
{
    let mut i: usize = 0;
    assert(pairs_view(env@).skip(0) =~= pairs_view(env@));
    while i < env.len()
        invariant
            i <= env.len(),
            env_lookup(pairs_view(env@), key@) == env_lookup(pairs_view(env@).skip(i as int), key@),
        decreases env.len() - i,
    {
        let ghost rest = pairs_view(env@).skip(i as int);
        assert(rest.drop_first() =~= pairs_view(env@).skip(i + 1));
        if str_eq(env[i].0.as_str(), key) {
            return Some(&env[i].1);
        }
        i = i + 1;
    }
    None
}

/// How an MCP server is reached or started.
#[derive(Debug)]
#[allow(inconsistent_fields)]
pub enum McpServerType {
    /// A server reached over HTTP.
    Remote { url: String, access_token: Option<String>, api_key: Option<String> },
    /// A server run in a Docker container.
    Docker {
        image: String,
        command: Option<Vec<String>>,
        ports: Option<Vec<String>>,
        volumes: Option<Vec<String>>,
        environment: Option<Vec<(String, String)>>,
    },
    /// A server run from an npm package with `npx`.
    Npm {
        package: String,
        command: Option<String>,
        args: Option<Vec<String>>,
        environment: Option<Vec<(String, String)>>,
    },
    /// A server run as a local command.
    Command {
        command: String,
        args: Option<Vec<String>>,
        environment: Option<Vec<(String, String)>>,
        working_directory: Option<String>,
    },
}

/// One configured MCP server.
#[derive(Debug)]
pub struct McpServerConfig {
    pub name: String,
    pub description: Option<String>,
    pub server_type: McpServerType,
    pub auto_start: Option<bool>,
    pub environment: Option<Vec<(String, String)>>,
}

/// An MCP configuration file: a version and the servers.
#[derive(Debug)]
pub struct McpConfigFile {
    pub version: String,
    pub servers: Vec<McpServerConfig>,
}

/// The names of a list of servers.
pub open spec fn server_names(s: Seq<McpServerConfig>) -> Seq<Seq<char>> {
    s.map_values(|c: McpServerConfig| c.name@)
}

/// Index of the first server named `name`, or -1.
pub open spec fn first_named(s: Seq<McpServerConfig>, name: Seq<char>) -> int
    decreases s.len(),
{
    if s.len() == 0 {
        -1
    } else if s[0].name@ == name {
        0
    } else {
        let r = first_named(s.drop_first(), name);
        if r < 0 {
            -1
        } else {
            r + 1
        }
    }
}

/// Some server of the list is named `name`.
pub open spec fn has_named(s: Seq<McpServerConfig>, name: Seq<char>) -> bool {
    exists|i: int| 0 <= i < s.len() && #[trigger] s[i].name@ == name
}

/// The servers whose name is not `name`, in their order.
pub open spec fn without_named(s: Seq<McpServerConfig>, name: Seq<char>) -> Seq<McpServerConfig>
    decreases s.len(),
{
    if s.len() == 0 {
        Seq::empty()
    } else {
        let rest = without_named(s.drop_last(), name);
        if s.last().name@ == name {
            rest
        } else {
            rest.push(s.last())
        }
    }
}

proof fn lemma_first_named_range(s: Seq<McpServerConfig>, name: Seq<char>)
    ensures
        first_named(s, name) == -1 || (0 <= first_named(s, name) < s.len() && s[first_named(s, name)].name@ == name
            && forall|j: int| 0 <= j < first_named(s, name) ==> s[j].name@ != name),
        first_named(s, name) == -1 <==> !has_named(s, name),
    decreases s.len(),
{
    if s.len() > 0 {
        lemma_first_named_range(s.drop_first(), name);
        if s[0].name@ != name {
            let r = first_named(s.drop_first(), name);
            if r >= 0 {
                assert forall|j: int| 0 <= j < r + 1 implies s[j].name@ != name by {
                    if j > 0 {
                        assert(s[j] == s.drop_first()[j - 1]);
                    }
                }
                assert(s[r + 1] == s.drop_first()[r]);
            }
            if has_named(s, name) {
                let i = choose|i: int| 0 <= i < s.len() && #[trigger] s[i].name@ == name;
                assert(s.drop_first()[i - 1].name@ == name);
            }
            if has_named(s.drop_first(), name) {
                let i = choose|i: int| 0 <= i < s.drop_first().len() && #[trigger] s.drop_first()[i].name@ == name;
                assert(s[i + 1].name@ == name);
            }
        } else {
            assert(s[0].name@ == name);
        }
    }
}

proof fn lemma_without_named_len(s: Seq<McpServerConfig>, name: Seq<char>)
    ensures
        without_named(s, name).len() <= s.len(),
        without_named(s, name).len() < s.len() <==> has_named(s, name),
        !has_named(without_named(s, name), name),
    decreases s.len(),
{
    if s.len() > 0 {
        let p = s.drop_last();
        lemma_without_named_len(p, name);
        let w = without_named(p, name);
        if has_named(s, name) {
            let i = choose|i: int| 0 <= i < s.len() && #[trigger] s[i].name@ == name;
            if i < s.len() - 1 {
                assert(p[i].name@ == name);
            }
        }
        if has_named(p, name) {
            let i = choose|i: int| 0 <= i < p.len() && #[trigger] p[i].name@ == name;
            assert(s[i].name@ == name);
        }
        if s.last().name@ != name {
            let w2 = w.push(s.last());
            if has_named(w2, name) {
                let i = choose|i: int| 0 <= i < w2.len() && #[trigger] w2[i].name@ == name;
                if i < w.len() {
                    assert(w[i].name@ == name);
                }
            }
        }
    }
}

/// The file format named by an extension when a configuration is read: no
/// extension reads as JSON; an unknown one is refused with its name.
pub open spec fn load_format_of(ext: Option<Seq<char>>) -> Result<ConfigFormat, Seq<char>> {
    match ext {
        None => Ok(ConfigFormat::Json),
        Some(e) => match format_of_extension(e) {
            Some(f) => Ok(f),
            None => Err("Unsupported configuration file format: "@ + e),
        },
    }
}

/// The file format used when a configuration is written: JSON unless the
/// extension names another one.
pub open spec fn save_format_of(ext: Option<Seq<char>>) -> ConfigFormat {
    match ext {
        Some(e) => match format_of_extension(e) {
            Some(f) => f,
            None => ConfigFormat::Json,
        },
        None => ConfigFormat::Json,
    }
}

impl McpConfigFile {
    /// An empty configuration of version "1.0".
    pub fn new() -> (r: Self)
        ensures
            r.version@ == "1.0"@,
            r.servers@.len() == 0,
    {
        McpConfigFile { version: String::from_str("1.0"), servers: Vec::new() }
    }

    /// The format in which a file with this extension is read.
    pub fn load_format(ext: Option<&str>) -> (r: Result<ConfigFormat, String>)
        ensures
            match load_format_of(ext.deep_view()) {
                Ok(f) => r == Ok::<ConfigFormat, String>(f),
                Err(m) => r matches Err(e) && e@ == m,
            },
    {
        match ext {
            None => Ok(ConfigFormat::Json),
            Some(e) => {
                if str_eq(e, "json") {
                    Ok(ConfigFormat::Json)
                } else if str_eq(e, "yaml") || str_eq(e, "yml") {
                    Ok(ConfigFormat::Yaml)
                } else if str_eq(e, "toml") {
                    Ok(ConfigFormat::Toml)
                } else {
                    Err(concat2("Unsupported configuration file format: ", e))
                }
            },
        }
    }

    /// The format in which a file with this extension is written.
    pub fn save_format(ext: Option<&str>) -> (r: ConfigFormat)
        ensures
            r == save_format_of(ext.deep_view()),
    {
        match ext {
            Some(e) => {
                if str_eq(e, "json") {
                    ConfigFormat::Json
                } else if str_eq(e, "yaml") || str_eq(e, "yml") {
                    ConfigFormat::Yaml
                } else if str_eq(e, "toml") {
                    ConfigFormat::Toml
                } else {
                    ConfigFormat::Json
                }
            },
            None => ConfigFormat::Json,
        }
    }

    /// The first server with this name.
    pub fn get_server(&self, name: &str) -> (r: Option<&McpServerConfig>)
        ensures
            first_named(self.servers@, name@) == -1 ==> r is None,
            first_named(self.servers@, name@) >= 0 ==> r == Some(&self.servers@[first_named(self.servers@, name@)]),
    {
        let mut i: usize = 0;
        assert(self.servers@.skip(0) =~= self.servers@);
        while i < self.servers.len()
            invariant
                i <= self.servers.len(),
                first_named(self.servers@, name@) == if first_named(self.servers@.skip(i as int), name@) < 0 {
                    -1
                } else {
                    first_named(self.servers@.skip(i as int), name@) + i
                },
            decreases self.servers.len() - i,
        {
            assert(self.servers@.skip(i as int).drop_first() =~= self.servers@.skip(i + 1));
            if str_eq(self.servers[i].name.as_str(), name) {
                return Some(&self.servers[i]);
            }
            i = i + 1;
        }
        None
    }

    /// Adds a server at the end of the list.
    pub fn add_server(&mut self, server: McpServerConfig)
        ensures
            final(self).servers@ == old(self).servers@.push(server),
            final(self).version == old(self).version,
    {
        self.servers.push(server);
    }

    /// Removes every server with this name; tells whether one was removed.
    pub fn remove_server(&mut self, name: &str) -> (r: bool)
        ensures
            final(self).servers@ == without_named(old(self).servers@, name@),
            final(self).version == old(self).version,
            r == has_named(old(self).servers@, name@),
    {
        let ghost all = self.servers@;
        let mut rest: Vec<McpServerConfig> = Vec::new();
        std::mem::swap(&mut rest, &mut self.servers);
        let initial_len = rest.len();
        let mut kept: Vec<McpServerConfig> = Vec::new();
        let mut k: usize = 0;
        while rest.len() > 0
            invariant
                k + rest@.len() == all.len(),
                rest@ == all.skip(k as int),
                kept@ == without_named(all.take(k as int), name@),
                initial_len == all.len(),
            decreases rest@.len(),
        {
            let s = rest.remove(0);
            assert(all.take(k + 1).drop_last() =~= all.take(k as int));
            assert(all.take(k + 1).last() == s);
            assert(rest@ =~= all.skip(k + 1));
            if !str_eq(s.name.as_str(), name) {
                kept.push(s);
            }
            k = k + 1;
        }
        assert(all.take(k as int) =~= all);
        proof {
            lemma_without_named_len(all, name@);
        }
        let removed = kept.len() < initial_len;
        self.servers = kept;
        removed
    }

    /// The names of the servers, in order.
    pub fn list_server_names(&self) -> (r: Vec<String>)
        ensures
            r.deep_view() == server_names(self.servers@),
    {
        let mut out: Vec<String> = Vec::new();
        let mut i: usize = 0;
        while i < self.servers.len()
            invariant
                i <= self.servers.len(),
                out.deep_view() == server_names(self.servers@.take(i as int)),
            decreases self.servers.len() - i,
        {
            let ghost prev = out.deep_view();
            out.push(self.servers[i].name.clone());
            assert(out.deep_view() =~= prev.push(self.servers@[i as int].name@));
            assert(server_names(self.servers@.take(i + 1)) =~= server_names(self.servers@.take(i as int)).push(
                self.servers@[i as int].name@,
            ));
            i = i + 1;
        }
        assert(self.servers@.take(i as int) =~= self.servers@);
        out
    }
}

impl Default for McpConfigFile {
    fn default() -> (r: Self)
        ensures
            r.version@ == "1.0"@,
            r.servers@.len() == 0,
    {
        Self::new()
    }
}

/// A server that has just been added is what a lookup of its name finds,
/// where no server had that name before.
pub proof fn lemma_added_server_is_found(servers: Seq<McpServerConfig>, server: McpServerConfig)
    requires
        !has_named(servers, server.name@),
    ensures
        first_named(servers.push(server), server.name@) == servers.len(),
        server_names(servers.push(server)) == server_names(servers).push(server.name@),
{
    lemma_first_named_range(servers, server.name@);
    lemma_first_named_range(servers.push(server), server.name@);
    let s2 = servers.push(server);
    let f = first_named(s2, server.name@);
    assert(s2[servers.len() as int].name@ == server.name@);
    assert(has_named(s2, server.name@));
    if f < servers.len() {
        assert(servers[f].name@ == server.name@);
    }
    assert(server_names(s2) =~= server_names(servers).push(server.name@));
}

/// After a removal, no server with the removed name is left, and a lookup
/// of that name finds nothing; servers with other names keep their order.
pub proof fn lemma_removed_server_is_gone(servers: Seq<McpServerConfig>, name: Seq<char>)
    ensures
        !has_named(without_named(servers, name), name),
        first_named(without_named(servers, name), name) == -1,
        without_named(servers, name).len() < servers.len() <==> has_named(servers, name),
{
    lemma_without_named_len(servers, name);
    lemma_first_named_range(without_named(servers, name), name);
}

/// The id under which the connection to a server is registered.
pub fn connection_id(server_name: &str) -> (r: String)
    ensures
        r@ == server_name@ + "_connection"@,
{
    concat2(server_name, "_connection")
}

/// The server started for an MCP tool of the agent configuration: its
/// command with its arguments, started automatically.
pub fn server_config_for_tool(tool: &MCPToolConfig) -> (r: McpServerConfig)
    ensures
        r.name@ == tool.name@,
        r.description matches Some(d) && d@ == "MCP server for "@ + tool.name@,
        r.auto_start == Some(true),
        r.environment is None,
        r.server_type matches McpServerType::Command { command, args, environment, working_directory } && {
            &&& command@ == tool.command@
            &&& args matches Some(a) && a@ == tool.args@
            &&& environment is None
            &&& working_directory is None
        },
{
    let args = tool.args.clone();
    assert(args@ =~= tool.args@);
    McpServerConfig {
        name: tool.name.clone(),
        description: Some(concat2("MCP server for ", tool.name.as_str())),
        server_type: McpServerType::Command {
            command: tool.command.clone(),
            args: Some(args),
            environment: None,
            working_directory: None,
        },
        auto_start: Some(true),
        environment: None,
    }
}

/// The remote server that the agent configuration names, if it names one.
pub fn remote_server_config(mcp: &MCPConfig) -> (r: Option<McpServerConfig>)
    ensures
        mcp.server is None ==> r is None,
        mcp.server matches Some(url) ==> (r matches Some(c) && {
            &&& c.name@ == "remote_mcp_server"@
            &&& c.description matches Some(d) && d@ == "Remote MCP server at "@ + url@
            &&& c.auto_start == Some(true)
            &&& c.environment is None
            &&& c.server_type matches McpServerType::Remote { url: u, access_token, api_key } && u@ == url@
                && access_token == mcp.auth_token && api_key is None
        }),
{
    match &mcp.server {
        None => None,
        Some(url) => {
            let token = match &mcp.auth_token {
                Some(t) => Some(t.clone()),
                None => None,
            };
            Some(McpServerConfig {
                name: String::from_str("remote_mcp_server"),
                description: Some(concat2("Remote MCP server at ", url.as_str())),
                server_type: McpServerType::Remote { url: url.clone(), access_token: token, api_key: None },
                auto_start: Some(true),
                environment: None,
            })
        },
    }
}

} // verus!
