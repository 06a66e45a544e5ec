//! How an MCP server is started: the program, its arguments and its
//! environment, for each kind of server.
//!
//! `McpLauncher::plan` decides the command line; the caller checks that the
//! required runner is installed, spawns the process and reports on it.
use vstd::prelude::*;
use crate::mcp_config::{McpServerConfig, McpServerType, pairs_view};
use crate::text::{concat2, concat3, str_eq, to_owned_string, trim, trim_seq};

verus! {

/// A runner that must answer `--version` before a server is started.
#[derive(Debug, Clone, Copy, PartialEq, Eq, Structural)]
pub enum RequiredTool {
    Docker,
    Npx,
    Uvx,
}

/// The process to start for an MCP server.
#[derive(Debug)]
pub struct LaunchPlan {
    /// The program to run.
    pub program: String,
    /// Its arguments.
    pub args: Vec<String>,
    /// Environment variables set for it.
    pub env: Vec<(String, String)>,
    /// Directory it runs in, if not the current one.
    pub working_directory: Option<String>,
    /// The runner that must be available first.
    pub requires: Option<RequiredTool>,
    /// The program starts a Docker container in the background and prints
    /// its id.
    pub detached_container: bool,
    /// The command recorded for the started process.
    pub process_command: String,
    /// The arguments recorded for the started process.
    pub process_args: Vec<String>,
}

/// A launch plan in terms of plain text.
#[verifier::ext_equal]
pub struct PlanView {
    pub program: Seq<char>,
    pub args: Seq<Seq<char>>,
    pub env: Seq<(Seq<char>, Seq<char>)>,
    pub working_directory: Option<Seq<char>>,
    pub requires: Option<RequiredTool>,
    pub detached_container: bool,
    pub process_command: Seq<char>,
    pub process_args: Seq<Seq<char>>,
}

impl View for LaunchPlan {
    type V = PlanView;

    open spec fn view(&self) -> PlanView {
        PlanView {
            program: self.program@,
            args: self.args.deep_view(),
            env: pairs_view(self.env@),
            working_directory: self.working_directory.deep_view(),
            requires: self.requires,
            detached_container: self.detached_container,
            process_command: self.process_command@,
            process_args: self.process_args.deep_view(),
        }
    }
}

/// Why a server is not started.
#[derive(Debug, Clone, Copy, PartialEq, Eq, Structural)]
pub enum LaunchError {
    /// Remote servers are reached over HTTP, not started.
    RemoteServer,
}

impl LaunchError {
    /// The message of the error.
    pub fn message(&self) -> (r: String)
        ensures
            r@ == "Remote MCP servers don't need to be launched locally"@,
    {
        String::from_str("Remote MCP servers don't need to be launched locally")
    }
}

/// The texts of an optional list; none is the empty list.
pub open spec fn listed(o: Option<Seq<Seq<char>>>) -> Seq<Seq<char>> {
    match o {
        Some(v) => v,
        None => Seq::empty(),
    }
}

/// The pairs of an optional environment; none is the empty list.
pub open spec fn env_listed(o: Option<Vec<(String, String)>>) -> Seq<(Seq<char>, Seq<char>)> {
    match o {
        Some(v) => pairs_view(v@),
        None => Seq::empty(),
    }
}

/// Each item preceded by a flag: `-p a -p b`.
pub open spec fn flagged(flag: Seq<char>, items: Seq<Seq<char>>) -> Seq<Seq<char>>
    decreases items.len(),
{
    if items.len() == 0 {
        Seq::empty()
    } else {
        flagged(flag, items.drop_last()).push(flag).push(items.last())
    }
}

/// `-e NAME=value` for each variable.
pub open spec fn env_flags(env: Seq<(Seq<char>, Seq<char>)>) -> Seq<Seq<char>>
    decreases env.len(),
{
    if env.len() == 0 {
        Seq::empty()
    } else {
        env_flags(env.drop_last()).push("-e"@).push(env.last().0 + "="@ + env.last().1)
    }
}

/// The arguments of `docker` for a Docker server.
pub open spec fn docker_args(
    image: Seq<char>,
    command: Seq<Seq<char>>,
    ports: Seq<Seq<char>>,
    volumes: Seq<Seq<char>>,
    env: Seq<(Seq<char>, Seq<char>)>,
) -> Seq<Seq<char>> {
    seq!["run"@] + flagged("-p"@, ports) + flagged("-v"@, volumes) + env_flags(env) + seq!["-d"@, image] + command
}

/// The plan for a server of this configuration; remote servers have none.
pub open spec fn plan_of(c: McpServerConfig) -> Option<PlanView> {
    match c.server_type {
        McpServerType::Remote { .. } => None,
        McpServerType::Docker { image, command, ports, volumes, environment } => Some(
            PlanView {
                program: "docker"@,
                args: docker_args(
                    image@,
                    listed(command.deep_view()),
                    listed(ports.deep_view()),
                    listed(volumes.deep_view()),
                    env_listed(environment),
                ),
                env: Seq::empty(),
                working_directory: None,
                requires: Some(RequiredTool::Docker),
                detached_container: true,
                process_command: "docker run "@ + image@,
                process_args: Seq::empty(),
            },
        ),
        McpServerType::Npm { package, command, args, environment } => Some(
            PlanView {
                program: "npx"@,
                args: seq!["--yes"@, package@] + (match command {
                    Some(c) => seq![c@],
                    None => Seq::empty(),
                }) + listed(args.deep_view()),
                env: env_listed(environment),
                working_directory: None,
                requires: Some(RequiredTool::Npx),
                detached_container: false,
                process_command: "npx "@ + package@,
                process_args: listed(args.deep_view()),
            },
        ),
        McpServerType::Command { command, args, environment, working_directory } => if command@ == "uvx"@ {
            Some(
                PlanView {
                    program: command@,
                    args: listed(args.deep_view()),
                    env: env_listed(environment),
                    working_directory: None,
                    requires: Some(RequiredTool::Uvx),
                    detached_container: false,
                    process_command: command@,
                    process_args: listed(args.deep_view()),
                },
            )
        } else {
            Some(
                PlanView {
                    program: command@,
                    args: listed(args.deep_view()),
                    env: env_listed(environment),
                    working_directory: working_directory.deep_view(),
                    requires: None,
                    detached_container: false,
                    process_command: command@,
                    process_args: listed(args.deep_view()),
                },
            )
        },
    }
}

/// A copy of an optional list of texts; none gives the empty list.
fn list_or_empty(o: &Option<Vec<String>>) -> (r: Vec<String>)
    ensures
        r.deep_view() == listed(o.deep_view()),
{
    match o {
        Some(v) => {
            let r = v.clone();
            assert(r.deep_view() =~= v.deep_view());
            r
        },
        None => {
            let r: Vec<String> = Vec::new();
            assert(r.deep_view() =~= Seq::empty());
            r
        },
    }
}

/// A copy of an optional environment; none gives the empty list.
fn env_or_empty(o: &Option<Vec<(String, String)>>) -> (r: Vec<(String, String)>)
    ensures
        pairs_view(r@) == env_listed(*o),
{
    let mut out: Vec<(String, String)> = Vec::new();
    match o {
        None => {
            assert(pairs_view(out@) =~= Seq::empty());
        },
        Some(v) => {
            let mut i: usize = 0;
            while i < v.len()
                invariant
                    i <= v.len(),
                    pairs_view(out@) == pairs_view(v@.take(i as int)),
                decreases v.len() - i,
            {
                let k = v[i].0.clone();
                let x = v[i].1.clone();
                let ghost prev = out@;
                out.push((k, x));
                assert(pairs_view(out@) =~= pairs_view(prev).push((v@[i as int].0@, v@[i as int].1@)));
                assert(pairs_view(v@.take(i + 1)) =~= pairs_view(v@.take(i as int)).push(
                    (v@[i as int].0@, v@[i as int].1@),
                ));
                i = i + 1;
            }
            assert(v@.take(i as int) =~= v@);
        },
    }
    out
}

/// Appends each item of a list preceded by a flag.
fn push_flagged(out: &mut Vec<String>, flag: &str, items: &Vec<String>)
    ensures
        final(out).deep_view() == old(out).deep_view() + flagged(flag@, items.deep_view()),
{
    let ghost start = out.deep_view();
    let ghost all = items.deep_view();
    let mut i: usize = 0;
    assert(all.take(0) =~= Seq::<Seq<char>>::empty());
    assert(start + Seq::<Seq<char>>::empty() =~= start);
    while i < items.len()
        invariant
            i <= items.len(),
            all == items.deep_view(),
            out.deep_view() == start + flagged(flag@, all.take(i as int)),
        decreases items.len() - i,
    {
        let ghost prev = out.deep_view();
        out.push(to_owned_string(flag));
        out.push(items[i].clone());
        assert(out.deep_view() =~= prev.push(flag@).push(all[i as int]));
        assert(all.take(i + 1).drop_last() =~= all.take(i as int));
        assert(start + flagged(flag@, all.take(i + 1)) =~= (start + flagged(flag@, all.take(i as int))).push(
            flag@,
        ).push(all[i as int]));
        i = i + 1;
    }
    assert(all.take(i as int) =~= all);
}

/// Appends `-e NAME=value` for each variable.
fn push_env_flags(out: &mut Vec<String>, env: &Vec<(String, String)>)
    ensures
        final(out).deep_view() == old(out).deep_view() + env_flags(pairs_view(env@)),
{
    let ghost start = out.deep_view();
    let ghost all = pairs_view(env@);
    let mut i: usize = 0;
    assert(all.take(0) =~= Seq::<(Seq<char>, Seq<char>)>::empty());
    assert(start + Seq::<Seq<char>>::empty() =~= start);
    while i < env.len()
        invariant
            i <= env.len(),
            all == pairs_view(env@),
            out.deep_view() == start + env_flags(all.take(i as int)),
        decreases env.len() - i,
    {
        let ghost prev = out.deep_view();
        out.push(String::from_str("-e"));
        out.push(concat3(env[i].0.as_str(), "=", env[i].1.as_str()));
        assert(out.deep_view() =~= prev.push("-e"@).push(all[i as int].0 + "="@ + all[i as int].1));
        assert(all.take(i + 1).drop_last() =~= all.take(i as int));
        assert(start + env_flags(all.take(i + 1)) =~= (start + env_flags(all.take(i as int))).push("-e"@).push(
            all[i as int].0 + "="@ + all[i as int].1,
        ));
        i = i + 1;
    }
    assert(all.take(i as int) =~= all);
}

/// Appends the items of a list.
fn push_all(out: &mut Vec<String>, items: &Vec<String>)
    ensures
        final(out).deep_view() == old(out).deep_view() + items.deep_view(),
{
    let ghost start = out.deep_view();
    let mut i: usize = 0;
    while i < items.len()
        invariant
            i <= items.len(),
            out.deep_view() == start + items.deep_view().take(i as int),
        decreases items.len() - i,
    {
        let ghost prev = out.deep_view();
        out.push(items[i].clone());
        assert(out.deep_view() =~= prev.push(items@[i as int]@));
        assert(items.deep_view().take(i + 1) =~= items.deep_view().take(i as int).push(items@[i as int]@));
        assert(start + items.deep_view().take(i + 1) =~= (start + items.deep_view().take(i as int)).push(
            items@[i as int]@,
        ));
        i = i + 1;
    }
    assert(items.deep_view().take(i as int) =~= items.deep_view());
}

/// Starts MCP servers from their configuration.
pub struct McpLauncher;

impl McpLauncher {
    /// The process to start for a server; a remote server is refused.
    pub fn plan(config: &McpServerConfig) -> (r: Result<LaunchPlan, LaunchError>)
        ensures
            match plan_of(*config) {
                Some(p) => r matches Ok(plan) && plan@ == p,
                None => r == Err::<LaunchPlan, LaunchError>(LaunchError::RemoteServer),
            },
    {
        match &config.server_type {
            McpServerType::Remote { .. } => Err(LaunchError::RemoteServer),
            McpServerType::Docker { image, command, ports, volumes, environment } => {
                let ports_v = list_or_empty(ports);
                let volumes_v = list_or_empty(volumes);
                let env_v = env_or_empty(environment);
                let command_v = list_or_empty(command);
                let mut args: Vec<String> = Vec::new();
                args.push(String::from_str("run"));
                assert(args.deep_view() =~= seq!["run"@]);
                push_flagged(&mut args, "-p", &ports_v);
                push_flagged(&mut args, "-v", &volumes_v);
                push_env_flags(&mut args, &env_v);
                let ghost before_d = args.deep_view();
                args.push(String::from_str("-d"));
                args.push(image.clone());
                assert(args.deep_view() =~= before_d + seq!["-d"@, image@]);
                push_all(&mut args, &command_v);
                let plan = LaunchPlan {
                    program: String::from_str("docker"),
                    args,
                    env: Vec::new(),
                    working_directory: None,
                    requires: Some(RequiredTool::Docker),
                    detached_container: true,
                    process_command: concat2("docker run ", image.as_str()),
                    process_args: Vec::new(),
                };
                assert(plan@.args =~= plan_of(*config)->0.args);
                assert(plan@.env =~= Seq::empty());
                assert(plan@.process_args =~= Seq::empty());
                Ok(plan)
            },
            McpServerType::Npm { package, command, args, environment } => {
                let mut cmd_args: Vec<String> = Vec::new();
                cmd_args.push(String::from_str("--yes"));
                cmd_args.push(package.clone());
                assert(cmd_args.deep_view() =~= seq!["--yes"@, package@]);
                let ghost head = cmd_args.deep_view();
                match command {
                    Some(c) => {
                        cmd_args.push(c.clone());
                        assert(cmd_args.deep_view() =~= head + seq![c@]);
                    },
                    None => {
                        assert(cmd_args.deep_view() =~= head + Seq::<Seq<char>>::empty());
                    },
                }
                let extra = list_or_empty(args);
                push_all(&mut cmd_args, &extra);
                let plan = LaunchPlan {
                    program: String::from_str("npx"),
                    args: cmd_args,
                    env: env_or_empty(environment),
                    working_directory: None,
                    requires: Some(RequiredTool::Npx),
                    detached_container: false,
                    process_command: concat2("npx ", package.as_str()),
                    process_args: extra,
                };
                assert(plan@.args =~= plan_of(*config)->0.args);
                Ok(plan)
            },
            McpServerType::Command { command, args, environment, working_directory } => {
                let is_uvx = str_eq(command.as_str(), "uvx");
                let plan = LaunchPlan {
                    program: command.clone(),
                    args: list_or_empty(args),
                    env: env_or_empty(environment),
                    working_directory: if is_uvx {
                        None
                    } else {
                        match working_directory {
                            Some(w) => Some(w.clone()),
                            None => None,
                        }
                    },
                    requires: if is_uvx {
                        Some(RequiredTool::Uvx)
                    } else {
                        None
                    },
                    detached_container: false,
                    process_command: command.clone(),
                    process_args: list_or_empty(args),
                };
                Ok(plan)
            },
        }
    }

    /// The process that runs a package with `uvx`.
    pub fn uvx_package_plan(package: &str, args: &Option<Vec<String>>, environment: &Option<Vec<(String, String)>>) -> (r:
        LaunchPlan)
        ensures
            r@ == (PlanView {
                program: "uvx"@,
                args: seq![package@] + listed(args.deep_view()),
                env: env_listed(*environment),
                working_directory: None,
                requires: Some(RequiredTool::Uvx),
                detached_container: false,
                process_command: "uvx "@ + package@,
                process_args: listed(args.deep_view()),
            }),
    {
        let mut cmd_args: Vec<String> = Vec::new();
        cmd_args.push(to_owned_string(package));
        assert(cmd_args.deep_view() =~= seq![package@]);
        let extra = list_or_empty(args);
        push_all(&mut cmd_args, &extra);
        let plan = LaunchPlan {
            program: String::from_str("uvx"),
            args: cmd_args,
            env: env_or_empty(environment),
            working_directory: None,
            requires: Some(RequiredTool::Uvx),
            detached_container: false,
            process_command: concat2("uvx ", package),
            process_args: extra,
        };
        assert(plan@.args =~= seq![package@] + listed(args.deep_view()));
        plan
    }

    /// The process behind a stdio connection: only command servers have one.
    pub fn stdio_plan(config: &McpServerConfig) -> (r: Option<LaunchPlan>)
        ensures
            match config.server_type {
                McpServerType::Command { command, args, environment, working_directory } => r matches Some(p) && p@
                    == (PlanView {
                    program: command@,
                    args: listed(args.deep_view()),
                    env: env_listed(environment),
                    working_directory: working_directory.deep_view(),
                    requires: None,
                    detached_container: false,
                    process_command: command@,
                    process_args: listed(args.deep_view()),
                }),
                _ => r is None,
            },
    {
        match &config.server_type {
            McpServerType::Command { command, args, environment, working_directory } => Some(
                LaunchPlan {
                    program: command.clone(),
                    args: list_or_empty(args),
                    env: env_or_empty(environment),
                    working_directory: match working_directory {
                        Some(w) => Some(w.clone()),
                        None => None,
                    },
                    requires: None,
                    detached_container: false,
                    process_command: command.clone(),
                    process_args: list_or_empty(args),
                },
            ),
            _ => None,
        }
    }
}

/// A started MCP server as recorded: process id (0 for a container), the
/// command and arguments, and the container id for Docker.
#[derive(Debug)]
pub struct McpProcess {
    pub pid: u32,
    pub command: String,
    pub args: Vec<String>,
    pub container_id: Option<String>,
}

impl McpProcess {
    /// The record of a process started from a plan: a container is recorded
    /// with process id 0 and its container id, any other with its own id.
    pub fn started(plan: &LaunchPlan, pid: u32, container_id: Option<String>) -> (r: Self)
        ensures
            r.command@ == plan.process_command@,
            r.args.deep_view() == plan.process_args.deep_view(),
            plan.detached_container ==> r.pid == 0 && r.container_id == container_id,
            !plan.detached_container ==> r.pid == pid && r.container_id is None,
    {
        let args = plan.process_args.clone();
        assert(args.deep_view() =~= plan.process_args.deep_view());
        if plan.detached_container {
            McpProcess { pid: 0, command: plan.process_command.clone(), args, container_id }
        } else {
            McpProcess { pid, command: plan.process_command.clone(), args, container_id: None }
        }
    }
}

/// The id of the container that `docker run -d` printed, or the error for
/// a server whose container printed none.
pub fn container_id_from_output(name: &str, stdout: &str) -> (r: Result<String, String>)
    ensures
        trim_seq(stdout@).len() > 0 ==> (r matches Ok(id) && id@ == trim_seq(stdout@)),
        trim_seq(stdout@).len() == 0 ==> (r matches Err(m) && m@ == "Failed to get container ID for MCP server '"@
            + name@ + "'"@),
{
    let id = trim(stdout);
    if id.unicode_len() == 0 {
        Err(concat3("Failed to get container ID for MCP server '", name, "'"))
    } else {
        Ok(to_owned_string(id))
    }
}

} // verus!
