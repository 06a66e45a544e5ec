//! The built-in tools of the agent: what they are called, what arguments
//! they take, and what they answer. The file and shell work itself is done
//! by the caller between `arguments` and the message built from its outcome.
use vstd::prelude::*;
use crate::json::{json_str_at, str_at};
use crate::text::{concat2, concat3};
use crate::mcp_protocol::McpToolAdapter;
use crate::text::str_eq;
use crate::types::Tool;

verus! {

/// The kind of work a tool does.
#[derive(Debug, Clone, Copy, PartialEq, Eq, Structural)]
pub enum ToolProfile {
    /// Works on files.
    File,
    /// Runs shell commands.
    Shell,
    /// Anything else, such as a tool offered by an MCP server.
    Generic,
}

/// The text argument `key` of a tool call, or the empty text.
pub open spec fn text_argument(args: Seq<char>, pointer: Seq<char>) -> Seq<char> {
    match json_str_at(args, pointer) {
        Some(s) => s,
        None => Seq::empty(),
    }
}

/// Reads a text argument of a tool call from its JSON arguments; a missing
/// or non-text argument reads as empty.
pub fn argument_text(args: &str, pointer: &str) -> (r: String)
    ensures
        r@ == text_argument(args@, pointer@),
{
    match str_at(args, pointer) {
        Some(s) => s,
        None => String::new(),
    }
}

/// Writes content to a file.
#[derive(Debug, Clone, Copy, PartialEq, Eq)]
pub struct WriteFileTool;

impl WriteFileTool {
    /// The tool's name.
    pub fn name(&self) -> (r: String)
        ensures
            r@ == "write_file"@,
    {
        String::from_str("write_file")
    }

    /// The tool's description.
    pub fn description(&self) -> (r: String)
        ensures
            r@ == "Write content to a file"@,
    {
        String::from_str("Write content to a file")
    }

    /// The JSON schema of the arguments: a `path` and a `content`, both
    /// required text.
    pub fn parameters(&self) -> (r: String)
        ensures
            r@ == write_file_schema(),
    {
        String::from_str(
            "{\"properties\":{\"content\":{\"description\":\"The content to write to the file\",\"type\":\"string\"},\"path\":{\"description\":\"The path to the file to write\",\"type\":\"string\"}},\"required\":[\"path\",\"content\"],\"type\":\"object\"}",
        )
    }

    /// The description sent to the model.
    pub fn definition(&self) -> (t: Tool)
        ensures
            t.kind@ == "function"@,
            t.function.name@ == "write_file"@,
            t.function.description@ == "Write content to a file"@,
            t.function.parameters@ == write_file_schema(),
    {
        Tool::new(self.name().as_str(), self.description().as_str(), self.parameters())
    }

    /// The path and content to write, or the error for an empty path.
    pub fn arguments(args: &str) -> (r: Result<(String, String), String>)
        ensures
            text_argument(args@, "/path"@).len() == 0 ==> (r matches Err(m) && m@ == "'path' argument is required"@),
            text_argument(args@, "/path"@).len() > 0 ==> (r matches Ok((p, c)) && p@ == text_argument(args@, "/path"@)
                && c@ == text_argument(args@, "/content"@)),
    {
        let path = argument_text(args, "/path");
        let content = argument_text(args, "/content");
        if path.as_str().unicode_len() == 0 {
            Err(String::from_str("'path' argument is required"))
        } else {
            Ok((path, content))
        }
    }

    /// The answer once the file is written.
    pub fn success_message(path: &str) -> (r: String)
        ensures
            r@ == "File '"@ + path@ + "' written successfully."@,
    {
        concat3("File '", path, "' written successfully.")
    }
}

/// The schema of the `write_file` arguments as JSON text.
pub open spec fn write_file_schema() -> Seq<char> {
    "{\"properties\":{\"content\":{\"description\":\"The content to write to the file\",\"type\":\"string\"},\"path\":{\"description\":\"The path to the file to write\",\"type\":\"string\"}},\"required\":[\"path\",\"content\"],\"type\":\"object\"}"@
}

/// The schema of the `read_file` arguments as JSON text.
pub open spec fn read_file_schema() -> Seq<char> {
    "{\"properties\":{\"path\":{\"description\":\"The path to the file to read\",\"type\":\"string\"}},\"required\":[\"path\"],\"type\":\"object\"}"@
}

/// The schema of the `run_shell_command` arguments as JSON text.
pub open spec fn shell_schema() -> Seq<char> {
    "{\"properties\":{\"command\":{\"description\":\"The shell command to run\",\"type\":\"string\"}},\"required\":[\"command\"],\"type\":\"object\"}"@
}

/// Reads a file.
#[derive(Debug, Clone, Copy, PartialEq, Eq)]
pub struct ReadFileTool;

impl ReadFileTool {
    /// The tool's name.
    pub fn name(&self) -> (r: String)
        ensures
            r@ == "read_file"@,
    {
        String::from_str("read_file")
    }

    /// The tool's description.
    pub fn description(&self) -> (r: String)
        ensures
            r@ == "Read content from a file"@,
    {
        String::from_str("Read content from a file")
    }

    /// The JSON schema of the arguments: a required text `path`.
    pub fn parameters(&self) -> (r: String)
        ensures
            r@ == read_file_schema(),
    {
        String::from_str(
            "{\"properties\":{\"path\":{\"description\":\"The path to the file to read\",\"type\":\"string\"}},\"required\":[\"path\"],\"type\":\"object\"}",
        )
    }

    /// The description sent to the model.
    pub fn definition(&self) -> (t: Tool)
        ensures
            t.kind@ == "function"@,
            t.function.name@ == "read_file"@,
            t.function.description@ == "Read content from a file"@,
            t.function.parameters@ == read_file_schema(),
    {
        Tool::new(self.name().as_str(), self.description().as_str(), self.parameters())
    }

    /// The path to read, or the error for an empty path.
    pub fn arguments(args: &str) -> (r: Result<String, String>)
        ensures
            text_argument(args@, "/path"@).len() == 0 ==> (r matches Err(m) && m@ == "'path' argument is required"@),
            text_argument(args@, "/path"@).len() > 0 ==> (r matches Ok(p) && p@ == text_argument(args@, "/path"@)),
    {
        let path = argument_text(args, "/path");
        if path.as_str().unicode_len() == 0 {
            Err(String::from_str("'path' argument is required"))
        } else {
            Ok(path)
        }
    }
}

/// Runs a shell command.
#[derive(Debug, Clone, Copy, PartialEq, Eq)]
pub struct RunShellCommandTool;

impl RunShellCommandTool {
    /// The tool's name.
    pub fn name(&self) -> (r: String)
        ensures
            r@ == "run_shell_command"@,
    {
        String::from_str("run_shell_command")
    }

    /// The tool's description.
    pub fn description(&self) -> (r: String)
        ensures
            r@ == "Run a shell command"@,
    {
        String::from_str("Run a shell command")
    }

    /// The JSON schema of the arguments: a required text `command`.
    pub fn parameters(&self) -> (r: String)
        ensures
            r@ == shell_schema(),
    {
        String::from_str(
            "{\"properties\":{\"command\":{\"description\":\"The shell command to run\",\"type\":\"string\"}},\"required\":[\"command\"],\"type\":\"object\"}",
        )
    }

    /// The description sent to the model.
    pub fn definition(&self) -> (t: Tool)
        ensures
            t.kind@ == "function"@,
            t.function.name@ == "run_shell_command"@,
            t.function.description@ == "Run a shell command"@,
            t.function.parameters@ == shell_schema(),
    {
        Tool::new(self.name().as_str(), self.description().as_str(), self.parameters())
    }

    /// The command to run, or the error for an empty command.
    pub fn arguments(args: &str) -> (r: Result<String, String>)
        ensures
            text_argument(args@, "/command"@).len() == 0 ==> (r matches Err(m) && m@ == "'command' argument is required"@),
            text_argument(args@, "/command"@).len() > 0 ==> (r matches Ok(c) && c@ == text_argument(
                args@,
                "/command"@,
            )),
    {
        let command = argument_text(args, "/command");
        if command.as_str().unicode_len() == 0 {
            Err(String::from_str("'command' argument is required"))
        } else {
            Ok(command)
        }
    }

    /// The answer to a command that exited with success or failure: its
    /// output, or an error with output and error output.
    pub fn outcome(success: bool, stdout: &str, stderr: &str) -> (r: Result<String, String>)
        ensures
            success ==> (r matches Ok(o) && o@ == stdout@),
            !success ==> (r matches Err(m) && m@ == "Command failed: "@ + stdout@ + ". Stderr: "@ + stderr@),
    {
        if success {
            Ok(String::from_str(stdout))
        } else {
            let a = concat3("Command failed: ", stdout, ". Stderr: ");
            Err(concat2(a.as_str(), stderr))
        }
    }
}

/// A tool the agent can run: a built-in one or one of an MCP server.
#[derive(Debug)]
pub enum RegisteredTool {
    WriteFile(WriteFileTool),
    ReadFile(ReadFileTool),
    RunShellCommand(RunShellCommandTool),
    Mcp(McpToolAdapter),
}

/// The name of a registered tool.
pub open spec fn tool_name(t: RegisteredTool) -> Seq<char> {
    match t {
        RegisteredTool::WriteFile(_) => "write_file"@,
        RegisteredTool::ReadFile(_) => "read_file"@,
        RegisteredTool::RunShellCommand(_) => "run_shell_command"@,
        RegisteredTool::Mcp(a) => a.parts().0,
    }
}

/// The description of a registered tool.
pub open spec fn tool_description(t: RegisteredTool) -> Seq<char> {
    match t {
        RegisteredTool::WriteFile(_) => "Write content to a file"@,
        RegisteredTool::ReadFile(_) => "Read content from a file"@,
        RegisteredTool::RunShellCommand(_) => "Run a shell command"@,
        RegisteredTool::Mcp(a) => a.parts().1,
    }
}

/// The JSON text of the parameter schema of a registered tool.
pub open spec fn tool_schema(t: RegisteredTool) -> Seq<char> {
    match t {
        RegisteredTool::WriteFile(_) => write_file_schema(),
        RegisteredTool::ReadFile(_) => read_file_schema(),
        RegisteredTool::RunShellCommand(_) => shell_schema(),
        RegisteredTool::Mcp(a) => a.parts().2,
    }
}

/// `d` describes tool `t` to the model.
pub open spec fn describes(d: Tool, t: RegisteredTool) -> bool {
    &&& d.kind@ == "function"@
    &&& d.function.name@ == tool_name(t)
    &&& d.function.description@ == tool_description(t)
    &&& d.function.parameters@ == tool_schema(t)
}

impl RegisteredTool {
    /// The tool's name.
    pub fn name(&self) -> (r: String)
        ensures
            r@ == tool_name(*self),
    {
        match self {
            RegisteredTool::WriteFile(t) => t.name(),
            RegisteredTool::ReadFile(t) => t.name(),
            RegisteredTool::RunShellCommand(t) => t.name(),
            RegisteredTool::Mcp(a) => a.name(),
        }
    }

    /// The description of the tool sent to the model.
    pub fn definition(&self) -> (d: Tool)
        ensures
            describes(d, *self),
    {
        match self {
            RegisteredTool::WriteFile(t) => t.definition(),
            RegisteredTool::ReadFile(t) => t.definition(),
            RegisteredTool::RunShellCommand(t) => t.definition(),
            RegisteredTool::Mcp(a) => a.definition(),
        }
    }
}

/// The tools available to the agent, in the order they were added.
pub struct ToolRegistry {
    tools: Vec<RegisteredTool>,
}

/// Index of the first tool with this name, or -1.
pub open spec fn first_tool(s: Seq<RegisteredTool>, name: Seq<char>) -> int
    decreases s.len(),
{
    if s.len() == 0 {
        -1
    } else if tool_name(s[0]) == name {
        0
    } else if first_tool(s.drop_first(), name) == -1 {
        -1
    } else {
        first_tool(s.drop_first(), name) + 1
    }
}

proof fn lemma_first_tool(s: Seq<RegisteredTool>, name: Seq<char>)
    ensures
        first_tool(s, name) == -1 || (0 <= first_tool(s, name) < s.len() && tool_name(s[first_tool(s, name)]) == name),
    decreases s.len(),
{
    if s.len() > 0 && tool_name(s[0]) != name {
        lemma_first_tool(s.drop_first(), name);
        if first_tool(s.drop_first(), name) != -1 {
            assert(s[first_tool(s, name)] == s.drop_first()[first_tool(s.drop_first(), name)]);
        }
    }
}

impl ToolRegistry {
    /// The tools, in order.
    pub closed spec fn tools(&self) -> Seq<RegisteredTool> {
        self.tools@
    }

    /// No tools.
    pub fn new() -> (r: Self)
        ensures
            r.tools().len() == 0,
    {
        ToolRegistry { tools: Vec::new() }
    }

    /// The built-in tools: writing and reading files and running commands.
    pub fn builtin() -> (r: Self)
        ensures
            r.tools() == seq![
                RegisteredTool::WriteFile(WriteFileTool),
                RegisteredTool::ReadFile(ReadFileTool),
                RegisteredTool::RunShellCommand(RunShellCommandTool),
            ],
    {
        let mut r = Self::new();
        r.add_tool(RegisteredTool::WriteFile(WriteFileTool));
        r.add_tool(RegisteredTool::ReadFile(ReadFileTool));
        r.add_tool(RegisteredTool::RunShellCommand(RunShellCommandTool));
        assert(r.tools@ =~= seq![
            RegisteredTool::WriteFile(WriteFileTool),
            RegisteredTool::ReadFile(ReadFileTool),
            RegisteredTool::RunShellCommand(RunShellCommandTool),
        ]);
        r
    }

    /// Adds a tool at the end.
    pub fn add_tool(&mut self, tool: RegisteredTool)
        ensures
            final(self).tools() == old(self).tools().push(tool),
    {
        self.tools.push(tool);
    }

    /// The first tool with this name.
    pub fn get_tool(&self, name: &str) -> (r: Option<&RegisteredTool>)
        ensures
            first_tool(self.tools(), name@) == -1 ==> r is None,
            first_tool(self.tools(), name@) != -1 ==> r == Some(&self.tools()[first_tool(self.tools(), name@)]),
    {
        proof {
            lemma_first_tool(self.tools@, name@);
        }
        let mut i: usize = 0;
        assert(self.tools@.skip(0) =~= self.tools@);
        while i < self.tools.len()
            invariant
                i <= self.tools@.len(),
                first_tool(self.tools@, name@) == if first_tool(self.tools@.skip(i as int), name@) == -1 {
                    -1
                } else {
                    first_tool(self.tools@.skip(i as int), name@) + i
                },
            decreases self.tools@.len() - i,
        {
            assert(self.tools@.skip(i as int).drop_first() =~= self.tools@.skip(i + 1));
            assert(self.tools@.skip(i as int)[0] == self.tools@[i as int]);
            let n = self.tools[i].name();
            if str_eq(n.as_str(), name) {
                return Some(&self.tools[i]);
            }
            proof {
                lemma_first_tool(self.tools@.skip(i + 1), name@);
            }
            i = i + 1;
        }
        None
    }

    /// The descriptions of all tools sent to the model, in order.
    pub fn definitions(&self) -> (r: Vec<Tool>)
        ensures
            r@.len() == self.tools().len(),
            forall|i: int| 0 <= i < r@.len() ==> describes(#[trigger] r@[i], self.tools()[i]),
    {
        let mut out: Vec<Tool> = Vec::new();
        let mut i: usize = 0;
        while i < self.tools.len()
            invariant
                i <= self.tools@.len(),
                out@.len() == i,
                forall|j: int| 0 <= j < i ==> describes(#[trigger] out@[j], self.tools@[j]),
            decreases self.tools@.len() - i,
        {
            out.push(self.tools[i].definition());
            i = i + 1;
        }
        out
    }
}

} // verus!
