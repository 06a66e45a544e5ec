//! Stand-ins for the file system and the shell, with the tools that use
//! them, for exercising the agent without touching the machine.
use vstd::prelude::*;
use crate::text::{concat2, concat3, str_eq, to_owned_string};
use crate::tools::{text_argument, argument_text, ToolProfile};

verus! {

/// The map that a list of entries gives when later entries win.
pub open spec fn map_of<V>(e: Seq<(String, V)>) -> Map<Seq<char>, V>
    decreases e.len(),
{
    if e.len() == 0 {
        Map::empty()
    } else {
        map_of(e.drop_last()).insert(e.last().0@, e.last().1)
    }
}

/// Index of the last entry with this key, or -1.
pub open spec fn last_index<V>(e: Seq<(String, V)>, k: Seq<char>) -> int
    decreases e.len(),
{
    if e.len() == 0 {
        -1
    } else if e.last().0@ == k {
        e.len() - 1
    } else {
        last_index(e.drop_last(), k)
    }
}

proof fn lemma_map_of_lookup<V>(e: Seq<(String, V)>, k: Seq<char>)
    ensures
        last_index(e, k) == -1 <==> !map_of(e).dom().contains(k),
        last_index(e, k) >= 0 ==> 0 <= last_index(e, k) < e.len() && e[last_index(e, k)].0@ == k
            && map_of(e)[k] == e[last_index(e, k)].1,
        last_index(e, k) >= -1,
        forall|j: int| last_index(e, k) < j < e.len() ==> #[trigger] e[j].0@ != k,
    decreases e.len(),
{
    if e.len() > 0 {
        lemma_map_of_lookup(e.drop_last(), k);
        assert forall|j: int| last_index(e, k) < j < e.len() implies #[trigger] e[j].0@ != k by {
            if j < e.len() - 1 {
                assert(e[j] == e.drop_last()[j]);
            }
        }
        if e.last().0@ != k {
            let i = last_index(e, k);
            if i >= 0 {
                assert(e[i] == e.drop_last()[i]);
            }
        }
    }
}

proof fn lemma_map_of_update<V>(e: Seq<(String, V)>, j: int, key: String, v: V)
    requires
        0 <= j < e.len(),
        e[j].0@ == key@,
        forall|i: int| j < i < e.len() ==> #[trigger] e[i].0@ != key@,
    ensures
        map_of(e.update(j, (key, v))) == map_of(e).insert(key@, v),
    decreases e.len(),
{
    let u = e.update(j, (key, v));
    if j == e.len() - 1 {
        assert(u.drop_last() =~= e.drop_last());
        assert(map_of(u) =~= map_of(e).insert(key@, v));
    } else {
        assert(u.drop_last() =~= e.drop_last().update(j, (key, v)));
        assert forall|i: int| j < i < e.drop_last().len() implies #[trigger] e.drop_last()[i].0@ != key@ by {
            assert(e.drop_last()[i] == e[i]);
        }
        lemma_map_of_update(e.drop_last(), j, key, v);
        assert(e.last().0@ != key@);
        assert(map_of(u) =~= map_of(e).insert(key@, v));
    }
}

/// A small map from text keys to values, kept as a list of entries.
pub struct KeyedList<V> {
    entries: Vec<(String, V)>,
}

impl<T> View for KeyedList<T> {
    type V = Map<Seq<char>, T>;

    closed spec fn view(&self) -> Map<Seq<char>, T> {
        map_of(self.entries@)
    }
}

impl<V> KeyedList<V> {
    /// An empty map.
    pub fn new() -> (r: Self)
        ensures
            r.view() == Map::<Seq<char>, V>::empty(),
    {
        let r = KeyedList { entries: Vec::new() };
        assert(r.view() =~= Map::<Seq<char>, V>::empty());
        r
    }

    fn position(&self, key: &str) -> (r: Option<usize>)
        ensures
            match r {
                Some(j) => j as int == last_index(self.entries@, key@),
                None => last_index(self.entries@, key@) == -1,
            },
    {
        let mut i: usize = self.entries.len();
        assert(self.entries@.take(i as int) =~= self.entries@);
        while i > 0
            invariant
                i <= self.entries.len(),
                last_index(self.entries@, key@) == last_index(self.entries@.take(i as int), key@),
            decreases i,
        {
            let ghost t = self.entries@.take(i as int);
            assert(t.drop_last() =~= self.entries@.take(i - 1));
            assert(t.last() == self.entries@[i - 1]);
            if str_eq(self.entries[i - 1].0.as_str(), key) {
                return Some(i - 1);
            }
            i = i - 1;
        }
        None
    }

    /// The value of a key.
    pub fn get(&self, key: &str) -> (r: Option<&V>)
        ensures
            self.view().dom().contains(key@) ==> r == Some(&self.view()[key@]),
            !self.view().dom().contains(key@) ==> r is None,
    {
        proof {
            lemma_map_of_lookup(self.entries@, key@);
        }
        match self.position(key) {
            Some(j) => Some(&self.entries[j].1),
            None => None,
        }
    }

    /// Sets the value of a key.
    pub fn insert(&mut self, key: String, value: V)
        ensures
            final(self).view() == old(self).view().insert(key@, value),
    {
        proof {
            lemma_map_of_lookup(self.entries@, key@);
        }
        match self.position(key.as_str()) {
            Some(j) => {
                proof {
                    lemma_map_of_update(self.entries@, j as int, key, value);
                }
                self.entries.set(j, (key, value));
            },
            None => {
                let ghost before = self.entries@;
                self.entries.push((key, value));
                assert(self.entries@.drop_last() =~= before);
            },
        }
    }
}

/// A copy of a text result.
fn copy_text_result(r: &Result<String, String>) -> (c: Result<String, String>)
    ensures
        c == *r,
{
    match r {
        Ok(s) => Ok(s.clone()),
        Err(e) => Err(e.clone()),
    }
}

/// A copy of a unit result.
fn copy_unit_result(r: &Result<(), String>) -> (c: Result<(), String>)
    ensures
        c == *r,
{
    match r {
        Ok(u) => Ok(*u),
        Err(e) => Err(e.clone()),
    }
}

/// A file system held in memory: file contents, and results fixed in
/// advance for reads and writes of given paths.
pub struct MockFileSystem {
    pub files: KeyedList<String>,
    pub read_results: KeyedList<Result<String, String>>,
    pub write_results: KeyedList<Result<(), String>>,
}

impl MockFileSystem {
    /// No files and no fixed results.
    pub fn new() -> (r: Self)
        ensures
            r.files.view() == Map::<Seq<char>, String>::empty(),
            r.read_results.view() == Map::<Seq<char>, Result<String, String>>::empty(),
            r.write_results.view() == Map::<Seq<char>, Result<(), String>>::empty(),
    {
        MockFileSystem { files: KeyedList::new(), read_results: KeyedList::new(), write_results: KeyedList::new() }
    }

    /// Puts a file in place.
    pub fn add_file(&mut self, path: &str, content: &str)
        ensures
            final(self).files.view().dom() == old(self).files.view().dom().insert(path@),
            final(self).files.view()[path@]@ == content@,
            forall|p: Seq<char>| p != path@ ==> #[trigger] final(self).files.view().get(p) == old(self).files.view().get(
                p,
            ),
            final(self).read_results.view() == old(self).read_results.view(),
            final(self).write_results.view() == old(self).write_results.view(),
    {
        self.files.insert(to_owned_string(path), to_owned_string(content));
    }

    /// Reads a file: the result fixed for the path if any, else its content,
    /// else an error naming the path.
    pub fn read_file(&mut self, path: &str) -> (r: Result<String, String>)
        ensures
            final(self).files.view() == old(self).files.view(),
            final(self).read_results.view() == old(self).read_results.view(),
            final(self).write_results.view() == old(self).write_results.view(),
            old(self).read_results.view().dom().contains(path@) ==> r == old(self).read_results.view()[path@],
            !old(self).read_results.view().dom().contains(path@) ==> if old(self).files.view().dom().contains(path@) {
                r matches Ok(c) && c@ == old(self).files.view()[path@]@
            } else {
                r matches Err(m) && m@ == "File '"@ + path@ + "' not found"@
            },
    {
        match self.read_results.get(path) {
            Some(r) => return copy_text_result(r),
            None => {},
        }
        match self.files.get(path) {
            Some(c) => Ok(c.clone()),
            None => Err(concat3("File '", path, "' not found")),
        }
    }

    /// Writes a file: the result fixed for the path if any (and nothing is
    /// written), else the file is set and the write succeeds.
    pub fn write_file(&mut self, path: &str, content: &str) -> (r: Result<(), String>)
        ensures
            final(self).read_results.view() == old(self).read_results.view(),
            final(self).write_results.view() == old(self).write_results.view(),
            old(self).write_results.view().dom().contains(path@) ==> r == old(self).write_results.view()[path@]
                && final(self).files.view() == old(self).files.view(),
            !old(self).write_results.view().dom().contains(path@) ==> {
                &&& r is Ok
                &&& final(self).files.view().dom() == old(self).files.view().dom().insert(path@)
                &&& final(self).files.view()[path@]@ == content@
                &&& forall|p: Seq<char>| p != path@ ==> #[trigger] final(self).files.view().get(p) == old(
                    self,
                ).files.view().get(p)
            },
    {
        match self.write_results.get(path) {
            Some(r) => return copy_unit_result(r),
            None => {},
        }
        self.files.insert(to_owned_string(path), to_owned_string(content));
        Ok(())
    }

    /// Fixes the result of reading a path.
    pub fn set_read_result(&mut self, path: &str, result: Result<String, String>)
        ensures
            final(self).read_results.view() == old(self).read_results.view().insert(path@, result),
            final(self).files.view() == old(self).files.view(),
            final(self).write_results.view() == old(self).write_results.view(),
    {
        self.read_results.insert(to_owned_string(path), result);
    }

    /// Fixes the result of writing a path.
    pub fn set_write_result(&mut self, path: &str, result: Result<(), String>)
        ensures
            final(self).write_results.view() == old(self).write_results.view().insert(path@, result),
            final(self).files.view() == old(self).files.view(),
            final(self).read_results.view() == old(self).read_results.view(),
    {
        self.write_results.insert(to_owned_string(path), result);
    }
}

impl Default for MockFileSystem {
    fn default() -> (r: Self)
        ensures
            r.files.view() == Map::<Seq<char>, String>::empty(),
            r.read_results.view() == Map::<Seq<char>, Result<String, String>>::empty(),
            r.write_results.view() == Map::<Seq<char>, Result<(), String>>::empty(),
    {
        Self::new()
    }
}

/// A shell that records the commands it is given and answers from results
/// fixed in advance.
pub struct MockShellExecutor {
    pub command_outputs: KeyedList<Result<String, String>>,
    pub call_log: Vec<String>,
}

impl MockShellExecutor {
    /// No fixed results and an empty log.
    pub fn new() -> (r: Self)
        ensures
            r.command_outputs.view() == Map::<Seq<char>, Result<String, String>>::empty(),
            r.call_log@.len() == 0,
    {
        MockShellExecutor { command_outputs: KeyedList::new(), call_log: Vec::new() }
    }

    /// Fixes the result of a command.
    pub fn add_command_output(&mut self, command: &str, output: Result<String, String>)
        ensures
            final(self).command_outputs.view() == old(self).command_outputs.view().insert(command@, output),
            final(self).call_log@ == old(self).call_log@,
    {
        self.command_outputs.insert(to_owned_string(command), output);
    }

    /// Runs a command: logs it, then answers with its fixed result or with
    /// success.
    pub fn execute_command(&mut self, command: &str) -> (r: Result<String, String>)
        ensures
            final(self).command_outputs.view() == old(self).command_outputs.view(),
            final(self).call_log@.len() == old(self).call_log@.len() + 1,
            final(self).call_log@.drop_last() == old(self).call_log@,
            final(self).call_log@.last()@ == command@,
            old(self).command_outputs.view().dom().contains(command@) ==> r == old(self).command_outputs.view()[command@],
            !old(self).command_outputs.view().dom().contains(command@) ==> (r matches Ok(o) && o@ == "Command '"@
                + command@ + "' executed successfully"@),
    {
        let ghost before = self.call_log@;
        self.call_log.push(to_owned_string(command));
        assert(self.call_log@.drop_last() =~= before);
        match self.command_outputs.get(command) {
            Some(r) => copy_text_result(r),
            None => Ok(concat3("Command '", command, "' executed successfully")),
        }
    }

    /// The commands run so far, in order.
    pub fn get_call_log(&self) -> (r: Vec<String>)
        ensures
            r@ == self.call_log@,
    {
        let r = self.call_log.clone();
        assert(r@ =~= self.call_log@);
        r
    }

    /// Forgets the commands run so far.
    pub fn reset_call_log(&mut self)
        ensures
            final(self).call_log@.len() == 0,
            final(self).command_outputs.view() == old(self).command_outputs.view(),
    {
        self.call_log.clear();
    }
}

impl Default for MockShellExecutor {
    fn default() -> (r: Self)
        ensures
            r.command_outputs.view() == Map::<Seq<char>, Result<String, String>>::empty(),
            r.call_log@.len() == 0,
    {
        Self::new()
    }
}

/// The `write_file` tool on the in-memory file system.
pub struct MockWriteFileTool {
    pub mock_file_system: MockFileSystem,
}

impl MockWriteFileTool {
    /// The tool over a file system.
    pub fn new(mock_file_system: MockFileSystem) -> (r: Self)
        ensures
            r.mock_file_system == mock_file_system,
    {
        MockWriteFileTool { mock_file_system }
    }

    /// The kind of tool: it works on files.
    pub fn profile(&self) -> (r: ToolProfile)
        ensures
            r == ToolProfile::File,
    {
        ToolProfile::File
    }

    /// Writes the `content` argument to the `path` argument.
    pub fn execute(&mut self, args: &str) -> (r: Result<String, String>)
        ensures
            text_argument(args@, "/path"@).len() == 0 ==> (r matches Err(m) && m@ == "'path' argument is required"@),
            text_argument(args@, "/path"@).len() > 0 ==> {
                let path = text_argument(args@, "/path"@);
                let fs = old(self).mock_file_system;
                if fs.write_results.view().dom().contains(path) {
                    match fs.write_results.view()[path] {
                        Ok(()) => r matches Ok(m) && m@ == "File '"@ + path + "' written successfully."@,
                        Err(e) => r == Err::<String, String>(e),
                    }
                } else {
                    &&& r matches Ok(m) && m@ == "File '"@ + path + "' written successfully."@
                    &&& final(self).mock_file_system.files.view()[path]@ == text_argument(args@, "/content"@)
                }
            },
    {
        let path = argument_text(args, "/path");
        let content = argument_text(args, "/content");
        if path.as_str().unicode_len() == 0 {
            return Err(String::from_str("'path' argument is required"));
        }
        match self.mock_file_system.write_file(path.as_str(), content.as_str()) {
            Ok(()) => Ok(concat3("File '", path.as_str(), "' written successfully.")),
            Err(e) => Err(e),
        }
    }
}

/// The `read_file` tool on the in-memory file system.
pub struct MockReadFileTool {
    pub mock_file_system: MockFileSystem,
}

impl MockReadFileTool {
    /// The tool over a file system.
    pub fn new(mock_file_system: MockFileSystem) -> (r: Self)
        ensures
            r.mock_file_system == mock_file_system,
    {
        MockReadFileTool { mock_file_system }
    }

    /// The kind of tool: it works on files.
    pub fn profile(&self) -> (r: ToolProfile)
        ensures
            r == ToolProfile::File,
    {
        ToolProfile::File
    }

    /// Reads the file at the `path` argument.
    pub fn execute(&mut self, args: &str) -> (r: Result<String, String>)
        ensures
            text_argument(args@, "/path"@).len() == 0 ==> (r matches Err(m) && m@ == "'path' argument is required"@),
            text_argument(args@, "/path"@).len() > 0 ==> {
                let path = text_argument(args@, "/path"@);
                let fs = old(self).mock_file_system;
                if fs.read_results.view().dom().contains(path) {
                    r == fs.read_results.view()[path]
                } else if fs.files.view().dom().contains(path) {
                    r matches Ok(c) && c@ == fs.files.view()[path]@
                } else {
                    r matches Err(m) && m@ == "File '"@ + path + "' not found"@
                }
            },
    {
        let path = argument_text(args, "/path");
        if path.as_str().unicode_len() == 0 {
            return Err(String::from_str("'path' argument is required"));
        }
        self.mock_file_system.read_file(path.as_str())
    }
}

/// The `run_shell_command` tool on the recording shell.
pub struct MockRunShellCommandTool {
    pub mock_shell_executor: MockShellExecutor,
}

impl MockRunShellCommandTool {
    /// The tool over a shell.
    pub fn new(mock_shell_executor: MockShellExecutor) -> (r: Self)
        ensures
            r.mock_shell_executor == mock_shell_executor,
    {
        MockRunShellCommandTool { mock_shell_executor }
    }

    /// The kind of tool: it runs shell commands.
    pub fn profile(&self) -> (r: ToolProfile)
        ensures
            r == ToolProfile::Shell,
    {
        ToolProfile::Shell
    }

    /// Runs the `command` argument.
    pub fn execute(&mut self, args: &str) -> (r: Result<String, String>)
        ensures
            text_argument(args@, "/command"@).len() == 0 ==> (r matches Err(m) && m@
                == "'command' argument is required"@),
            text_argument(args@, "/command"@).len() > 0 ==> {
                let command = text_argument(args@, "/command"@);
                let sh = old(self).mock_shell_executor;
                &&& final(self).mock_shell_executor.call_log@.drop_last() == sh.call_log@
                &&& final(self).mock_shell_executor.call_log@.last()@ == command
                &&& if sh.command_outputs.view().dom().contains(command) {
                    r == sh.command_outputs.view()[command]
                } else {
                    r matches Ok(o) && o@ == "Command '"@ + command + "' executed successfully"@
                }
            },
    {
        let command = argument_text(args, "/command");
        if command.as_str().unicode_len() == 0 {
            return Err(String::from_str("'command' argument is required"));
        }
        self.mock_shell_executor.execute_command(command.as_str())
    }
}

} // verus!
