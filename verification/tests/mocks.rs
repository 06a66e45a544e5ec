use oxide_agent::mocks::{
    KeyedList, MockFileSystem, MockReadFileTool, MockRunShellCommandTool, MockShellExecutor, MockWriteFileTool,
};
use oxide_agent::tools::ToolProfile;

#[test]
fn keyed_list_reads_back_the_last_write() {
    let mut m: KeyedList<u32> = KeyedList::new();
    assert!(m.get("a").is_none());
    m.insert("a".to_string(), 1);
    m.insert("b".to_string(), 2);
    m.insert("a".to_string(), 3);
    assert_eq!(m.get("a"), Some(&3));
    assert_eq!(m.get("b"), Some(&2));
    assert!(m.get("c").is_none());
}

#[test]
fn mock_file_system_reads_what_was_written() {
    let mut fs = MockFileSystem::new();
    assert_eq!(fs.read_file("x"), Err("File 'x' not found".to_string()));
    fs.add_file("x", "one");
    assert_eq!(fs.read_file("x"), Ok("one".to_string()));
    assert_eq!(fs.write_file("x", "two"), Ok(()));
    assert_eq!(fs.read_file("x"), Ok("two".to_string()));
}

#[test]
fn fixed_results_take_precedence() {
    let mut fs = MockFileSystem::default();
    fs.add_file("x", "one");
    fs.set_read_result("x", Err("denied".to_string()));
    assert_eq!(fs.read_file("x"), Err("denied".to_string()));
    fs.set_write_result("y", Err("read-only".to_string()));
    assert_eq!(fs.write_file("y", "data"), Err("read-only".to_string()));
    assert!(fs.files.get("y").is_none());
}

#[test]
fn mock_shell_logs_and_answers() {
    let mut sh = MockShellExecutor::new();
    sh.add_command_output("ls", Ok("a b".to_string()));
    assert_eq!(sh.execute_command("ls"), Ok("a b".to_string()));
    assert_eq!(sh.execute_command("pwd"), Ok("Command 'pwd' executed successfully".to_string()));
    assert_eq!(sh.get_call_log(), vec!["ls".to_string(), "pwd".to_string()]);
    sh.reset_call_log();
    assert!(sh.get_call_log().is_empty());
}

#[test]
fn mock_tools_check_their_arguments() {
    let mut write = MockWriteFileTool::new(MockFileSystem::new());
    assert_eq!(write.execute("{}"), Err("'path' argument is required".to_string()));
    assert_eq!(
        write.execute("{\"path\":\"notes.txt\",\"content\":\"hi\"}"),
        Ok("File 'notes.txt' written successfully.".to_string())
    );
    let mut read = MockReadFileTool::new(write.mock_file_system);
    assert_eq!(read.execute("{\"path\":\"notes.txt\"}"), Ok("hi".to_string()));
    assert_eq!(read.execute("{\"path\":7}"), Err("'path' argument is required".to_string()));
    let mut shell = MockRunShellCommandTool::new(MockShellExecutor::new());
    assert_eq!(shell.execute("{}"), Err("'command' argument is required".to_string()));
    assert_eq!(shell.execute("{\"command\":\"date\"}"), Ok("Command 'date' executed successfully".to_string()));
    assert_eq!(shell.mock_shell_executor.call_log, vec!["date".to_string()]);
}

#[test]
fn mock_tools_report_their_profile() {
    assert_eq!(MockWriteFileTool::new(MockFileSystem::new()).profile(), ToolProfile::File);
    assert_eq!(MockReadFileTool::new(MockFileSystem::new()).profile(), ToolProfile::File);
    assert_eq!(MockRunShellCommandTool::new(MockShellExecutor::new()).profile(), ToolProfile::Shell);
}
