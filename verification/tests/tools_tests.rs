use sashiko::json::{Json, JsonNumber};
use sashiko::tools::{
    command_output, line_window, read_file_slice, read_window_is_backwards, EntryKind, GitCommand, ToolBox, ToolError,
    ToolRequest,
};

fn object(members: Vec<(&str, Json)>) -> Json {
    Json::Object(members.into_iter().map(|(k, v)| (k.to_string(), v)).collect())
}

fn text(s: &str) -> Json {
    Json::String(s.to_string())
}

fn number(n: u64) -> Json {
    Json::Number(JsonNumber::PosInt(n))
}

fn toolbox() -> ToolBox {
    ToolBox::new("/work/tree".to_string(), "/prompts".to_string())
}

#[test]
fn validate_path_joins_relative_paths() {
    let tools = toolbox();
    match tools.validate_path("src/main.rs", "/work/tree") {
        Ok(p) => assert_eq!(p, "/work/tree/src/main.rs"),
        Err(e) => panic!("refused: {:?}", e),
    }
    match tools.validate_path("x", "/base/") {
        Ok(p) => assert_eq!(p, "/base/x"),
        Err(e) => panic!("refused: {:?}", e),
    }
}

#[test]
fn validate_path_refuses_parent_directories() {
    let tools = toolbox();
    assert!(matches!(tools.validate_path("../etc/passwd", "/work/tree"), Err(ToolError::InvalidPath(p)) if p == "../etc/passwd"));
    assert!(matches!(tools.validate_path("a/../../b", "/work/tree"), Err(ToolError::InvalidPath(_))));
    assert!(matches!(tools.validate_path("notes..txt", "/work/tree"), Err(ToolError::InvalidPath(_))));
}

#[test]
fn validate_path_refuses_absolute_paths() {
    let tools = toolbox();
    assert!(matches!(tools.validate_path("/etc/passwd", "/work/tree"), Err(ToolError::InvalidPath(p)) if p == "/etc/passwd"));
}

#[test]
fn call_rejects_unknown_tool() {
    let tools = toolbox();
    let args = object(vec![]);
    assert!(matches!(tools.call("rm_rf", &args), Err(ToolError::UnknownTool(n)) if n == "rm_rf"));
}

#[test]
fn call_read_file_plans_a_read() {
    let tools = toolbox();
    let args = object(vec![("path", text("README.md")), ("start_line", number(3)), ("end_line", number(9))]);
    match tools.call("read_file", &args) {
        Ok(ToolRequest::ReadFile { path, start_line, end_line }) => {
            assert_eq!(path, "/work/tree/README.md");
            assert_eq!(start_line, Some(3));
            assert_eq!(end_line, Some(9));
        }
        other => panic!("unexpected {:?}", other),
    }
}

#[test]
fn call_read_file_ignores_negative_line_numbers() {
    let tools = toolbox();
    let args = object(vec![("path", text("a.rs")), ("start_line", Json::Number(JsonNumber::NegInt(-2)))]);
    match tools.call("read_file", &args) {
        Ok(ToolRequest::ReadFile { start_line, end_line, .. }) => {
            assert_eq!(start_line, None);
            assert_eq!(end_line, None);
        }
        other => panic!("unexpected {:?}", other),
    }
}

#[test]
fn call_read_file_requires_a_path() {
    let tools = toolbox();
    let args = object(vec![("path", number(7))]);
    assert!(matches!(tools.call("read_file", &args), Err(ToolError::MissingArgument(k)) if k == "path"));
    assert!(matches!(tools.call("read_file", &Json::Null), Err(ToolError::MissingArgument(k)) if k == "path"));
}

#[test]
fn call_read_file_refuses_traversal() {
    let tools = toolbox();
    let args = object(vec![("path", text("../secret"))]);
    assert!(matches!(tools.call("read_file", &args), Err(ToolError::InvalidPath(_))));
}

#[test]
fn call_git_blame_with_range() {
    let tools = toolbox();
    let args = object(vec![("path", text("src/lib.rs")), ("start_line", number(10)), ("end_line", number(20))]);
    match tools.call("git_blame", &args) {
        Ok(ToolRequest::RunGit { program, command, dir, args }) => {
            assert_eq!(program, "git");
            assert_eq!(command, GitCommand::Blame);
            assert_eq!(dir, "/work/tree");
            assert_eq!(args, vec!["blame", "-L10,20", "--", "src/lib.rs"]);
        }
        other => panic!("unexpected {:?}", other),
    }
}

#[test]
fn call_git_blame_without_full_range() {
    let tools = toolbox();
    let args = object(vec![("path", text("src/lib.rs")), ("start_line", number(10))]);
    match tools.call("git_blame", &args) {
        Ok(ToolRequest::RunGit { args, .. }) => assert_eq!(args, vec!["blame", "--", "src/lib.rs"]),
        other => panic!("unexpected {:?}", other),
    }
}

#[test]
fn call_git_diff_keeps_string_arguments() {
    let tools = toolbox();
    let args = object(vec![("args", Json::Array(vec![text("HEAD^"), number(1), text("HEAD")]))]);
    match tools.call("git_diff", &args) {
        Ok(ToolRequest::RunGit { command, args, .. }) => {
            assert_eq!(command, GitCommand::Diff);
            assert_eq!(args, vec!["diff", "HEAD^", "HEAD"]);
        }
        other => panic!("unexpected {:?}", other),
    }
    let missing = object(vec![("args", text("HEAD"))]);
    assert!(matches!(tools.call("git_diff", &missing), Err(ToolError::MissingArgument(k)) if k == "args"));
}

#[test]
fn call_git_show_and_listing_and_prompts() {
    let tools = toolbox();
    match tools.call("git_show", &object(vec![("object", text("HEAD:README.md"))])) {
        Ok(ToolRequest::RunGit { command, args, .. }) => {
            assert_eq!(command, GitCommand::Show);
            assert_eq!(args, vec!["show", "HEAD:README.md"]);
        }
        other => panic!("unexpected {:?}", other),
    }
    assert!(matches!(tools.call("git_show", &object(vec![])), Err(ToolError::MissingArgument(k)) if k == "object"));
    match tools.call("list_dir", &object(vec![("path", text("src"))])) {
        Ok(ToolRequest::ListDir { path }) => assert_eq!(path, "/work/tree/src"),
        other => panic!("unexpected {:?}", other),
    }
    match tools.call("read_prompt", &object(vec![("name", text("core/identity.md"))])) {
        Ok(ToolRequest::ReadPrompt { path }) => assert_eq!(path, "/prompts/core/identity.md"),
        other => panic!("unexpected {:?}", other),
    }
    assert!(matches!(tools.call("read_prompt", &object(vec![("path", text("x.md"))])), Err(ToolError::MissingArgument(k)) if k == "name"));
}

#[test]
fn read_file_slice_whole_file() {
    let slice = read_file_slice("one\ntwo\nthree\n", None, None);
    assert_eq!(slice.content, "one\ntwo\nthree");
    assert_eq!(slice.lines_read, 3);
    assert_eq!(slice.total_lines, 3);
    assert_eq!(slice.shown, Some((1, 3)));
}

#[test]
fn read_file_slice_range() {
    let slice = read_file_slice("one\r\ntwo\nthree\nfour", Some(2), Some(3));
    assert_eq!(slice.content, "two\nthree");
    assert_eq!(slice.lines_read, 2);
    assert_eq!(slice.total_lines, 4);
    assert_eq!(slice.shown, Some((2, 3)));
}

#[test]
fn read_file_slice_clamps_range() {
    let slice = read_file_slice("a\nb\nc", Some(0), Some(99));
    assert_eq!(slice.content, "a\nb\nc");
    assert_eq!(slice.shown, Some((1, 3)));
}

#[test]
fn read_file_slice_past_the_end() {
    let slice = read_file_slice("a\nb", Some(5), None);
    assert_eq!(slice.content, "");
    assert_eq!(slice.lines_read, 0);
    assert_eq!(slice.total_lines, 2);
    assert_eq!(slice.shown, None);
    let empty = read_file_slice("", None, None);
    assert_eq!(empty.total_lines, 0);
    assert_eq!(empty.shown, None);
}

#[test]
fn read_file_slice_keeps_lone_carriage_return() {
    let slice = read_file_slice("x\ry\n\nz\r", None, None);
    assert_eq!(slice.total_lines, 3);
    assert_eq!(slice.content, "x\ry\n\nz\r");
}

#[test]
fn line_window_reports_backwards_ranges() {
    assert_eq!(line_window(10, Some(5), Some(2)), (4, 2));
    assert_eq!(line_window(10, None, None), (0, 10));
    assert_eq!(line_window(10, Some(1), Some(20)), (0, 10));
}

#[test]
fn command_output_passes_stdout_or_reports_failure() {
    assert_eq!(command_output(GitCommand::Show, true, "ok".to_string(), "".to_string()).unwrap(), "ok");
    match command_output(GitCommand::Blame, false, "".to_string(), "fatal: no such path".to_string()) {
        Err(ToolError::CommandFailed { command, stderr }) => {
            assert_eq!(command, GitCommand::Blame);
            assert_eq!(stderr, "fatal: no such path");
        }
        other => panic!("unexpected {:?}", other),
    }
}

#[test]
fn entry_kinds_and_command_words() {
    assert_eq!(EntryKind::of(true).label(), "dir");
    assert_eq!(EntryKind::of(false).label(), "file");
    assert_eq!(GitCommand::Blame.word(), "blame");
    assert_eq!(GitCommand::Diff.word(), "diff");
    assert_eq!(GitCommand::Show.word(), "show");
}

#[test]
fn declarations_name_the_six_tools() {
    let tools = toolbox();
    let declared = tools.get_declarations();
    let names: Vec<&str> = declared.function_declarations.iter().map(|d| d.name.as_str()).collect();
    assert_eq!(names, vec!["read_file", "git_blame", "git_diff", "git_show", "list_dir", "read_prompt"]);
    for d in &declared.function_declarations {
        assert!(!matches!(tools.call(&d.name, &object(vec![])), Err(ToolError::UnknownTool(_))));
    }
    let first = &declared.function_declarations[0];
    assert_eq!(first.description, "Read the content of a file (with optional line range).");
    match first.parameters.get("required") {
        Some(Json::Array(items)) => assert!(matches!(&items[..], [Json::String(s)] if s == "path")),
        other => panic!("unexpected {:?}", other),
    }
    match first.parameters.get("properties").and_then(|p| p.get("start_line")).and_then(|p| p.get("type")) {
        Some(Json::String(s)) => assert_eq!(s, "integer"),
        other => panic!("unexpected {:?}", other),
    }
}

#[test]
fn backwards_windows_are_detected() {
    assert!(read_window_is_backwards("a\nb\nc", Some(3), Some(1)));
    assert!(!read_window_is_backwards("a\nb\nc", Some(5), Some(1)));
    assert!(!read_window_is_backwards("a\nb\nc", Some(1), Some(2)));
    assert!(!read_window_is_backwards("", Some(2), Some(1)));
}
