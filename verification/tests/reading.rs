use fs_mcp_server::error::{CallToolError, ErrorKind};
use fs_mcp_server::result::CallToolResult;
use fs_mcp_server::tools::ReadFileTool;

fn reader(path: &str) -> ReadFileTool {
    ReadFileTool { path: path.to_string() }
}

#[test]
fn read_returns_content_unchanged() {
    let content = "first line\n\tsecond line \u{1F600}\r\n\n";
    let outcome = reader("/tmp/known.txt").call_tool(|_| Ok(content.to_string()));
    assert_eq!(outcome, Ok(CallToolResult { content: vec![content.to_string()] }));
}

#[test]
fn read_of_an_empty_file_is_one_empty_segment() {
    let outcome = reader("/tmp/empty").result_of(Ok(String::new()));
    assert_eq!(outcome, Ok(CallToolResult { content: vec![String::new()] }));
}

#[test]
fn read_hands_the_path_to_the_host_as_it_is() {
    let mut seen = None;
    let _ = reader("../up/./x y").call_tool(|path: String| {
        seen = Some(path);
        Ok(String::new())
    });
    assert_eq!(seen, Some("../up/./x y".to_string()));
}

#[test]
fn read_failure_mentions_path() {
    let outcome = reader("/nonexistent/x").call_tool(|_| Err("No such file or directory (os error 2)".to_string()));
    assert_eq!(
        outcome,
        Err(CallToolError {
            kind: ErrorKind::Execution,
            message: "Failed to read file /nonexistent/x: No such file or directory (os error 2)".to_string(),
        })
    );
}

#[test]
fn read_failure_of_any_reason_is_an_execution_error() {
    for reason in ["Permission denied (os error 13)", "stream did not contain valid UTF-8", ""] {
        let failure = reader("/p").result_of(Err(reason.to_string())).unwrap_err();
        assert_eq!(failure.kind, ErrorKind::Execution);
        assert_eq!(failure.message, format!("Failed to read file /p: {}", reason));
        assert!(failure.message.contains("/p"));
    }
}
