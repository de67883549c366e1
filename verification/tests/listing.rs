use fs_mcp_server::error::{CallToolError, ErrorKind, ToolError};
use fs_mcp_server::result::CallToolResult;
use fs_mcp_server::tools::{CommandLine, LsCommandTool, ProcessOutput, Transcript};

fn listing(path: &str, args: Option<&str>) -> LsCommandTool {
    LsCommandTool { path: path.to_string(), args: args.map(|a| a.to_string()) }
}

fn ended(exit_code: Option<i32>, stdout: &[u8], stderr: &[u8]) -> ProcessOutput {
    ProcessOutput { exit_code, stdout: stdout.to_vec(), stderr: stderr.to_vec() }
}

#[test]
fn args_become_two_tokens_before_path() {
    let mut seen = None;
    let outcome = listing("/tmp", Some("-l -a")).call_tool(|command: CommandLine| {
        seen = Some(command);
        Ok(ended(Some(0), b"", b""))
    });
    assert!(outcome.is_ok());
    assert_eq!(
        seen,
        Some(CommandLine {
            program: "ls".to_string(),
            arguments: vec!["-l".to_string(), "-a".to_string(), "/tmp".to_string()],
        })
    );
}

#[test]
fn command_without_options_holds_the_path_alone() {
    assert_eq!(
        listing(".", None).command(),
        CommandLine { program: "ls".to_string(), arguments: vec![".".to_string()] }
    );
}

#[test]
fn command_with_blank_options_holds_the_path_alone() {
    assert_eq!(
        listing("/var", Some("  \t ")).command(),
        CommandLine { program: "ls".to_string(), arguments: vec!["/var".to_string()] }
    );
}

#[test]
fn command_keeps_the_path_whole() {
    assert_eq!(
        listing("/my files/x y", Some("-1")).command(),
        CommandLine {
            program: "ls".to_string(),
            arguments: vec!["-1".to_string(), "/my files/x y".to_string()],
        }
    );
}

#[test]
fn command_passes_options_on_as_they_are() {
    assert_eq!(
        listing("-l", Some("--no-such-option ; rm")).command().arguments,
        vec!["--no-such-option".to_string(), ";".to_string(), "rm".to_string(), "-l".to_string()]
    );
}

#[test]
fn exit_status_zero_gives_the_output_as_one_segment() {
    let outcome = LsCommandTool::result_of(Ok(ended(Some(0), b"a.txt\nb.txt\n", b"warning\n")));
    assert_eq!(outcome, Ok(CallToolResult { content: vec!["a.txt\nb.txt\n".to_string()] }));
}

#[test]
fn empty_output_is_still_one_segment() {
    let outcome = LsCommandTool::result_of(Ok(ended(Some(0), b"", b"")));
    assert_eq!(outcome, Ok(CallToolResult { content: vec![String::new()] }));
}

#[test]
fn another_exit_status_gives_the_error_output() {
    let outcome = LsCommandTool::result_of(Ok(ended(
        Some(2),
        b"partial",
        b"ls: cannot access '/nope': No such file or directory\n",
    )));
    assert_eq!(
        outcome,
        Err(CallToolError {
            kind: ErrorKind::Execution,
            message: "ls command failed: ls: cannot access '/nope': No such file or directory\n"
                .to_string(),
        })
    );
}

#[test]
fn an_end_without_exit_status_is_a_failure() {
    let outcome = LsCommandTool::result_of(Ok(ended(None, b"a.txt\n", b"")));
    assert_eq!(
        outcome,
        Err(CallToolError { kind: ErrorKind::Execution, message: "ls command failed: ".to_string() })
    );
}

#[test]
fn a_command_that_did_not_start_gives_the_reason() {
    let outcome = LsCommandTool::result_of(Err("No such file or directory (os error 2)".to_string()));
    assert_eq!(
        outcome,
        Err(CallToolError {
            kind: ErrorKind::Execution,
            message: "Failed to execute ls command: No such file or directory (os error 2)".to_string(),
        })
    );
}

#[test]
fn ill_formed_output_is_decoded_with_replacement() {
    let outcome = LsCommandTool::result_of(Ok(ended(Some(0), &[0x61, 0xff, 0x0a], b"")));
    assert_eq!(outcome, Ok(CallToolResult { content: vec!["a\u{FFFD}\n".to_string()] }));
    let outcome = LsCommandTool::result_of(Ok(ended(Some(1), b"", &[0xfe, 0x21])));
    assert_eq!(outcome.unwrap_err().message, "ls command failed: \u{FFFD}!");
}

#[test]
fn transcript_decodes_both_streams() {
    let transcript = ended(Some(3), "été\n".as_bytes(), &[0x80]).transcript();
    assert_eq!(
        transcript,
        Transcript { exit_code: Some(3), stdout: "été\n".to_string(), stderr: "\u{FFFD}".to_string() }
    );
}

#[test]
fn report_reads_the_transcript() {
    let transcript = Transcript { exit_code: Some(0), stdout: "out".to_string(), stderr: "err".to_string() };
    assert_eq!(
        LsCommandTool::report(Ok(transcript)),
        Ok(CallToolResult { content: vec!["out".to_string()] })
    );
    let transcript = Transcript { exit_code: Some(-1), stdout: "out".to_string(), stderr: "err".to_string() };
    assert_eq!(
        LsCommandTool::report(Ok(transcript)),
        Err(CallToolError { kind: ErrorKind::Execution, message: "ls command failed: err".to_string() })
    );
    assert_eq!(
        LsCommandTool::report(Err("denied".to_string())),
        Err(CallToolError {
            kind: ErrorKind::Execution,
            message: "Failed to execute ls command: denied".to_string(),
        })
    );
}

#[test]
fn call_tool_hands_back_what_the_listing_makes_of_the_answer() {
    let outcome = listing("/tmp", None).call_tool(|_| Ok(ended(Some(0), b"a.txt\nb.txt\n", b"")));
    assert_eq!(outcome, Ok(CallToolResult { content: vec!["a.txt\nb.txt\n".to_string()] }));
    let outcome = listing("/tmp", None).call_tool(|_| Err("Permission denied (os error 13)".to_string()));
    assert_eq!(
        outcome.unwrap_err().message,
        "Failed to execute ls command: Permission denied (os error 13)"
    );
}

#[test]
fn tool_error_keeps_its_message() {
    let error = ToolError::new("ls command failed: x".to_string());
    assert_eq!(error.message, "ls command failed: x");
    assert_eq!(error.to_string(), "ls command failed: x");
    let failure = CallToolError::new(error);
    assert_eq!(failure.kind, ErrorKind::Execution);
    assert_eq!(failure.to_string(), "ls command failed: x");
}

#[test]
fn result_of_segments_keeps_them_in_order() {
    let result = CallToolResult::text_content(vec!["one".to_string(), "two".to_string()]);
    assert_eq!(result.content, vec!["one".to_string(), "two".to_string()]);
    assert_eq!(CallToolResult::single("only".to_string()).content, vec!["only".to_string()]);
}
