use fs_mcp_server::dispatcher::{dispatch, FileSystemTools};
use fs_mcp_server::error::{CallToolError, ErrorKind};
use fs_mcp_server::handler::{CallToolRequest, FileSystemServerHandler};
use fs_mcp_server::params::{Arguments, ParamValue};
use fs_mcp_server::result::CallToolResult;
use fs_mcp_server::tools::{CommandLine, LsCommandTool, ProcessOutput, ReadFileTool};

fn arguments(entries: Vec<(&str, ParamValue)>) -> Arguments {
    let mut arguments = Arguments::new();
    for (name, value) in entries {
        arguments.insert(name.to_string(), value);
    }
    arguments
}

fn text(value: &str) -> ParamValue {
    ParamValue::Text(value.to_string())
}

fn no_run(_: CommandLine) -> Result<ProcessOutput, String> {
    panic!("no command was to be run")
}

fn no_read(_: String) -> Result<String, String> {
    panic!("no file was to be read")
}

fn listing_of(names: &[&str]) -> ProcessOutput {
    let mut stdout = String::new();
    for name in names {
        stdout.push_str(name);
        stdout.push('\n');
    }
    ProcessOutput { exit_code: Some(0), stdout: stdout.into_bytes(), stderr: Vec::new() }
}

#[test]
fn listing_a_directory_with_two_files_names_both() {
    let mut seen = None;
    let outcome = dispatch(
        "ls_command",
        &arguments(vec![("path", text("/tmp"))]),
        |command: CommandLine| {
            seen = Some(command);
            Ok(listing_of(&["a.txt", "b.txt"]))
        },
        no_read,
    );
    assert_eq!(
        seen,
        Some(CommandLine { program: "ls".to_string(), arguments: vec!["/tmp".to_string()] })
    );
    let result = outcome.unwrap();
    assert_eq!(result.content.len(), 1);
    assert!(result.content[0].contains("a.txt"));
    assert!(result.content[0].contains("b.txt"));
}

#[test]
fn reading_a_missing_file_is_an_execution_error_that_names_it() {
    let outcome = dispatch(
        "read_file",
        &arguments(vec![("path", text("/nonexistent/x"))]),
        no_run,
        |path: String| {
            assert_eq!(path, "/nonexistent/x");
            Err("No such file or directory (os error 2)".to_string())
        },
    );
    let failure = outcome.unwrap_err();
    assert_eq!(failure.kind, ErrorKind::Execution);
    assert!(failure.message.contains("/nonexistent/x"));
}

#[test]
fn unknown_name_is_a_resolution_error() {
    for name in ["", "ls", "LS_COMMAND", "ls_command ", "read_files", "write_file"] {
        for arguments in [
            Arguments::new(),
            arguments(vec![("path", text("/tmp"))]),
            arguments(vec![("path", ParamValue::Number), ("args", ParamValue::Object)]),
        ] {
            let outcome = dispatch(name, &arguments, no_run, no_read);
            assert_eq!(
                outcome,
                Err(CallToolError {
                    kind: ErrorKind::Resolution,
                    message: format!("Unknown tool: {}", name),
                })
            );
        }
    }
}

#[test]
fn valid_calls_never_fail_in_resolution_or_validation() {
    let calls = vec![
        ("ls_command", Arguments::new()),
        ("ls_command", arguments(vec![("args", text("-l -a"))])),
        ("ls_command", arguments(vec![("path", text("/tmp")), ("args", ParamValue::Null)])),
        ("read_file", arguments(vec![("path", text("/etc/hostname"))])),
    ];
    for (name, arguments) in calls {
        let served = dispatch(name, &arguments, |_| Ok(listing_of(&["x"])), |_| Ok("x".to_string()));
        assert!(served.is_ok());
        let failed = dispatch(
            name,
            &arguments,
            |_| Ok(ProcessOutput { exit_code: Some(1), stdout: Vec::new(), stderr: b"no".to_vec() }),
            |_| Err("no".to_string()),
        );
        assert_eq!(failed.unwrap_err().kind, ErrorKind::Execution);
        let not_started = dispatch(name, &arguments, |_| Err("no".to_string()), |_| Err("no".to_string()));
        assert_eq!(not_started.unwrap_err().kind, ErrorKind::Execution);
    }
}

#[test]
fn parameters_that_the_schema_refuses_are_a_validation_error() {
    let outcome = dispatch("read_file", &Arguments::new(), no_run, no_read);
    assert_eq!(
        outcome,
        Err(CallToolError { kind: ErrorKind::Validation, message: "missing field `path`".to_string() })
    );
    let outcome = dispatch("ls_command", &arguments(vec![("args", ParamValue::Number)]), no_run, no_read);
    assert_eq!(
        outcome,
        Err(CallToolError {
            kind: ErrorKind::Validation,
            message: "invalid type for field `args`: number, expected a string".to_string(),
        })
    );
}

#[test]
fn dispatch_calls_the_host_once_and_only_for_the_tool() {
    let mut runs = 0;
    let mut reads = 0;
    let _ = dispatch(
        "ls_command",
        &Arguments::new(),
        |_| {
            runs += 1;
            Ok(listing_of(&[]))
        },
        |_| {
            reads += 1;
            Ok(String::new())
        },
    );
    assert_eq!((runs, reads), (1, 0));
    let _ = dispatch(
        "read_file",
        &arguments(vec![("path", text("/x"))]),
        |_| {
            runs += 1;
            Ok(listing_of(&[]))
        },
        |_| {
            reads += 1;
            Ok(String::new())
        },
    );
    assert_eq!((runs, reads), (1, 1));
}

#[test]
fn dispatch_hands_back_the_result_of_the_tool_unchanged() {
    let outcome = dispatch("read_file", &arguments(vec![("path", text("/x"))]), no_run, |_| {
        Ok("content\n".to_string())
    });
    assert_eq!(outcome, Ok(CallToolResult { content: vec!["content\n".to_string()] }));
}

#[test]
fn omitted_path_is_served_as_dot() {
    let mut omitted = None;
    let mut given = None;
    let first = dispatch(
        "ls_command",
        &arguments(vec![("args", text("-a"))]),
        |command: CommandLine| {
            omitted = Some(command);
            Ok(listing_of(&[".", ".."]))
        },
        no_read,
    );
    let second = dispatch(
        "ls_command",
        &arguments(vec![("args", text("-a")), ("path", text("."))]),
        |command: CommandLine| {
            given = Some(command);
            Ok(listing_of(&[".", ".."]))
        },
        no_read,
    );
    assert_eq!(omitted, given);
    assert_eq!(
        omitted,
        Some(CommandLine { program: "ls".to_string(), arguments: vec!["-a".to_string(), ".".to_string()] })
    );
    assert_eq!(first, second);
}

#[test]
fn a_request_resolves_to_its_tool() {
    assert_eq!(
        FileSystemTools::from_request("ls_command", &arguments(vec![("args", text("-l"))])),
        Ok(FileSystemTools::LsCommandTool(LsCommandTool {
            path: ".".to_string(),
            args: Some("-l".to_string()),
        }))
    );
    assert_eq!(
        FileSystemTools::from_request("read_file", &arguments(vec![("path", text("/x"))])),
        Ok(FileSystemTools::ReadFileTool(ReadFileTool { path: "/x".to_string() }))
    );
    assert_eq!(
        FileSystemTools::from_request("list", &Arguments::new()).unwrap_err().kind,
        ErrorKind::Resolution
    );
}

#[test]
fn a_resolved_tool_knows_its_name() {
    let listing = FileSystemTools::LsCommandTool(LsCommandTool { path: ".".to_string(), args: None });
    let reading = FileSystemTools::ReadFileTool(ReadFileTool { path: "/x".to_string() });
    assert_eq!(listing.tool_name(), "ls_command");
    assert_eq!(reading.tool_name(), "read_file");
}

#[test]
fn a_resolved_tool_runs_with_its_own_host_function() {
    let listing = FileSystemTools::LsCommandTool(LsCommandTool { path: ".".to_string(), args: None });
    assert_eq!(
        listing.call_tool(|_| Ok(listing_of(&["a"])), no_read),
        Ok(CallToolResult { content: vec!["a\n".to_string()] })
    );
    let reading = FileSystemTools::ReadFileTool(ReadFileTool { path: "/x".to_string() });
    assert_eq!(
        reading.call_tool(no_run, |_| Ok("b".to_string())),
        Ok(CallToolResult { content: vec!["b".to_string()] })
    );
}

#[test]
fn handler_serves_a_request() {
    let handler = FileSystemServerHandler;
    let request = CallToolRequest {
        name: "read_file".to_string(),
        arguments: Some(arguments(vec![("path", text("/x"))])),
    };
    assert_eq!(
        handler.handle_call_tool_request(&request, no_run, |_| Ok("b".to_string())),
        Ok(CallToolResult { content: vec!["b".to_string()] })
    );
}

#[test]
fn a_request_without_parameters_has_none() {
    let handler = FileSystemServerHandler;
    let mut seen = None;
    let request = CallToolRequest { name: "ls_command".to_string(), arguments: None };
    let outcome = handler.handle_call_tool_request(
        &request,
        |command: CommandLine| {
            seen = Some(command.arguments);
            Ok(listing_of(&[]))
        },
        no_read,
    );
    assert!(outcome.is_ok());
    assert_eq!(seen, Some(vec![".".to_string()]));
    let request = CallToolRequest { name: "read_file".to_string(), arguments: None };
    let failure = handler.handle_call_tool_request(&request, no_run, no_read).unwrap_err();
    assert_eq!(failure.kind, ErrorKind::Validation);
    assert_eq!(failure.message, "missing field `path`");
    let request = CallToolRequest { name: "other".to_string(), arguments: None };
    let failure = handler.handle_call_tool_request(&request, no_run, no_read).unwrap_err();
    assert_eq!(failure.kind, ErrorKind::Resolution);
    assert_eq!(failure.message, "Unknown tool: other");
}
