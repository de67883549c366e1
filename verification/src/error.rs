//! The uniform error surface of the tools.

use vstd::prelude::*;
use vstd::string::*;

verus! {

/// Why a call failed.
#[derive(Clone, Copy, Debug, PartialEq, Eq, Structural)]
pub enum ErrorKind {
    /// The requested name matches no registered tool.
    Resolution,
    /// The parameters do not satisfy the schema of the tool.
    Validation,
    /// The action behind the tool failed on the host.
    Execution,
}

/// A failure of the action behind a tool, as a message for the caller.
#[derive(Debug, Clone, PartialEq, Eq)]
pub struct ToolError {
    pub message: String,
}

impl ToolError {
    /// A failure with the given message.
    pub fn new(message: String) -> (error: ToolError)
        ensures
            error.message == message,
    {
        ToolError { message }
    }

    /// The message, as text.
    pub fn to_string(&self) -> (text: String)
        ensures
            text@ == self.message@,
    {
        self.message.clone()
    }
}

/// A failed call: its kind and a message that describes it.
#[derive(Debug, Clone, PartialEq, Eq)]
pub struct CallToolError {
    pub kind: ErrorKind,
    pub message: String,
}

/// What a `CallToolError` stands for in contracts.
pub ghost struct CallToolErrorView {
    pub kind: ErrorKind,
    pub message: Seq<char>,
}

impl View for CallToolError {
    type V = CallToolErrorView;

    open spec fn view(&self) -> CallToolErrorView {
        CallToolErrorView { kind: self.kind, message: self.message@ }
    }
}

/// The error for a failed action with the given description.
pub open spec fn execution_error(message: Seq<char>) -> CallToolErrorView {
    CallToolErrorView { kind: ErrorKind::Execution, message }
}

/// The error for a call of a tool that does not exist.
pub open spec fn unknown_tool_error(tool_name: Seq<char>) -> CallToolErrorView {
    CallToolErrorView { kind: ErrorKind::Resolution, message: "Unknown tool: "@ + tool_name }
}

/// The error for a call that leaves out a required field.
pub open spec fn missing_field_error(field: Seq<char>) -> CallToolErrorView {
    CallToolErrorView { kind: ErrorKind::Validation, message: "missing field `"@ + field + "`"@ }
}

/// The error for a field that holds `found` where text is expected.
pub open spec fn invalid_type_error(field: Seq<char>, found: Seq<char>) -> CallToolErrorView {
    CallToolErrorView {
        kind: ErrorKind::Validation,
        message: "invalid type for field `"@ + field + "`: "@ + found + ", expected a string"@,
    }
}

impl CallToolError {
    /// Wraps the failure of a tool's action.
    pub fn new(error: ToolError) -> (failure: CallToolError)
        ensures
            failure@ == execution_error(error.message@),
    {
        CallToolError { kind: ErrorKind::Execution, message: error.message }
    }

    /// The error for a call of a tool that does not exist.
    pub fn unknown_tool(tool_name: &str) -> (failure: CallToolError)
        ensures
            failure@ == unknown_tool_error(tool_name@),
    {
        let message = "Unknown tool: ".to_owned().concat(tool_name);
        CallToolError { kind: ErrorKind::Resolution, message }
    }

    /// The error for a call that leaves out a required field.
    pub fn missing_field(field: &str) -> (failure: CallToolError)
        ensures
            failure@ == missing_field_error(field@),
    {
        let message = "missing field `".to_owned().concat(field).concat("`");
        CallToolError { kind: ErrorKind::Validation, message }
    }

    /// The error for a field that holds `found` where text is expected.
    pub fn invalid_type(field: &str, found: &str) -> (failure: CallToolError)
        ensures
            failure@ == invalid_type_error(field@, found@),
    {
        let message = "invalid type for field `".to_owned().concat(field).concat("`: ").concat(
            found,
        ).concat(", expected a string");
        CallToolError { kind: ErrorKind::Validation, message }
    }

    /// The message, as text.
    pub fn to_string(&self) -> (text: String)
        ensures
            text@ == self.message@,
    {
        self.message.clone()
    }
}

} // verus!
