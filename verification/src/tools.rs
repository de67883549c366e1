//! The two tools: what they are called, which parameters they take, what
//! they ask of the host, and what they make of the host's answer.

use vstd::prelude::*;
use vstd::string::*;
use crate::descriptor::{
    field_value, satisfies, FieldDescriptor, FieldView, ToolDescriptor, ToolDescriptorView,
};
use crate::error::{
    execution_error, invalid_type_error, missing_field_error, CallToolError, CallToolErrorView,
    ErrorKind, ToolError,
};
use crate::params::{kind_name, Arguments, ParamValueView};
use crate::result::{result_view, CallToolResult};
use crate::text::{
    captured_text, contains_text, decode_lossy, split_whitespace, texts, words,
};

verus! {

/// The path a directory listing uses when the caller names none.
pub fn default_path() -> (path: String)
    ensures
        path@ == "."@,
{
    ".".to_owned()
}

/// A program to run, with its arguments in order.
#[derive(Debug, Clone, PartialEq, Eq)]
pub struct CommandLine {
    pub program: String,
    pub arguments: Vec<String>,
}

/// What a `CommandLine` stands for in contracts.
pub ghost struct CommandLineView {
    pub program: Seq<char>,
    pub arguments: Seq<Seq<char>>,
}

impl View for CommandLine {
    type V = CommandLineView;

    open spec fn view(&self) -> CommandLineView {
        CommandLineView { program: self.program@, arguments: texts(self.arguments@) }
    }
}

/// What a program left behind when it ended, as the host captured it.
#[derive(Debug, Clone, PartialEq, Eq)]
pub struct ProcessOutput {
    /// The exit status, or `None` where the program ended without one.
    pub exit_code: Option<i32>,
    pub stdout: Vec<u8>,
    pub stderr: Vec<u8>,
}

/// What a program left behind when it ended, with its output as text.
#[derive(Debug, Clone, PartialEq, Eq)]
pub struct Transcript {
    /// The exit status, or `None` where the program ended without one.
    pub exit_code: Option<i32>,
    pub stdout: String,
    pub stderr: String,
}

/// What a `Transcript` stands for in contracts.
pub ghost struct TranscriptView {
    pub exit_code: Option<i32>,
    pub stdout: Seq<char>,
    pub stderr: Seq<char>,
}

impl View for Transcript {
    type V = TranscriptView;

    open spec fn view(&self) -> TranscriptView {
        TranscriptView { exit_code: self.exit_code, stdout: self.stdout@, stderr: self.stderr@ }
    }
}

/// The transcript of `output`: the same exit status, and both streams as
/// text.
pub open spec fn transcript_of(output: ProcessOutput) -> TranscriptView {
    TranscriptView {
        exit_code: output.exit_code,
        stdout: captured_text(output.stdout@),
        stderr: captured_text(output.stderr@),
    }
}

/// What the host's answer to a command stands for in contracts, once its
/// output is text: the transcript, or the reason why nothing ran.
pub open spec fn ran_view(ran: Result<Transcript, String>) -> Result<TranscriptView, Seq<char>> {
    match ran {
        Ok(transcript) => Ok(transcript@),
        Err(reason) => Err(reason@),
    }
}

/// What the host's answer to a command stands for in contracts: the
/// transcript of what it captured, or the reason why nothing ran.
pub open spec fn captured_view(ran: Result<ProcessOutput, String>) -> Result<
    TranscriptView,
    Seq<char>,
> {
    match ran {
        Ok(output) => Ok(transcript_of(output)),
        Err(reason) => Err(reason@),
    }
}

/// What the host's answer to a read stands for in contracts: the content,
/// or the reason why there is none.
pub open spec fn read_view(read: Result<String, String>) -> Result<Seq<char>, Seq<char>> {
    match read {
        Ok(content) => Ok(content@),
        Err(reason) => Err(reason@),
    }
}

impl ProcessOutput {
    /// Decodes both streams.
    pub fn transcript(&self) -> (transcript: Transcript)
        ensures
            transcript@ == transcript_of(*self),
    {
        Transcript {
            exit_code: self.exit_code,
            stdout: decode_lossy(&self.stdout),
            stderr: decode_lossy(&self.stderr),
        }
    }
}

/// Lists a directory.
#[derive(Debug, Clone, PartialEq, Eq)]
pub struct LsCommandTool {
    /// The path to list.
    pub path: String,
    /// Options for the listing, separated by white space.
    pub args: Option<String>,
}

/// What an `LsCommandTool` stands for in contracts.
pub ghost struct LsCommandView {
    pub path: Seq<char>,
    pub args: Option<Seq<char>>,
}

impl View for LsCommandTool {
    type V = LsCommandView;

    open spec fn view(&self) -> LsCommandView {
        LsCommandView {
            path: self.path@,
            args: match self.args {
                Some(text) => Some(text@),
                None => None,
            },
        }
    }
}

/// The schema field for the path of a listing.
pub open spec fn ls_path_field() -> FieldView {
    FieldView {
        name: "path"@,
        description: "The path to the list (defaults to current directory if not specified)"@,
        required: false,
        nullable: false,
        default: Some("."@),
    }
}

/// The schema field for the options of a listing.
pub open spec fn ls_args_field() -> FieldView {
    FieldView {
        name: "args"@,
        description: "Optional ls command options (e.g., \"-l -a\" for long listing including hidden files)"@,
        required: false,
        nullable: true,
        default: None,
    }
}

/// The descriptor of the listing tool.
pub open spec fn ls_descriptor() -> ToolDescriptorView {
    ToolDescriptorView {
        name: "ls_command"@,
        description: "Executes the ls command with the provided path and options. Use the 'args' parameter to pass ls options like '-l', '-a', etc."@,
        fields: seq![ls_path_field(), ls_args_field()],
    }
}

/// The listing that `arguments` ask for, or the error they earn.
///
/// A path that is left out is ".". Options that are left out, or given as
/// `null`, are none. Where both fields are wrong the path is reported.
pub open spec fn ls_parse(arguments: Map<Seq<char>, ParamValueView>) -> Result<
    LsCommandView,
    CallToolErrorView,
> {
    let path = if arguments.contains_key("path"@) {
        arguments["path"@]
    } else {
        ParamValueView::Text("."@)
    };
    let args = if arguments.contains_key("args"@) {
        arguments["args"@]
    } else {
        ParamValueView::Null
    };
    match (path, args) {
        (ParamValueView::Text(path), ParamValueView::Text(args)) => Ok(
            LsCommandView { path, args: Some(args) },
        ),
        (ParamValueView::Text(path), ParamValueView::Null) => Ok(LsCommandView { path, args: None }),
        (ParamValueView::Text(_), other) => Err(invalid_type_error("args"@, kind_name(other))),
        (other, _) => Err(invalid_type_error("path"@, kind_name(other))),
    }
}

/// The command that runs the listing `tool`: `ls`, the options as separate
/// words in their order, then the path.
pub open spec fn ls_command(tool: LsCommandView) -> CommandLineView {
    CommandLineView {
        program: "ls"@,
        arguments: match tool.args {
            Some(args) => words(args).push(tool.path),
            None => seq![tool.path],
        },
    }
}

/// What a listing gives back, given how running its command went.
///
/// An exit status of zero gives the captured output as one segment. Any
/// other end gives the captured error output as an execution error. A
/// command that could not be started gives the host's reason as one.
pub open spec fn ls_result(ran: Result<TranscriptView, Seq<char>>) -> Result<
    Seq<Seq<char>>,
    CallToolErrorView,
> {
    match ran {
        Ok(transcript) => if transcript.exit_code == Some(0i32) {
            Ok(seq![transcript.stdout])
        } else {
            Err(execution_error("ls command failed: "@ + transcript.stderr))
        },
        Err(reason) => Err(execution_error("Failed to execute ls command: "@ + reason)),
    }
}

/// The parameters that give a listing are those that satisfy the schema
/// which the listing tool advertises.
pub proof fn lemma_ls_schema(arguments: Map<Seq<char>, ParamValueView>)
    ensures
        ls_parse(arguments) is Ok <==> satisfies(ls_descriptor().fields, arguments),
{
    let fields = ls_descriptor().fields;
    assert(fields[0] == ls_path_field());
    assert(fields[1] == ls_args_field());
    if satisfies(fields, arguments) {
        assert(field_value(fields[0], arguments) is Ok);
        assert(field_value(fields[1], arguments) is Ok);
    }
}

/// A listing whose path is left out is the listing of ".": to leave the
/// path out and to give "." for it come to the same.
pub proof fn lemma_omitted_path_is_dot(arguments: Map<Seq<char>, ParamValueView>)
    requires
        !arguments.contains_key("path"@),
    ensures
        ls_parse(arguments) == ls_parse(arguments.insert("path"@, ParamValueView::Text("."@))),
{
    reveal_strlit("path");
    reveal_strlit("args");
    assert("path"@[0] != "args"@[0]);
}

/// A listing never fails but with an execution error.
pub proof fn lemma_ls_failure_kind(ran: Result<TranscriptView, Seq<char>>)
    ensures
        ls_result(ran) matches Err(failure) ==> failure.kind == ErrorKind::Execution,
{
}

/// Whether `outcome` is what the listing `tool` makes of one answer of `run`
/// to its command.
pub open spec fn ls_ran<F: FnOnce(CommandLine) -> Result<ProcessOutput, String>>(
    tool: LsCommandView,
    run: F,
    outcome: Result<CallToolResult, CallToolError>,
) -> bool {
    exists|command: CommandLine, ran: Result<ProcessOutput, String>|
        command@ == ls_command(tool) && #[trigger] run.ensures((command,), ran) && result_view(
            outcome,
        ) == ls_result(captured_view(ran))
}

impl LsCommandTool {
    /// The name under which the tool is called.
    pub fn tool_name() -> (name: String)
        ensures
            name@ == ls_descriptor().name,
    {
        "ls_command".to_owned()
    }

    /// The schema field for the path.
    fn path_field() -> (field: FieldDescriptor)
        ensures
            field@ == ls_path_field(),
    {
        FieldDescriptor {
            name: "path".to_owned(),
            description: "The path to the list (defaults to current directory if not specified)".to_owned(),
            required: false,
            nullable: false,
            default: Some(default_path()),
        }
    }

    /// The schema field for the options.
    fn args_field() -> (field: FieldDescriptor)
        ensures
            field@ == ls_args_field(),
    {
        FieldDescriptor {
            name: "args".to_owned(),
            description: "Optional ls command options (e.g., \"-l -a\" for long listing including hidden files)".to_owned(),
            required: false,
            nullable: true,
            default: None,
        }
    }

    /// What the tool advertises for discovery.
    pub fn tool() -> (descriptor: ToolDescriptor)
        ensures
            descriptor@ == ls_descriptor(),
    {
        let mut fields: Vec<FieldDescriptor> = Vec::new();
        fields.push(Self::path_field());
        fields.push(Self::args_field());
        let descriptor = ToolDescriptor {
            name: Self::tool_name(),
            description: "Executes the ls command with the provided path and options. Use the 'args' parameter to pass ls options like '-l', '-a', etc.".to_owned(),
            fields,
        };
        assert(descriptor@.fields == ls_descriptor().fields);
        descriptor
    }

    /// Reads the parameters of a listing, with defaults applied.
    pub fn from_arguments(arguments: &Arguments) -> (tool: Result<LsCommandTool, CallToolError>)
        ensures
            result_view(tool) == ls_parse(arguments@),
    {
        let path = match Self::path_field().read(arguments) {
            Ok(path) => path.unwrap(),
            Err(failure) => return Err(failure),
        };
        let args = match Self::args_field().read(arguments) {
            Ok(args) => args,
            Err(failure) => return Err(failure),
        };
        Ok(LsCommandTool { path, args })
    }

    /// The command that runs this listing.
    pub fn command(&self) -> (command: CommandLine)
        ensures
            command@ == ls_command(self@),
    {
        let mut arguments = match &self.args {
            Some(args) => split_whitespace(args.as_str()),
            None => Vec::new(),
        };
        let ghost options = arguments@;
        arguments.push(self.path.clone());
        assert(texts(arguments@) == texts(options).push(self.path@));
        assert(texts(arguments@) == ls_command(self@).arguments);
        CommandLine { program: "ls".to_owned(), arguments }
    }

    /// What the listing gives back, given how running its command went.
    pub fn report(ran: Result<Transcript, String>) -> (outcome: Result<
        CallToolResult,
        CallToolError,
    >)
        ensures
            result_view(outcome) == ls_result(ran_view(ran)),
    {
        match ran {
            Ok(transcript) => {
                if transcript.exit_code == Some(0i32) {
                    Ok(CallToolResult::single(transcript.stdout))
                } else {
                    let message = "ls command failed: ".to_owned().concat(
                        transcript.stderr.as_str(),
                    );
                    Err(CallToolError::new(ToolError::new(message)))
                }
            },
            Err(reason) => {
                let message = "Failed to execute ls command: ".to_owned().concat(reason.as_str());
                Err(CallToolError::new(ToolError::new(message)))
            },
        }
    }

    /// What the listing gives back, given what the host captured of its
    /// command.
    pub fn result_of(ran: Result<ProcessOutput, String>) -> (outcome: Result<
        CallToolResult,
        CallToolError,
    >)
        ensures
            result_view(outcome) == ls_result(captured_view(ran)),
    {
        match ran {
            Ok(output) => Self::report(Ok(output.transcript())),
            Err(reason) => Self::report(Err(reason)),
        }
    }

    /// Runs the listing: hands its command to `run`, the host's way of
    /// running a program to its end, and turns what comes back into the
    /// result of the call. `run` must take any command.
    pub fn call_tool<F>(&self, run: F) -> (outcome: Result<CallToolResult, CallToolError>) where
        F: FnOnce(CommandLine) -> Result<ProcessOutput, String>,

        requires
            forall|command: CommandLine| run.requires((command,)),
        ensures
            ls_ran(self@, run, outcome),
    {
        let command = self.command();
        let ran = run(command);
        Self::result_of(ran)
    }
}

/// Reads a file.
#[derive(Debug, Clone, PartialEq, Eq)]
pub struct ReadFileTool {
    /// The path to the file.
    pub path: String,
}

/// What a `ReadFileTool` stands for in contracts.
pub ghost struct ReadFileView {
    pub path: Seq<char>,
}

impl View for ReadFileTool {
    type V = ReadFileView;

    open spec fn view(&self) -> ReadFileView {
        ReadFileView { path: self.path@ }
    }
}

/// The schema field for the path of a file to read.
pub open spec fn read_path_field() -> FieldView {
    FieldView {
        name: "path"@,
        description: "The path to the file"@,
        required: true,
        nullable: false,
        default: None,
    }
}

/// The descriptor of the file reader.
pub open spec fn read_descriptor() -> ToolDescriptorView {
    ToolDescriptorView {
        name: "read_file"@,
        description: "Reads the contents of a file and returns them"@,
        fields: seq![read_path_field()],
    }
}

/// The read that `arguments` ask for, or the error they earn.
pub open spec fn read_parse(arguments: Map<Seq<char>, ParamValueView>) -> Result<
    ReadFileView,
    CallToolErrorView,
> {
    if arguments.contains_key("path"@) {
        match arguments["path"@] {
            ParamValueView::Text(path) => Ok(ReadFileView { path }),
            other => Err(invalid_type_error("path"@, kind_name(other))),
        }
    } else {
        Err(missing_field_error("path"@))
    }
}

/// What the read `tool` gives back, given how the host fared.
///
/// The content comes back whole, as one segment. A failure gives an
/// execution error that names the path and the host's reason.
pub open spec fn read_result(tool: ReadFileView, read: Result<Seq<char>, Seq<char>>) -> Result<
    Seq<Seq<char>>,
    CallToolErrorView,
> {
    match read {
        Ok(content) => Ok(seq![content]),
        Err(reason) => Err(execution_error("Failed to read file "@ + tool.path + ": "@ + reason)),
    }
}

/// The parameters that give a read are those that satisfy the schema which
/// the file reader advertises.
pub proof fn lemma_read_schema(arguments: Map<Seq<char>, ParamValueView>)
    ensures
        read_parse(arguments) is Ok <==> satisfies(read_descriptor().fields, arguments),
{
    let fields = read_descriptor().fields;
    assert(fields[0] == read_path_field());
    if satisfies(fields, arguments) {
        assert(field_value(fields[0], arguments) is Ok);
    }
}

/// A read that the host could not serve gives an execution error whose
/// message holds the path that was asked for.
pub proof fn lemma_read_failure_names_path(tool: ReadFileView, reason: Seq<char>)
    ensures
        read_result(tool, Err(reason)) matches Err(failure) && failure.kind == ErrorKind::Execution
            && contains_text(failure.message, tool.path),
{
    let head = "Failed to read file "@;
    let message = head + tool.path + ": "@ + reason;
    let from = head.len() as int;
    let to = from + tool.path.len();
    assert(message.subrange(from, to) == tool.path);
}

/// A read that the host served gives the content back whole, as the one
/// segment of a success.
pub proof fn lemma_read_success_is_content(tool: ReadFileView, content: Seq<char>)
    ensures
        read_result(tool, Ok(content)) == Ok::<Seq<Seq<char>>, CallToolErrorView>(seq![content]),
{
}

/// Whether `outcome` is what the read `tool` makes of one answer of `read`
/// to its path.
pub open spec fn read_ran<F: FnOnce(String) -> Result<String, String>>(
    tool: ReadFileView,
    read: F,
    outcome: Result<CallToolResult, CallToolError>,
) -> bool {
    exists|path: String, content: Result<String, String>|
        path@ == tool.path && #[trigger] read.ensures((path,), content) && result_view(outcome)
            == read_result(tool, read_view(content))
}

impl ReadFileTool {
    /// The name under which the tool is called.
    pub fn tool_name() -> (name: String)
        ensures
            name@ == read_descriptor().name,
    {
        "read_file".to_owned()
    }

    /// The schema field for the path.
    fn path_field() -> (field: FieldDescriptor)
        ensures
            field@ == read_path_field(),
    {
        FieldDescriptor {
            name: "path".to_owned(),
            description: "The path to the file".to_owned(),
            required: true,
            nullable: false,
            default: None,
        }
    }

    /// What the tool advertises for discovery.
    pub fn tool() -> (descriptor: ToolDescriptor)
        ensures
            descriptor@ == read_descriptor(),
    {
        let mut fields: Vec<FieldDescriptor> = Vec::new();
        fields.push(Self::path_field());
        let descriptor = ToolDescriptor {
            name: Self::tool_name(),
            description: "Reads the contents of a file and returns them".to_owned(),
            fields,
        };
        assert(descriptor@.fields == read_descriptor().fields);
        descriptor
    }

    /// Reads the parameters of a file read.
    pub fn from_arguments(arguments: &Arguments) -> (tool: Result<ReadFileTool, CallToolError>)
        ensures
            result_view(tool) == read_parse(arguments@),
    {
        match Self::path_field().read(arguments) {
            Ok(path) => Ok(ReadFileTool { path: path.unwrap() }),
            Err(failure) => Err(failure),
        }
    }

    /// What the read gives back, given how the host fared.
    pub fn result_of(&self, read: Result<String, String>) -> (outcome: Result<
        CallToolResult,
        CallToolError,
    >)
        ensures
            result_view(outcome) == read_result(self@, read_view(read)),
    {
        match read {
            Ok(content) => Ok(CallToolResult::single(content)),
            Err(reason) => {
                let message = "Failed to read file ".to_owned().concat(self.path.as_str()).concat(
                    ": ",
                ).concat(reason.as_str());
                Err(CallToolError::new(ToolError::new(message)))
            },
        }
    }

    /// Reads the file: hands its path to `read`, the host's way of reading
    /// a whole file as text, and turns what comes back into the result of
    /// the call. `read` must take any path.
    pub fn call_tool<F>(&self, read: F) -> (outcome: Result<CallToolResult, CallToolError>) where
        F: FnOnce(String) -> Result<String, String>,

        requires
            forall|path: String| read.requires((path,)),
        ensures
            read_ran(self@, read, outcome),
    {
        let content = read(self.path.clone());
        self.result_of(content)
    }
}

} // verus!
