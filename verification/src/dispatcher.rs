//! The dispatcher: from a tool name and raw parameters to the result of the
//! matching tool.

use vstd::prelude::*;
use crate::descriptor::{descriptor_views, satisfies, ToolDescriptor, ToolDescriptorView};
use crate::error::{unknown_tool_error, CallToolError, CallToolErrorView, ErrorKind};
use crate::params::{Arguments, ParamValueView};
use crate::result::{result_view, CallToolResult};
use crate::text::same_text;
use crate::tools::{
    lemma_ls_schema, lemma_omitted_path_is_dot, lemma_read_schema, ls_descriptor, ls_parse,
    ls_ran, read_descriptor, read_parse, read_ran, CommandLine, LsCommandTool, LsCommandView,
    ProcessOutput, ReadFileTool, ReadFileView,
};

verus! {

/// A call that has been resolved to its tool, with its parameters read.
#[derive(Debug, Clone, PartialEq, Eq)]
pub enum FileSystemTools {
    LsCommandTool(LsCommandTool),
    ReadFileTool(ReadFileTool),
}

/// What a `FileSystemTools` stands for in contracts.
pub ghost enum FileSystemToolsView {
    LsCommandTool(LsCommandView),
    ReadFileTool(ReadFileView),
}

impl View for FileSystemTools {
    type V = FileSystemToolsView;

    open spec fn view(&self) -> FileSystemToolsView {
        match self {
            FileSystemTools::LsCommandTool(tool) => FileSystemToolsView::LsCommandTool(tool@),
            FileSystemTools::ReadFileTool(tool) => FileSystemToolsView::ReadFileTool(tool@),
        }
    }
}

/// The descriptors of the registered tools, in the order of discovery.
pub open spec fn descriptors() -> Seq<ToolDescriptorView> {
    seq![ls_descriptor(), read_descriptor()]
}

/// Whether `name` is the name of a registered tool.
pub open spec fn known_tool(name: Seq<char>) -> bool {
    exists|i: int| 0 <= i < descriptors().len() && (#[trigger] descriptors()[i]).name == name
}

/// Whether `arguments` satisfy the schema of every registered tool called
/// `name`.
pub open spec fn well_formed(name: Seq<char>, arguments: Map<Seq<char>, ParamValueView>) -> bool {
    forall|i: int|
        0 <= i < descriptors().len() && (#[trigger] descriptors()[i]).name == name ==> satisfies(
            descriptors()[i].fields,
            arguments,
        )
}

/// The tool that a call of `name` with `arguments` resolves to, or the error
/// that the call earns: a resolution error for a name that is not
/// registered, a validation error for parameters that its schema refuses.
pub open spec fn resolve(name: Seq<char>, arguments: Map<Seq<char>, ParamValueView>) -> Result<
    FileSystemToolsView,
    CallToolErrorView,
> {
    if name == ls_descriptor().name {
        match ls_parse(arguments) {
            Ok(tool) => Ok(FileSystemToolsView::LsCommandTool(tool)),
            Err(failure) => Err(failure),
        }
    } else if name == read_descriptor().name {
        match read_parse(arguments) {
            Ok(tool) => Ok(FileSystemToolsView::ReadFileTool(tool)),
            Err(failure) => Err(failure),
        }
    } else {
        Err(unknown_tool_error(name))
    }
}

/// Whether `outcome` is what `tool` makes of one answer of the host function
/// that serves it.
pub open spec fn ran<L, R>(
    tool: FileSystemToolsView,
    run: L,
    read: R,
    outcome: Result<CallToolResult, CallToolError>,
) -> bool where
    L: FnOnce(CommandLine) -> Result<ProcessOutput, String>,
    R: FnOnce(String) -> Result<String, String>,
 {
    match tool {
        FileSystemToolsView::LsCommandTool(tool) => ls_ran(tool, run, outcome),
        FileSystemToolsView::ReadFileTool(tool) => read_ran(tool, read, outcome),
    }
}

/// Whether `outcome` is what a call of `name` with `arguments` comes to: the
/// error of a call that does not resolve, unchanged, or else what the
/// resolved tool makes of the host's answer.
pub open spec fn dispatched<L, R>(
    name: Seq<char>,
    arguments: Map<Seq<char>, ParamValueView>,
    run: L,
    read: R,
    outcome: Result<CallToolResult, CallToolError>,
) -> bool where
    L: FnOnce(CommandLine) -> Result<ProcessOutput, String>,
    R: FnOnce(String) -> Result<String, String>,
 {
    match resolve(name, arguments) {
        Ok(tool) => ran(tool, run, read, outcome),
        Err(failure) => result_view(outcome) == Err::<Seq<Seq<char>>, CallToolErrorView>(failure),
    }
}

/// No two registered tools share a name, so a name resolves to one tool at
/// most.
pub proof fn lemma_tool_names_differ()
    ensures
        forall|i: int, j: int|
            0 <= i < j < descriptors().len() ==> (#[trigger] descriptors()[i]).name != (
            #[trigger] descriptors()[j]).name,
{
    reveal_strlit("ls_command");
    reveal_strlit("read_file");
    assert(descriptors()[0].name.len() == 10);
    assert(descriptors()[1].name.len() == 9);
}

/// The registered names are "ls_command" and "read_file", and no other.
pub proof fn lemma_known_tools(name: Seq<char>)
    ensures
        known_tool(name) <==> name == "ls_command"@ || name == "read_file"@,
{
    assert(descriptors()[0].name == "ls_command"@);
    assert(descriptors()[1].name == "read_file"@);
}

/// A call resolves to a tool exactly when its name is registered and its
/// parameters satisfy the schema of the tool of that name.
pub proof fn lemma_resolves_iff_valid(name: Seq<char>, arguments: Map<Seq<char>, ParamValueView>)
    ensures
        resolve(name, arguments) is Ok <==> known_tool(name) && well_formed(name, arguments),
{
    lemma_tool_names_differ();
    lemma_known_tools(name);
    lemma_ls_schema(arguments);
    lemma_read_schema(arguments);
    assert(descriptors()[0] == ls_descriptor());
    assert(descriptors()[1] == read_descriptor());
}

/// A call of a name other than "ls_command" and "read_file" ends in a
/// resolution error that names it, whatever its parameters and whatever the
/// host would have answered.
pub proof fn lemma_unknown_name_fails<L, R>(
    name: Seq<char>,
    arguments: Map<Seq<char>, ParamValueView>,
    run: L,
    read: R,
    outcome: Result<CallToolResult, CallToolError>,
) where
    L: FnOnce(CommandLine) -> Result<ProcessOutput, String>,
    R: FnOnce(String) -> Result<String, String>,

    requires
        name != "ls_command"@,
        name != "read_file"@,
        dispatched(name, arguments, run, read, outcome),
    ensures
        outcome matches Err(failure) && failure.kind == ErrorKind::Resolution && failure.message@
            == "Unknown tool: "@ + name,
{
}

/// A call of a registered name with parameters that satisfy its schema
/// never ends in a resolution or validation error: it succeeds, or fails
/// with an execution error.
pub proof fn lemma_valid_call_reaches_tool<L, R>(
    name: Seq<char>,
    arguments: Map<Seq<char>, ParamValueView>,
    run: L,
    read: R,
    outcome: Result<CallToolResult, CallToolError>,
) where
    L: FnOnce(CommandLine) -> Result<ProcessOutput, String>,
    R: FnOnce(String) -> Result<String, String>,

    requires
        known_tool(name),
        well_formed(name, arguments),
        dispatched(name, arguments, run, read, outcome),
    ensures
        outcome matches Err(failure) ==> failure.kind == ErrorKind::Execution,
{
    lemma_resolves_iff_valid(name, arguments);
}

/// A call of a registered name with parameters that its schema refuses ends
/// in a validation error, whatever the host would have answered.
pub proof fn lemma_invalid_call_is_refused<L, R>(
    name: Seq<char>,
    arguments: Map<Seq<char>, ParamValueView>,
    run: L,
    read: R,
    outcome: Result<CallToolResult, CallToolError>,
) where
    L: FnOnce(CommandLine) -> Result<ProcessOutput, String>,
    R: FnOnce(String) -> Result<String, String>,

    requires
        known_tool(name),
        !well_formed(name, arguments),
        dispatched(name, arguments, run, read, outcome),
    ensures
        outcome matches Err(failure) && failure.kind == ErrorKind::Validation,
{
    lemma_known_tools(name);
    lemma_resolves_iff_valid(name, arguments);
}

/// A listing call that leaves the path out is served as the same call with
/// "." for the path.
pub proof fn lemma_listing_defaults_to_dot<L, R>(
    arguments: Map<Seq<char>, ParamValueView>,
    run: L,
    read: R,
    outcome: Result<CallToolResult, CallToolError>,
) where
    L: FnOnce(CommandLine) -> Result<ProcessOutput, String>,
    R: FnOnce(String) -> Result<String, String>,

    requires
        !arguments.contains_key("path"@),
    ensures
        resolve("ls_command"@, arguments) == resolve(
            "ls_command"@,
            arguments.insert("path"@, ParamValueView::Text("."@)),
        ),
        dispatched("ls_command"@, arguments, run, read, outcome) <==> dispatched(
            "ls_command"@,
            arguments.insert("path"@, ParamValueView::Text("."@)),
            run,
            read,
            outcome,
        ),
{
    lemma_omitted_path_is_dot(arguments);
}

impl FileSystemTools {
    /// The name of the tool that the call resolved to.
    pub fn tool_name(&self) -> (name: String)
        ensures
            name@ == match self@ {
                FileSystemToolsView::LsCommandTool(_) => ls_descriptor().name,
                FileSystemToolsView::ReadFileTool(_) => read_descriptor().name,
            },
    {
        match self {
            FileSystemTools::LsCommandTool(_) => LsCommandTool::tool_name(),
            FileSystemTools::ReadFileTool(_) => ReadFileTool::tool_name(),
        }
    }

    /// The descriptors of all tools, for discovery.
    pub fn tools() -> (tools: Vec<ToolDescriptor>)
        ensures
            descriptor_views(tools@) == descriptors(),
    {
        let mut tools: Vec<ToolDescriptor> = Vec::new();
        tools.push(LsCommandTool::tool());
        tools.push(ReadFileTool::tool());
        tools
    }

    /// Resolves a call: finds the tool called `name` and reads `arguments`
    /// against its schema.
    pub fn from_request(name: &str, arguments: &Arguments) -> (tool: Result<
        FileSystemTools,
        CallToolError,
    >)
        ensures
            result_view(tool) == resolve(name@, arguments@),
    {
        if same_text(name, LsCommandTool::tool_name().as_str()) {
            match LsCommandTool::from_arguments(arguments) {
                Ok(tool) => Ok(FileSystemTools::LsCommandTool(tool)),
                Err(failure) => Err(failure),
            }
        } else if same_text(name, ReadFileTool::tool_name().as_str()) {
            match ReadFileTool::from_arguments(arguments) {
                Ok(tool) => Ok(FileSystemTools::ReadFileTool(tool)),
                Err(failure) => Err(failure),
            }
        } else {
            Err(CallToolError::unknown_tool(name))
        }
    }

    /// Runs the resolved tool with the host function that serves it.
    pub fn call_tool<L, R>(&self, run: L, read: R) -> (outcome: Result<
        CallToolResult,
        CallToolError,
    >) where
        L: FnOnce(CommandLine) -> Result<ProcessOutput, String>,
        R: FnOnce(String) -> Result<String, String>,

        requires
            forall|command: CommandLine| run.requires((command,)),
            forall|path: String| read.requires((path,)),
        ensures
            ran(self@, run, read, outcome),
    {
        match self {
            FileSystemTools::LsCommandTool(tool) => tool.call_tool(run),
            FileSystemTools::ReadFileTool(tool) => tool.call_tool(read),
        }
    }
}

/// Serves one call: resolves `name`, reads `arguments` against the schema of
/// the tool, runs the tool with the host function that serves it, and hands
/// back its result unchanged.
///
/// `run` runs a command to its end and `read` reads a whole file as text.
/// Each must take any input; only the one that serves the resolved tool is
/// called, once.
pub fn dispatch<L, R>(name: &str, arguments: &Arguments, run: L, read: R) -> (outcome: Result<
    CallToolResult,
    CallToolError,
>) where
    L: FnOnce(CommandLine) -> Result<ProcessOutput, String>,
    R: FnOnce(String) -> Result<String, String>,

    requires
        forall|command: CommandLine| run.requires((command,)),
        forall|path: String| read.requires((path,)),
    ensures
        dispatched(name@, arguments@, run, read, outcome),
        !known_tool(name@) ==> result_view(outcome) == Err::<Seq<Seq<char>>, CallToolErrorView>(
            unknown_tool_error(name@),
        ),
        known_tool(name@) && well_formed(name@, arguments@) ==> (outcome matches Err(failure)
            ==> failure.kind == ErrorKind::Execution),
{
    proof {
        lemma_known_tools(name@);
        lemma_resolves_iff_valid(name@, arguments@);
    }
    match FileSystemTools::from_request(name, arguments) {
        Ok(tool) => tool.call_tool(run, read),
        Err(failure) => Err(failure),
    }
}

} // verus!
