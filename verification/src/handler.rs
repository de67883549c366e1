//! The entry points that a server runtime calls: discovery and invocation.

use vstd::prelude::*;
use crate::descriptor::{descriptor_views, ToolDescriptor};
use crate::dispatcher::{
    descriptors, dispatch, dispatched, known_tool, well_formed, FileSystemTools,
};
use crate::error::{unknown_tool_error, CallToolError, CallToolErrorView, ErrorKind};
use crate::params::{Arguments, ParamValueView};
use crate::result::{result_view, CallToolResult};
use crate::tools::{CommandLine, ProcessOutput};

verus! {

/// A request to call a tool: its name and, where the caller sent any, its
/// parameters.
#[derive(Debug, Clone)]
pub struct CallToolRequest {
    pub name: String,
    pub arguments: Option<Arguments>,
}

impl CallToolRequest {
    /// The parameters of the request. A request without parameters gives
    /// none.
    pub open spec fn parameters(self) -> Map<Seq<char>, ParamValueView> {
        match self.arguments {
            Some(arguments) => arguments@,
            None => Map::empty(),
        }
    }
}

/// Answers the requests of a server runtime with the file-system tools.
#[derive(Debug, Clone, Copy)]
pub struct FileSystemServerHandler;

impl FileSystemServerHandler {
    /// Lists the tools on offer.
    pub fn handle_list_tools_request(&self) -> (tools: Vec<ToolDescriptor>)
        ensures
            descriptor_views(tools@) == descriptors(),
    {
        FileSystemTools::tools()
    }

    /// Serves a call of a tool.
    ///
    /// `run` runs a command to its end and `read` reads a whole file as
    /// text. Each must take any input; only the one that serves the
    /// resolved tool is called, once.
    pub fn handle_call_tool_request<L, R>(&self, request: &CallToolRequest, run: L, read: R) -> (outcome:
        Result<CallToolResult, CallToolError>) where
        L: FnOnce(CommandLine) -> Result<ProcessOutput, String>,
        R: FnOnce(String) -> Result<String, String>,

        requires
            forall|command: CommandLine| run.requires((command,)),
            forall|path: String| read.requires((path,)),
        ensures
            dispatched(request.name@, request.parameters(), run, read, outcome),
            !known_tool(request.name@) ==> result_view(outcome) == Err::<
                Seq<Seq<char>>,
                CallToolErrorView,
            >(unknown_tool_error(request.name@)),
            known_tool(request.name@) && well_formed(request.name@, request.parameters()) ==> (
            outcome matches Err(failure) ==> failure.kind == ErrorKind::Execution),
    {
        match &request.arguments {
            Some(arguments) => dispatch(request.name.as_str(), arguments, run, read),
            None => dispatch(request.name.as_str(), &Arguments::new(), run, read),
        }
    }
}

} // verus!
