//! What the server says of itself when a session starts.

use vstd::prelude::*;

verus! {

/// The identification of a server and what it declares it can do.
#[derive(Debug, Clone, PartialEq, Eq)]
pub struct ServerDetails {
    pub name: String,
    pub version: String,
    pub title: Option<String>,
    pub instructions: Option<String>,
    /// Whether the server offers tools.
    pub supports_tools: bool,
}

/// What a `ServerDetails` stands for in contracts.
pub ghost struct ServerDetailsView {
    pub name: Seq<char>,
    pub version: Seq<char>,
    pub title: Option<Seq<char>>,
    pub instructions: Option<Seq<char>>,
    pub supports_tools: bool,
}

impl View for ServerDetails {
    type V = ServerDetailsView;

    open spec fn view(&self) -> ServerDetailsView {
        ServerDetailsView {
            name: self.name@,
            version: self.version@,
            title: match self.title {
                Some(text) => Some(text@),
                None => None,
            },
            instructions: match self.instructions {
                Some(text) => Some(text@),
                None => None,
            },
            supports_tools: self.supports_tools,
        }
    }
}

/// The details of the file-system server.
pub open spec fn file_system_server() -> ServerDetailsView {
    ServerDetailsView {
        name: "File System MCP Server SSE"@,
        version: "0.0.1"@,
        title: Some("File System MCP Server SSE"@),
        instructions: Some("server instructions..."@),
        supports_tools: true,
    }
}

impl ServerDetails {
    /// The details of the file-system server.
    pub fn file_system() -> (details: ServerDetails)
        ensures
            details@ == file_system_server(),
    {
        ServerDetails {
            name: "File System MCP Server SSE".to_owned(),
            version: "0.0.1".to_owned(),
            title: Some("File System MCP Server SSE".to_owned()),
            instructions: Some("server instructions...".to_owned()),
            supports_tools: true,
        }
    }
}

/// What a running server holds: its details and the handler of its
/// requests.
pub struct ServerState<H> {
    pub server_details: ServerDetails,
    pub handler: H,
}

} // verus!
