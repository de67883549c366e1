//! What a call gives back.

use vstd::prelude::*;
use crate::error::{CallToolError, CallToolErrorView};
use crate::text::texts;

verus! {

/// The output of a successful call: text segments, in order.
#[derive(Debug, Clone, PartialEq, Eq)]
pub struct CallToolResult {
    pub content: Vec<String>,
}

impl View for CallToolResult {
    type V = Seq<Seq<char>>;

    open spec fn view(&self) -> Seq<Seq<char>> {
        texts(self.content@)
    }
}

impl CallToolResult {
    /// A result made of the given segments.
    pub fn text_content(content: Vec<String>) -> (result: CallToolResult)
        ensures
            result@ == texts(content@),
    {
        CallToolResult { content }
    }

    /// A result made of one segment.
    pub fn single(text: String) -> (result: CallToolResult)
        ensures
            result@ == seq![text@],
    {
        let mut content: Vec<String> = Vec::new();
        content.push(text);
        assert(texts(content@) == seq![text@]);
        CallToolResult { content }
    }
}

/// What a result stands for in contracts: the view of what succeeded, or
/// the kind and message of the failure.
pub open spec fn result_view<T: View>(result: Result<T, CallToolError>) -> Result<
    T::V,
    CallToolErrorView,
> {
    match result {
        Ok(value) => Ok(value@),
        Err(failure) => Err(failure@),
    }
}

} // verus!
