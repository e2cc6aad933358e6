//! The values that pass between the host and a handler.
//!
//! Each is a plain value object: it has no identity beyond its fields, and its
//! view is those fields as sequences of characters.

use vstd::prelude::*;

verus! {

/// What the caller asks for: a greeting for `name`. Any text is a name,
/// the empty text included.
#[derive(Debug, Clone, PartialEq, Eq)]
pub struct Request {
    pub name: String,
}

/// The view of a [`Request`].
pub struct RequestView {
    pub name: Seq<char>,
}

impl View for Request {
    type V = RequestView;

    open spec fn view(&self) -> RequestView {
        RequestView { name: self.name@ }
    }
}

/// What the host tells a handler of the invocation in progress. A handler
/// reads it and never changes it.
#[derive(Debug, Clone, PartialEq, Eq)]
pub struct InvocationContext {
    /// The host's identifier of this invocation.
    pub request_id: String,
}

/// The view of an [`InvocationContext`].
pub struct ContextView {
    pub request_id: Seq<char>,
}

impl View for InvocationContext {
    type V = ContextView;

    open spec fn view(&self) -> ContextView {
        ContextView { request_id: self.request_id@ }
    }
}

/// What a handler answers.
#[derive(Debug, Clone, PartialEq, Eq)]
pub struct Response {
    /// The greeting.
    pub message: String,
    /// The identifier of the invocation that was answered, where the handler
    /// is one that echoes it.
    pub request_id: Option<String>,
}

/// The view of a [`Response`].
pub struct ResponseView {
    pub message: Seq<char>,
    pub request_id: Option<Seq<char>>,
}

impl View for Response {
    type V = ResponseView;

    open spec fn view(&self) -> ResponseView {
        ResponseView {
            message: self.message@,
            request_id: match self.request_id {
                Some(id) => Some(id@),
                None => None,
            },
        }
    }
}

/// The view of a result: the view of what it holds, on either side.
pub open spec fn result_view<T: View, E: View>(result: Result<T, E>) -> Result<T::V, E::V> {
    match result {
        Ok(value) => Ok(value@),
        Err(error) => Err(error@),
    }
}

} // verus!
