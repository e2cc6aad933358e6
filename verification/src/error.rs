//! The ways in which an invocation fails.

use vstd::prelude::*;
use vstd::string::StringExecFns;

verus! {

/// A request that a handler turns away.
#[derive(Debug, Clone, PartialEq, Eq)]
pub enum ValidationError {
    /// The request names nobody. `request_id` is the identifier of the
    /// invocation that was turned away.
    EmptyName { request_id: String },
}

/// The view of a [`ValidationError`].
pub enum ValidationErrorView {
    EmptyName { request_id: Seq<char> },
}

impl View for ValidationError {
    type V = ValidationErrorView;

    open spec fn view(&self) -> ValidationErrorView {
        match self {
            ValidationError::EmptyName { request_id } => ValidationErrorView::EmptyName {
                request_id: request_id@,
            },
        }
    }
}

impl ValidationError {
    /// What the caller is told.
    pub fn message(&self) -> (text: String)
        ensures
            text@ == "Empty name"@,
    {
        String::from_str("Empty name")
    }

    /// The line for the error log: the message and the invocation that it is
    /// about.
    pub fn diagnostic(&self) -> (line: String)
        ensures
            line@ == "Empty name in request "@ + self@->request_id,
    {
        match self {
            ValidationError::EmptyName { request_id } => {
                let mut line = String::from_str("Empty name in request ");
                line.append(request_id.as_str());
                line
            },
        }
    }
}

/// An envelope that holds no request.
#[derive(Debug)]
pub enum DecodeError {
    /// The envelope holds no text under `body`.
    MissingBody,
    /// The body is not a JSON document; the decoder's own error says why.
    Malformed(serde_json::Error),
    /// The body is a JSON document that holds no text under `name`.
    MissingName,
}

/// The view of a [`DecodeError`]: which of the three it is.
pub enum DecodeErrorView {
    MissingBody,
    Malformed,
    MissingName,
}

impl View for DecodeError {
    type V = DecodeErrorView;

    open spec fn view(&self) -> DecodeErrorView {
        match self {
            DecodeError::MissingBody => DecodeErrorView::MissingBody,
            DecodeError::Malformed(_) => DecodeErrorView::Malformed,
            DecodeError::MissingName => DecodeErrorView::MissingName,
        }
    }
}

/// Why an enveloped invocation produced no response.
#[derive(Debug)]
pub enum HandlerError {
    /// No request could be read from the envelope.
    Decode(DecodeError),
    /// The request was read and turned away.
    Validation(ValidationError),
}

/// The view of a [`HandlerError`].
pub enum HandlerErrorView {
    Decode(DecodeErrorView),
    Validation(ValidationErrorView),
}

impl View for HandlerError {
    type V = HandlerErrorView;

    open spec fn view(&self) -> HandlerErrorView {
        match self {
            HandlerError::Decode(error) => HandlerErrorView::Decode(error@),
            HandlerError::Validation(error) => HandlerErrorView::Validation(error@),
        }
    }
}

} // verus!
