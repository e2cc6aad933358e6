//! Greeting handlers for a function-as-a-service host: a request that names
//! someone is answered with a message that greets them.
//!
//! A [`GreetingHandler`] is a function from a [`Request`] and the
//! [`InvocationContext`] to a [`Response`] or an error. It does no I/O and
//! keeps nothing between invocations; the host's adapter decodes what arrives,
//! calls the handler and encodes what it returns.

pub mod decode;
pub mod error;
pub mod greeting;
pub mod handler;
pub mod json;
pub mod model;

pub use decode::{decode_envelope, decode_request, request_from_name};
pub use error::{DecodeError, HandlerError, ValidationError};
pub use greeting::greet;
pub use handler::{GreetingHandler, Policy};
pub use model::{InvocationContext, Request, Response};
