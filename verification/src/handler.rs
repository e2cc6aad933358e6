//! The handler: from a request and the invocation's context to a response, or
//! to the reason why there is none.

use vstd::prelude::*;
use vstd::utf8::encode_utf8;

use crate::decode::{decode_envelope, envelope_request};
use crate::error::{
    DecodeError,
    DecodeErrorView,
    HandlerError,
    HandlerErrorView,
    ValidationError,
    ValidationErrorView,
};
use crate::greeting::{greet, greeting, lemma_greeting_of_nobody};
use crate::json::text_members;
use crate::model::{
    ContextView,
    InvocationContext,
    Request,
    RequestView,
    Response,
    ResponseView,
    result_view,
};

verus! {

/// What a handler does with a request that names nobody. The two answers
/// exclude each other, so whoever makes a handler chooses one.
#[derive(Debug, Clone, Copy, PartialEq, Eq, Structural)]
pub enum Policy {
    /// An empty name is turned away with [`ValidationError::EmptyName`].
    Strict,
    /// An empty name is greeted like any other.
    Permissive,
}

/// A greeting handler. It keeps no state: what it returns depends on the
/// request, the context and these two settings alone.
#[derive(Debug, Clone, Copy)]
pub struct GreetingHandler {
    /// What to do with an empty name.
    pub policy: Policy,
    /// Whether a response carries the identifier of its invocation.
    pub extended: bool,
}

impl GreetingHandler {
    /// Whether `request` is turned away: it names nobody, and the policy is
    /// strict.
    pub open spec fn rejects(&self, request: RequestView) -> bool {
        self.policy is Strict && request.name.len() == 0
    }

    /// The response to a request that is not turned away.
    pub open spec fn response(&self, request: RequestView, context: ContextView) -> ResponseView {
        ResponseView {
            message: greeting(request.name),
            request_id: if self.extended {
                Some(context.request_id)
            } else {
                None
            },
        }
    }

    /// What an invocation comes to.
    pub open spec fn outcome(
        &self,
        request: RequestView,
        context: ContextView,
    ) -> Result<ResponseView, ValidationErrorView> {
        if self.rejects(request) {
            Err(ValidationErrorView::EmptyName { request_id: context.request_id })
        } else {
            Ok(self.response(request, context))
        }
    }

    /// What an invocation comes to once the host's envelope has been decoded,
    /// or has failed to decode. A failure to decode stays what it is: the
    /// policy is not asked.
    pub open spec fn decoded_outcome(
        &self,
        decoded: Result<RequestView, DecodeErrorView>,
        context: ContextView,
    ) -> Result<ResponseView, HandlerErrorView> {
        match decoded {
            Ok(request) => match self.outcome(request, context) {
                Ok(response) => Ok(response),
                Err(error) => Err(HandlerErrorView::Validation(error)),
            },
            Err(error) => Err(HandlerErrorView::Decode(error)),
        }
    }

    /// A handler whose responses hold the message alone.
    pub fn new(policy: Policy) -> (handler: GreetingHandler)
        ensures
            handler == (GreetingHandler { policy, extended: false }),
    {
        GreetingHandler { policy, extended: false }
    }

    /// A handler whose responses also carry the identifier of the invocation.
    pub fn extended(policy: Policy) -> (handler: GreetingHandler)
        ensures
            handler == (GreetingHandler { policy, extended: true }),
    {
        GreetingHandler { policy, extended: true }
    }

    /// Answers `request`.
    ///
    /// Every name but the empty one is greeted, under either policy. The empty
    /// name is turned away under the strict policy, with the invocation's
    /// identifier in the error, and greeted with `Hello, !` under the
    /// permissive one. An extended handler copies the invocation's identifier
    /// into the response as it is, whatever it is.
    pub fn handle(
        &self,
        request: &Request,
        context: &InvocationContext,
    ) -> (outcome: Result<Response, ValidationError>)
        ensures
            result_view(outcome) == self.outcome(request@, context@),
            request@.name.len() > 0 ==> (outcome matches Ok(response)
                && response@.message == "Hello, "@ + request@.name + "!"@),
            self.policy is Strict && request@.name.len() == 0 ==> (outcome matches Err(error)
                && error@ == (ValidationErrorView::EmptyName { request_id: context@.request_id })),
            self.policy is Permissive && request@.name.len() == 0 ==> (outcome matches Ok(response)
                && response@.message == "Hello, !"@),
            self.extended ==> (outcome matches Ok(response)
                ==> response@.request_id == Some(context@.request_id)),
    {
        let turned_away = match self.policy {
            Policy::Strict => request.name.as_str().is_empty(),
            Policy::Permissive => false,
        };
        if turned_away {
            Err(ValidationError::EmptyName { request_id: context.request_id.clone() })
        } else {
            let message = greet(request.name.as_str());
            let request_id = if self.extended {
                Some(context.request_id.clone())
            } else {
                None
            };
            proof {
                if request@.name.len() == 0 {
                    lemma_greeting_of_nobody();
                    assert(request@.name =~= Seq::<char>::empty());
                }
            }
            Ok(Response { message, request_id })
        }
    }

    /// Answers what was decoded from an envelope: the request, where there is
    /// one, is handled, and a failure to decode is handed on as it came.
    pub fn respond(
        &self,
        decoded: Result<Request, DecodeError>,
        context: &InvocationContext,
    ) -> (outcome: Result<Response, HandlerError>)
        ensures
            result_view(outcome) == self.decoded_outcome(result_view(decoded), context@),
            decoded matches Err(error) ==> outcome == Err::<Response, HandlerError>(
                HandlerError::Decode(error),
            ),
    {
        match decoded {
            Ok(request) => match self.handle(&request, context) {
                Ok(response) => Ok(response),
                Err(error) => Err(HandlerError::Validation(error)),
            },
            Err(error) => Err(HandlerError::Decode(error)),
        }
    }

    /// Answers the request that `envelope` holds in its body.
    pub fn handle_envelope(
        &self,
        envelope: &serde_json::Value,
        context: &InvocationContext,
    ) -> (outcome: Result<Response, HandlerError>)
        ensures
            result_view(outcome) == self.decoded_outcome(
                envelope_request(text_members(*envelope)),
                context@,
            ),
    {
        self.respond(decode_envelope(envelope), context)
    }
}

/// Handling has no memory. Whatever two invocations of one handler return
/// for equal requests in equal contexts, they return the same: both the same
/// response, or both the same error. The messages are then the same bytes.
pub proof fn lemma_handle_is_repeatable(
    handler: GreetingHandler,
    first_request: Request,
    first_context: InvocationContext,
    second_request: Request,
    second_context: InvocationContext,
    first: Result<Response, ValidationError>,
    second: Result<Response, ValidationError>,
)
    requires
        first_request@ == second_request@,
        first_context@ == second_context@,
        result_view(first) == handler.outcome(first_request@, first_context@),
        result_view(second) == handler.outcome(second_request@, second_context@),
    ensures
        result_view(first) == result_view(second),
        first matches Ok(a) ==> (second matches Ok(b)
            && encode_utf8(a@.message) == encode_utf8(b@.message)),
{
}

/// The same of enveloped invocations: two envelopes with the same text
/// members, handled in equal contexts, come to the same.
pub proof fn lemma_handle_envelope_is_repeatable(
    handler: GreetingHandler,
    first_envelope: serde_json::Value,
    first_context: InvocationContext,
    second_envelope: serde_json::Value,
    second_context: InvocationContext,
    first: Result<Response, HandlerError>,
    second: Result<Response, HandlerError>,
)
    requires
        text_members(first_envelope) == text_members(second_envelope),
        first_context@ == second_context@,
        result_view(first) == handler.decoded_outcome(
            envelope_request(text_members(first_envelope)),
            first_context@,
        ),
        result_view(second) == handler.decoded_outcome(
            envelope_request(text_members(second_envelope)),
            second_context@,
        ),
    ensures
        result_view(first) == result_view(second),
{
}

} // verus!
