//! A single-tool code-execution sandbox servlet.
//!
//! The servlet exposes one tool, `execute_code`: it takes a fragment of
//! JavaScript, wraps it into an awaited asynchronous expression whose
//! resolved value is JSON-stringified, evaluates it in an isolated
//! interpreter context, and returns the serialized result — or the
//! evaluation error — in the protocol's result envelope.  Malformed
//! requests (an unknown tool name, a missing `code` argument) fail at the
//! call level and never reach a backend.

pub mod catalog;
pub mod engine;
pub mod sandbox;
pub mod types;

use vstd::prelude::*;

use crate::engine::{EvalError, Interpreter};
use crate::types::{
    CallToolRequest, CallToolResult, Content, ContentType, ListToolsResult, get_code_argument,
    spec_code_argument,
};

verus! {

/// A malformed request: surfaced as a call-level failure, never as a tool
/// result.
#[derive(Debug, PartialEq, Eq, Structural)]
pub enum CallError {
    /// The request named a tool this servlet does not expose.
    InvalidToolName,
    /// The request's arguments do not bind `code` to a string.
    MissingCodeArgument,
}

impl CallError {
    /// The human-readable message of this error.
    pub open spec fn spec_message(self) -> Seq<char> {
        match self {
            CallError::InvalidToolName => "invalid tool name"@,
            CallError::MissingCodeArgument => "in getting the code"@,
        }
    }

    /// Renders the message.
    pub fn message(&self) -> (r: String)
        ensures
            r@ == self.spec_message(),
    {
        match self {
            CallError::InvalidToolName => String::from_str("invalid tool name"),
            CallError::MissingCodeArgument => String::from_str("in getting the code"),
        }
    }
}

/// A content item carrying exactly the text `text` and nothing else.
pub open spec fn is_text_content(c: Content, text: Seq<char>) -> bool {
    &&& c.content_type == ContentType::Text
    &&& c.text matches Some(t) && t@ == text
    &&& c.annotations is None
    &&& c.data is None
    &&& c.mime_type is None
}

/// The success envelope of an evaluation that produced `text`.
pub open spec fn is_success_result(r: CallToolResult, text: Seq<char>) -> bool {
    &&& r.content@.len() == 1
    &&& is_text_content(r.content@[0], text)
    &&& r.is_error is None
}

/// The failure envelope carrying the message `message`.
pub open spec fn is_error_result(r: CallToolResult, message: Seq<char>) -> bool {
    &&& r.content@.len() == 1
    &&& is_text_content(r.content@[0], message)
    &&& r.is_error == Some(true)
}

/// A result this servlet can produce: exactly one text content item, and
/// either no error mark at all or an error with a non-empty message.
pub open spec fn is_wellformed_result(r: CallToolResult) -> bool {
    &&& r.content@.len() == 1
    &&& r.content@[0].content_type == ContentType::Text
    &&& r.content@[0].text matches Some(t) && (r.is_error == Some(true) ==> t@.len() > 0)
    &&& r.content@[0].annotations is None
    &&& r.content@[0].data is None
    &&& r.content@[0].mime_type is None
    &&& (r.is_error is None || r.is_error == Some(true))
}

/// A text content item carrying `text`.
pub fn text_content(text: String) -> (r: Content)
    ensures
        is_text_content(r, text@),
{
    Content {
        annotations: None,
        data: None,
        mime_type: None,
        text: Some(text),
        content_type: ContentType::Text,
    }
}

/// Maps an evaluation outcome to the protocol's result envelope: success
/// becomes one text content item with the serialized value and no error
/// mark; failure becomes one text content item with the error's message and
/// the error mark set.
pub fn adapt_result(outcome: Result<String, EvalError>) -> (r: CallToolResult)
    ensures
        outcome matches Ok(s) ==> is_success_result(r, s@),
        outcome matches Err(e) ==> is_error_result(r, e.spec_message()),
        is_wellformed_result(r),
{
    match outcome {
        Ok(text) => {
            let mut content: Vec<Content> = Vec::new();
            content.push(text_content(text));
            CallToolResult { content, is_error: None }
        },
        Err(e) => {
            proof {
                engine::lemma_eval_error_message_nonempty(e);
            }
            let mut content: Vec<Content> = Vec::new();
            content.push(text_content(e.message()));
            CallToolResult { content, is_error: Some(true) }
        },
    }
}

/// The servlet: dispatches tool calls and owns the lazily-created embedded
/// interpreter backend.  One instance is meant to live for the whole
/// process; the interpreter context persists across calls, so global
/// bindings of one call are visible to the next.
pub struct Reactor {
    interpreter: Option<Interpreter>,
    /// How many interpreter contexts this reactor has ever created; the
    /// contracts pin it so that a created context is kept, never replaced.
    contexts_created: Ghost<nat>,
}

impl Reactor {
    /// Whether the interpreter context has been created.
    pub closed spec fn spec_ready(self) -> bool {
        self.interpreter is Some
    }

    /// How many interpreter contexts this reactor has ever created.
    pub closed spec fn spec_contexts_created(self) -> nat {
        self.contexts_created@
    }

    /// A reactor whose interpreter is not created yet; the first evaluation
    /// creates it.
    pub fn new() -> (r: Reactor)
        ensures
            !r.spec_ready(),
            r.spec_contexts_created() == 0,
    {
        Reactor { interpreter: None, contexts_created: Ghost(0) }
    }

    /// Dispatches one tool call.  Only `execute_code` is recognized: its
    /// `code` argument is wrapped, evaluated on the embedded interpreter,
    /// and the outcome returned in the result envelope.  An unknown tool
    /// name, or arguments that do not bind `code` to a string, fail at the
    /// call level and reach no backend; every evaluation failure is instead
    /// part of the returned result, and the reactor stays usable.  The
    /// interpreter context is created lazily, at most once: the first
    /// dispatched evaluation creates it, and every later call shares it —
    /// the creation count never moves again.
    pub fn call(&mut self, input: CallToolRequest) -> (r: Result<CallToolResult, CallError>)
        ensures
            r is Ok <==> (input.params.name@ == "execute_code"@ && spec_code_argument(
                input.params,
            ) is Some),
            input.params.name@ != "execute_code"@ ==> r == Err::<CallToolResult, CallError>(
                CallError::InvalidToolName,
            ),
            (input.params.name@ == "execute_code"@ && spec_code_argument(input.params) is None)
                ==> r == Err::<CallToolResult, CallError>(CallError::MissingCodeArgument),
            r matches Ok(t) ==> is_wellformed_result(t),
            r is Ok ==> final (self).spec_ready(),
            old(self).spec_ready() ==> final (self).spec_ready(),
            final (self).spec_contexts_created() == (
            if !old(self).spec_ready() && r is Ok {
                old(self).spec_contexts_created() + 1
            } else {
                old(self).spec_contexts_created()
            }),
            r is Err ==> *final (self) == *old(self),
    {
        let expected = String::from_str("execute_code");
        if !(input.params.name == expected) {
            return Err(CallError::InvalidToolName);
        }
        let code = match get_code_argument(&input.params) {
            Some(c) => c,
            None => {
                return Err(CallError::MissingCodeArgument);
            },
        };
        let wrapped = sandbox::wrap_code(code.as_str());
        let mut interpreter = match self.interpreter.take() {
            Some(i) => i,
            None => {
                self.contexts_created = Ghost(self.contexts_created@ + 1);
                Interpreter::new()
            },
        };
        let outcome = interpreter.evaluate(wrapped.as_str());
        self.interpreter = Some(interpreter);
        Ok(adapt_result(outcome))
    }

    /// Returns the static tool catalog: exactly one tool, `execute_code`.
    /// The catalog depends on nothing — not on the reactor's state, nor on
    /// any configuration, which is not yet set when the host first asks —
    /// so every call returns the identical value.
    pub fn describe(&self) -> (r: Result<ListToolsResult, CallError>)
        ensures
            r matches Ok(t) && catalog::is_catalog(t),
    {
        Ok(catalog::build_catalog())
    }
}

impl Default for Reactor {
    /// A reactor whose interpreter is not created yet.
    fn default() -> (r: Reactor)
        ensures
            !r.spec_ready(),
            r.spec_contexts_created() == 0,
    {
        Reactor::new()
    }
}

} // verus!
