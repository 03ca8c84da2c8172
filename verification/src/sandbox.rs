//! Code wrapping and backend selection.
//!
//! The wrapper is a pure string transform: a caller-supplied fragment of
//! statements becomes a self-invoking asynchronous function expression whose
//! resolved value is JSON-stringified.  The selector records the outcome of
//! the host capability probe at most once per process and applies the
//! tie-break rule: the host-function backend whenever the probe found the
//! dynamic-function constructor, the embedded interpreter otherwise.

use vstd::prelude::*;

use crate::engine::EvalError;

verus! {

/// The wrapped form of a code fragment: an immediately invoked asynchronous
/// function holding the fragment as its body, its resolved value serialized
/// to JSON text.
pub open spec fn spec_wrapped_code(code: Seq<char>) -> Seq<char> {
    "(async ()=>{"@ + code + "})().then(a=>JSON.stringify(a))"@
}

/// Wraps a raw code fragment into the evaluable expression.  Pure string
/// construction: malformed input surfaces only later, as an evaluation-time
/// failure in the backend.
pub fn wrap_code(code: &str) -> (r: String)
    ensures
        r@ == spec_wrapped_code(code@),
{
    let mut wrapped = String::from_str("(async ()=>{");
    wrapped.append(code);
    wrapped.append("})().then(a=>JSON.stringify(a))");
    wrapped
}

/// The body handed to the host's dynamic-function constructor: it returns
/// the wrapped expression.
pub open spec fn spec_host_function_body(wrapped: Seq<char>) -> Seq<char> {
    "return "@ + wrapped + ";"@
}

/// Builds the function body for the host-function backend, which constructs
/// a function from it and awaits the returned value.
pub fn host_function_body(wrapped: &str) -> (r: String)
    ensures
        r@ == spec_host_function_body(wrapped@),
{
    let mut body = String::from_str("return ");
    body.append(wrapped);
    body.append(";");
    body
}

/// The probe the host runs to obtain the global dynamic-function
/// constructor; the host's security policy may make it yield nothing.
pub fn host_probe_source() -> (r: String)
    ensures
        r@ == "return Function"@,
{
    String::from_str("return Function")
}

/// The name of the single parameter declared on the host-constructed
/// function: the callback with which sandboxed code may invoke other
/// host-exposed tools.
pub fn host_callback_parameter() -> (r: String)
    ensures
        r@ == "call_tool"@,
{
    String::from_str("call_tool")
}

/// The message with which the tool-call callback rejects: bridging
/// sandboxed tool calls to the real dispatcher is a declared extension
/// point, not yet wired.
pub fn tool_call_rejection_message() -> (r: String)
    ensures
        r@ == "invalid tool call"@,
{
    String::from_str("invalid tool call")
}

/// The host-function backend's final step.  The host awaits the constructed
/// function's returned value itself; handed that value's string form, this
/// fixes the outcome: the string becomes the evaluation's result, and a
/// value without a string form is a contract violation between wrapper and
/// backend, reported as an evaluation error.
pub fn host_settled_outcome(settled: Option<String>) -> (r: Result<String, EvalError>)
    ensures
        settled matches Some(s) ==> r == Ok::<String, EvalError>(s),
        settled is None ==> r == Err::<String, EvalError>(EvalError::NotAwaitable),
{
    match settled {
        Some(s) => Ok(s),
        None => Err(EvalError::NotAwaitable),
    }
}

/// One of the interchangeable strategies able to evaluate sandboxed code.
#[derive(Debug, Clone, Copy, PartialEq, Eq, Structural)]
pub enum Backend {
    /// A dynamic-function constructor the embedding host provides.
    HostFunction,
    /// The embedded interpreter, the universal fallback.
    Embedded,
}

/// Records whether the host provides a dynamic-function constructor.  The
/// probe's outcome is cached permanently after the first record; absence is
/// a permanent negative result, never re-probed.
#[derive(Debug, Clone, Copy)]
pub struct BackendSelector {
    probe_result: Option<bool>,
}

impl BackendSelector {
    /// The probe's recorded outcome: `None` before any probe, then
    /// permanently `Some` of the first outcome.
    pub closed spec fn spec_probe_result(self) -> Option<bool> {
        self.probe_result
    }

    /// A selector that has not probed yet.
    pub fn new() -> (r: BackendSelector)
        ensures
            r.spec_probe_result() is None,
    {
        BackendSelector { probe_result: None }
    }

    /// Records the probe's outcome.  Only the first record counts: the
    /// probe happens at most once per process lifetime.
    pub fn record_probe(&mut self, host_constructor_available: bool)
        ensures
            final(self).spec_probe_result() == (match old(self).spec_probe_result() {
                Some(b) => Some(b),
                None => Some(host_constructor_available),
            }),
    {
        if self.probe_result.is_none() {
            self.probe_result = Some(host_constructor_available);
        }
    }

    /// The backend the tie-break rule selects: the host-function backend
    /// whenever the probe found the constructor usable; the embedded
    /// interpreter otherwise, including before any probe.
    pub fn selected(&self) -> (r: Backend)
        ensures
            r == (match self.spec_probe_result() {
                Some(true) => Backend::HostFunction,
                _ => Backend::Embedded,
            }),
    {
        match self.probe_result {
            Some(true) => Backend::HostFunction,
            _ => Backend::Embedded,
        }
    }
}

} // verus!
