//! The embedded-interpreter backend.
//!
//! Owns one interpreter context of the `boa_engine` crate, evaluates the
//! wrapped expression in it, and drives the resulting promise to completion
//! by draining the context's job queue synchronously — no external threads.
//! Loop constructs in sandboxed code run under an iteration budget; the
//! drain of the job queue itself has none (see `LOOP_ITERATION_LIMIT`).
//! What an evaluation returns is decided by the interpreter and is opaque to
//! this library: the trusted declarations below state of each call only what
//! the crate's source shows of every outcome, and the verified code around
//! them fixes how each outcome is mapped to a result or an error.

use vstd::prelude::*;

verus! {

#[verifier::external_type_specification]
#[verifier::external_body]
pub struct ExContext(boa_engine::Context);

#[verifier::external_type_specification]
#[verifier::external_body]
pub struct ExJsValue(boa_engine::JsValue);

#[verifier::external_type_specification]
#[verifier::external_body]
pub struct ExJsError(boa_engine::JsError);

#[verifier::external_type_specification]
#[verifier::external_body]
pub struct ExJsPromise(boa_engine::object::builtins::JsPromise);

/// An evaluation failure, recovered locally: the shared context stays
/// usable for later calls.
#[derive(Debug)]
pub enum EvalError {
    /// The sandboxed code threw or failed to parse, or its promise was
    /// rejected; the payload is the interpreter's rendering of the error.
    ScriptError(String),
    /// Evaluation produced a value that does not behave like a promise, or
    /// one that cannot be converted to text: a contract violation between
    /// wrapper and backend, treated as an evaluation error.
    NotAwaitable,
}

impl EvalError {
    /// The human-readable message of this error.
    pub open spec fn spec_message(self) -> Seq<char> {
        match self {
            EvalError::ScriptError(m) => "in js evaluation: "@ + m@,
            EvalError::NotAwaitable => "in awaiting the thing"@,
        }
    }

    /// Renders the message; it is never empty.
    pub fn message(&self) -> (r: String)
        ensures
            r@ == self.spec_message(),
            r@.len() > 0,
    {
        proof {
            lemma_eval_error_message_nonempty(*self);
        }
        match self {
            EvalError::ScriptError(m) => {
                let mut s = String::from_str("in js evaluation: ");
                s.append(m.as_str());
                s
            },
            EvalError::NotAwaitable => String::from_str("in awaiting the thing"),
        }
    }
}

/// Law: every evaluation error carries a non-empty message.
pub proof fn lemma_eval_error_message_nonempty(e: EvalError)
    ensures
        e.spec_message().len() > 0,
{
    reveal_strlit("in js evaluation: ");
    reveal_strlit("in awaiting the thing");
}

/// The state of a promise at one instant, as the interpreter reports it.
pub enum PromiseOutcome {
    /// Not settled yet.
    Pending,
    /// Fulfilled with a success value.
    Fulfilled(boa_engine::JsValue),
    /// Rejected with a failure reason.
    Rejected(boa_engine::JsValue),
}

/// The iteration budget given to the interpreter context.  It bounds
/// JavaScript loop constructs only: a loop beyond the budget throws
/// instead of running on.  It does not bound the drain of the job queue —
/// sandboxed code that keeps re-scheduling a promise reaction keeps the
/// drain running, with no budget on it (see `drain_jobs`); bounding that
/// would take a job executor with a round budget handed to the context at
/// construction, which the backend does not yet do.
pub const LOOP_ITERATION_LIMIT: u64 = 4194304;

/// Relies on boa_engine::Context::default — a fresh, default-configured
/// interpreter context; building it does not fail for the default
/// configuration — and on RuntimeLimits::set_loop_iteration_limit, which
/// makes any later loop construct beyond the budget throw instead of
/// running on.
#[verifier::external_body]
fn new_context(loop_limit: u64) -> boa_engine::Context {
    let mut ctx = boa_engine::Context::default();
    ctx.runtime_limits_mut().set_loop_iteration_limit(loop_limit);
    ctx
}

/// Relies on boa_engine::Context::eval with a byte source: parses and runs
/// the script in this context and returns its completion value, or the
/// thrown error.  Scheduled promise jobs are not run by it.
#[verifier::external_body]
fn eval_source(
    ctx: &mut boa_engine::Context,
    code: &str,
) -> Result<boa_engine::JsValue, boa_engine::JsError> {
    ctx.eval(boa_engine::Source::from_bytes(code))
}

/// Relies on boa_engine::JsValue::as_promise: `Some` exactly when the value
/// is a promise object.
#[verifier::external_body]
fn value_as_promise(v: &boa_engine::JsValue) -> Option<boa_engine::object::builtins::JsPromise> {
    v.as_promise()
}

/// Relies on boa_engine::Context::run_jobs: drains the context's job queue,
/// running scheduled promise jobs until none is left or one fails.  The
/// drain has no budget: it does not return while sandboxed code keeps
/// re-scheduling a promise reaction, and the loop-iteration budget does
/// not reach it.  This unbounded drain is the backend's one remaining way
/// for hostile code to hold the shared context.
#[verifier::external_body]
fn drain_jobs(ctx: &mut boa_engine::Context) -> Result<(), boa_engine::JsError> {
    ctx.run_jobs()
}

/// Relies on boa_engine::object::builtins::JsPromise::state, telling the
/// three promise states apart.
#[verifier::external_body]
fn promise_outcome(p: &boa_engine::object::builtins::JsPromise) -> PromiseOutcome {
    match p.state() {
        boa_engine::builtins::promise::PromiseState::Pending => PromiseOutcome::Pending,
        boa_engine::builtins::promise::PromiseState::Fulfilled(v) => PromiseOutcome::Fulfilled(v),
        boa_engine::builtins::promise::PromiseState::Rejected(v) => PromiseOutcome::Rejected(v),
    }
}

/// Relies on boa_engine::JsValue::as_string — `Some` exactly when the value
/// is a string — and on JsString::to_std_string_escaped, the string as
/// UTF-8 with unpaired surrogates escaped.
#[verifier::external_body]
fn value_as_string(v: &boa_engine::JsValue) -> Option<String> {
    match v.as_string() {
        Some(s) => Some(s.to_std_string_escaped()),
        None => None,
    }
}

/// Relies on boa_engine::JsError::into_erased: renders the error the way
/// the context's error-formatting facility shows it.
#[verifier::external_body]
fn error_text(e: boa_engine::JsError, ctx: &mut boa_engine::Context) -> String {
    format!("{}", e.into_erased(ctx))
}

/// Relies on boa_engine::JsError::from_opaque and into_erased: renders a
/// thrown (rejection) value the way the context's error-formatting facility
/// shows an exception carrying it.
#[verifier::external_body]
fn thrown_value_text(v: boa_engine::JsValue, ctx: &mut boa_engine::Context) -> String {
    format!("{}", boa_engine::JsError::from_opaque(v).into_erased(ctx))
}

/// Whether an outcome is a script failure: the sandboxed code threw,
/// failed to parse, or its promise was rejected or never settled.
pub open spec fn is_script_error<T>(r: Result<T, EvalError>) -> bool {
    match r {
        Err(EvalError::ScriptError(_)) => true,
        _ => false,
    }
}

/// Whether an outcome is either a success or the `NotAwaitable` contract
/// violation — the two outcomes a step whose test the interpreter decides
/// may produce; in particular no such step invents a script failure.
pub open spec fn is_ok_or_not_awaitable<T>(r: Result<T, EvalError>) -> bool {
    match r {
        Ok(_) => true,
        Err(e) => e is NotAwaitable,
    }
}

/// Whether an outcome is the script failure reporting a promise that was
/// still pending after the job queue was drained.
pub open spec fn is_unsettled_error(r: Result<String, EvalError>) -> bool {
    match r {
        Err(EvalError::ScriptError(m)) => m@ == "the promise did not settle"@,
        _ => false,
    }
}

/// The embedded backend's conversion of a settled value's string form into
/// the evaluation's outcome: the string is returned as-is, and a settled
/// value without a string form is the `NotAwaitable` contract violation.
pub fn settled_text_outcome(text_form: Option<String>) -> (r: Result<String, EvalError>)
    ensures
        text_form matches Some(s) ==> r == Ok::<String, EvalError>(s),
        text_form is None ==> (r matches Err(e) && e is NotAwaitable),
{
    match text_form {
        Some(text) => Ok(text),
        None => Err(EvalError::NotAwaitable),
    }
}

/// The embedded-interpreter backend: one interpreter context, created
/// default-configured with a budget on its loop constructs, reused across
/// calls.  State isolation across calls is not guaranteed: global bindings
/// of one evaluation persist into the next.
pub struct Interpreter {
    ctx: boa_engine::Context,
}

impl Interpreter {
    /// A fresh interpreter context.
    pub fn new() -> Interpreter {
        Interpreter { ctx: new_context(LOOP_ITERATION_LIMIT) }
    }

    /// The step after evaluation.  Which branch runs is the interpreter's
    /// decision and opaque here; what this fixes is the mapping: a thrown
    /// error becomes `ScriptError` carrying its rendering, and a completion
    /// value either is the promise the wrapped expression owes, or is the
    /// `NotAwaitable` contract violation — never a script failure.
    pub fn promise_of_completion(
        &mut self,
        completion: Result<boa_engine::JsValue, boa_engine::JsError>,
    ) -> (r: Result<boa_engine::object::builtins::JsPromise, EvalError>)
        ensures
            completion is Err ==> is_script_error(r),
            completion is Ok ==> is_ok_or_not_awaitable(r),
    {
        match completion {
            Err(e) => Err(EvalError::ScriptError(error_text(e, &mut self.ctx))),
            Ok(value) => match value_as_promise(&value) {
                Some(p) => Ok(p),
                None => Err(EvalError::NotAwaitable),
            },
        }
    }

    /// Drains the job queue; a failing job is a script failure, carrying
    /// the interpreter's rendering of the error, and nothing else is.
    pub fn drain_queued_jobs(&mut self) -> (r: Result<(), EvalError>)
        ensures
            r is Err ==> is_script_error(r),
    {
        match drain_jobs(&mut self.ctx) {
            Ok(u) => Ok(u),
            Err(e) => Err(EvalError::ScriptError(error_text(e, &mut self.ctx))),
        }
    }

    /// The final step: the mapping from the drained promise's state to the
    /// evaluation's outcome.  A promise still pending is the script failure
    /// with exactly the message `the promise did not settle`; a rejected
    /// promise is a script failure carrying the rendering of its reason; a
    /// fulfilled promise either yields its string value — handed through
    /// unchanged by `settled_text_outcome` — or, if the settled value has
    /// no string form, the `NotAwaitable` contract violation — never a
    /// script failure.
    pub fn outcome_of_settled(&mut self, settled: PromiseOutcome) -> (r: Result<String, EvalError>)
        ensures
            settled is Pending ==> is_unsettled_error(r),
            settled is Rejected ==> is_script_error(r),
            settled is Fulfilled ==> is_ok_or_not_awaitable(r),
    {
        match settled {
            PromiseOutcome::Fulfilled(value) => settled_text_outcome(value_as_string(&value)),
            PromiseOutcome::Rejected(reason) => {
                Err(EvalError::ScriptError(thrown_value_text(reason, &mut self.ctx)))
            },
            PromiseOutcome::Pending => {
                Err(EvalError::ScriptError(String::from_str("the promise did not settle")))
            },
        }
    }

    /// Evaluates the wrapped expression: runs it in this context, expects a
    /// promise back, drains the job queue to settle it, and converts the
    /// settled value to text.  The evaluation's outcome is the
    /// interpreter's and is opaque here; how each outcome maps is fixed by
    /// the contracts of the three steps this composes.  Every failure is
    /// recovered locally: the context stays usable for the next call.
    pub fn evaluate(&mut self, wrapped: &str) -> Result<String, EvalError> {
        let completion = eval_source(&mut self.ctx, wrapped);
        let promise = match self.promise_of_completion(completion) {
            Ok(p) => p,
            Err(e) => {
                return Err(e);
            },
        };
        if let Err(e) = self.drain_queued_jobs() {
            return Err(e);
        }
        let settled = promise_outcome(&promise);
        self.outcome_of_settled(settled)
    }
}

} // verus!
