use portal_solutions_ai_interface::engine::{EvalError, Interpreter, PromiseOutcome, settled_text_outcome};

#[test]
fn pending_promise_maps_to_the_unsettled_error() {
    let mut interpreter = Interpreter::new();
    let outcome = interpreter.outcome_of_settled(PromiseOutcome::Pending);
    assert!(matches!(outcome, Err(EvalError::ScriptError(m)) if m == "the promise did not settle"));
}

#[test]
fn fulfilled_string_yields_exactly_that_string() {
    let mut interpreter = Interpreter::new();
    let value = boa_engine::JsValue::from(boa_engine::JsString::from("\"ok\""));
    let outcome = interpreter.outcome_of_settled(PromiseOutcome::Fulfilled(value));
    assert_eq!(outcome.unwrap(), "\"ok\"");
}

#[test]
fn fulfilled_non_string_is_not_awaitable() {
    let mut interpreter = Interpreter::new();
    let value = boa_engine::JsValue::from(7);
    let outcome = interpreter.outcome_of_settled(PromiseOutcome::Fulfilled(value));
    assert!(matches!(outcome, Err(EvalError::NotAwaitable)));
}

#[test]
fn non_promise_completion_is_not_awaitable() {
    let mut interpreter = Interpreter::new();
    let completion = Ok(boa_engine::JsValue::from(1));
    let outcome = interpreter.promise_of_completion(completion);
    assert!(matches!(outcome, Err(EvalError::NotAwaitable)));
}

#[test]
fn draining_an_idle_context_succeeds() {
    let mut interpreter = Interpreter::new();
    assert!(interpreter.drain_queued_jobs().is_ok());
}

#[test]
fn settled_text_is_handed_through_unchanged() {
    let handed = settled_text_outcome(Some(String::from("{\"a\":1}")));
    assert_eq!(handed.unwrap(), "{\"a\":1}");
    let missing = settled_text_outcome(None);
    assert!(matches!(missing, Err(EvalError::NotAwaitable)));
}
