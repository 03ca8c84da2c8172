use portal_solutions_ai_interface::engine::EvalError;
use portal_solutions_ai_interface::sandbox::{
    Backend, BackendSelector, host_callback_parameter, host_function_body, host_probe_source,
    host_settled_outcome, tool_call_rejection_message, wrap_code,
};

#[test]
fn wrapping_builds_the_awaited_expression() {
    assert_eq!(
        wrap_code("return 1+1;"),
        "(async ()=>{return 1+1;})().then(a=>JSON.stringify(a))"
    );
    assert_eq!(wrap_code(""), "(async ()=>{})().then(a=>JSON.stringify(a))");
}

#[test]
fn host_function_body_returns_the_wrapped_expression() {
    assert_eq!(host_function_body("f()"), "return f();");
}

#[test]
fn host_probe_and_callback_texts() {
    assert_eq!(host_probe_source(), "return Function");
    assert_eq!(host_callback_parameter(), "call_tool");
    assert_eq!(tool_call_rejection_message(), "invalid tool call");
}

#[test]
fn selector_memoizes_the_first_probe() {
    let mut selector = BackendSelector::new();
    assert_eq!(selector.selected(), Backend::Embedded);
    selector.record_probe(true);
    assert_eq!(selector.selected(), Backend::HostFunction);
    selector.record_probe(false);
    assert_eq!(selector.selected(), Backend::HostFunction);
}

#[test]
fn selector_caches_a_negative_probe() {
    let mut selector = BackendSelector::new();
    selector.record_probe(false);
    assert_eq!(selector.selected(), Backend::Embedded);
    selector.record_probe(true);
    assert_eq!(selector.selected(), Backend::Embedded);
}

#[test]
fn host_settled_outcome_fixes_the_mapping() {
    let ok = host_settled_outcome(Some(String::from("\"ok\"")));
    assert_eq!(ok.unwrap(), "\"ok\"");
    let missing = host_settled_outcome(None);
    assert!(matches!(missing, Err(EvalError::NotAwaitable)));
}
