use portal_solutions_ai_interface::types::{
    CallToolRequest, CallToolResult, ContentType, JsonValue, ListToolsResult, Params,
    get_code_argument,
};
use portal_solutions_ai_interface::engine::EvalError;
use portal_solutions_ai_interface::{CallError, Reactor, adapt_result};

fn code_request(code: &str) -> CallToolRequest {
    CallToolRequest {
        method: None,
        params: Params {
            arguments: Some(vec![(String::from("code"), JsonValue::Text(String::from(code)))]),
            name: String::from("execute_code"),
        },
    }
}

fn result_text(result: &CallToolResult) -> &str {
    assert_eq!(result.content.len(), 1);
    assert_eq!(result.content[0].content_type, ContentType::Text);
    result.content[0].text.as_deref().expect("text content must carry text")
}

#[test]
fn scenario_addition() {
    let mut reactor = Reactor::new();
    let result = reactor.call(code_request("return 1+1;")).expect("valid request");
    assert_eq!(result_text(&result), "2");
    assert_eq!(result.is_error, None);
}

#[test]
fn scenario_throw() {
    let mut reactor = Reactor::new();
    let result = reactor.call(code_request("throw new Error('boom')")).expect("valid request");
    assert_eq!(result.is_error, Some(true));
    let text = result_text(&result);
    assert!(text.contains("boom"), "error text was: {text}");
    assert!(!text.is_empty());
}

#[test]
fn scenario_await_resolved() {
    let mut reactor = Reactor::new();
    let result = reactor
        .call(code_request("return await Promise.resolve('ok')"))
        .expect("valid request");
    assert_eq!(result_text(&result), "\"ok\"");
    assert_eq!(result.is_error, None);
}

#[test]
fn scenario_json_object() {
    let mut reactor = Reactor::new();
    let result = reactor.call(code_request("return {a: 1};")).expect("valid request");
    assert_eq!(result_text(&result), "{\"a\":1}");
    assert_eq!(result.is_error, None);
}

#[test]
fn unknown_tool_is_call_level_error() {
    let mut reactor = Reactor::new();
    let request = CallToolRequest {
        method: None,
        params: Params {
            arguments: Some(vec![(
                String::from("code"),
                JsonValue::Text(String::from("return 1;")),
            )]),
            name: String::from("frobnicate"),
        },
    };
    let outcome = reactor.call(request);
    assert!(matches!(outcome, Err(CallError::InvalidToolName)));
    assert_eq!(CallError::InvalidToolName.message(), "invalid tool name");
}

#[test]
fn missing_arguments_is_call_level_error() {
    let mut reactor = Reactor::new();
    let request = CallToolRequest {
        method: None,
        params: Params { arguments: None, name: String::from("execute_code") },
    };
    let outcome = reactor.call(request);
    assert!(matches!(outcome, Err(CallError::MissingCodeArgument)));
}

#[test]
fn missing_code_key_is_call_level_error() {
    let mut reactor = Reactor::new();
    let request = CallToolRequest {
        method: None,
        params: Params {
            arguments: Some(vec![(
                String::from("script"),
                JsonValue::Text(String::from("return 1;")),
            )]),
            name: String::from("execute_code"),
        },
    };
    let outcome = reactor.call(request);
    assert!(matches!(outcome, Err(CallError::MissingCodeArgument)));
    let message = CallError::MissingCodeArgument.message();
    assert!(message.contains("code"), "message must reference the missing argument");
}

#[test]
fn non_string_code_is_call_level_error() {
    let mut reactor = Reactor::new();
    let request = CallToolRequest {
        method: None,
        params: Params {
            arguments: Some(vec![(String::from("code"), JsonValue::Number(String::from("7")))]),
            name: String::from("execute_code"),
        },
    };
    let outcome = reactor.call(request);
    assert!(matches!(outcome, Err(CallError::MissingCodeArgument)));
}

#[test]
fn syntax_error_becomes_error_result() {
    let mut reactor = Reactor::new();
    let result = reactor.call(code_request("return (;")).expect("valid request");
    assert_eq!(result.is_error, Some(true));
    let text = result_text(&result);
    assert!(text.starts_with("in js evaluation: "), "error text was: {text}");
}

#[test]
fn unserializable_value_becomes_error_result() {
    let mut reactor = Reactor::new();
    let result = reactor.call(code_request("return undefined;")).expect("valid request");
    assert_eq!(result.is_error, Some(true));
    assert_eq!(result_text(&result), "in awaiting the thing");
}

#[test]
fn globals_persist_across_calls() {
    let mut reactor = Reactor::new();
    let first = reactor.call(code_request("globalThis.counter = 41; return 0;")).unwrap();
    assert_eq!(first.is_error, None);
    let second = reactor.call(code_request("return counter + 1;")).unwrap();
    assert_eq!(result_text(&second), "42");
    assert_eq!(second.is_error, None);
}

#[test]
fn context_stays_usable_after_failure() {
    let mut reactor = Reactor::new();
    let failing = reactor.call(code_request("throw 'first'")).unwrap();
    assert_eq!(failing.is_error, Some(true));
    let healthy = reactor.call(code_request("return 5;")).unwrap();
    assert_eq!(result_text(&healthy), "5");
    assert_eq!(healthy.is_error, None);
}

fn assert_catalog(catalog: &ListToolsResult) {
    assert_eq!(catalog.tools.len(), 1);
    let tool = &catalog.tools[0];
    assert_eq!(tool.name, "execute_code");
    assert!(!tool.description.is_empty());
    assert_eq!(tool.input_schema.len(), 3);
    assert_eq!(tool.input_schema[0].0, "type");
    assert!(matches!(&tool.input_schema[0].1, JsonValue::Text(t) if t == "object"));
    assert_eq!(tool.input_schema[1].0, "required");
    match &tool.input_schema[1].1 {
        JsonValue::List(required) => {
            assert_eq!(required.len(), 1);
            assert!(matches!(&required[0], JsonValue::Text(t) if t == "code"));
        },
        other => panic!("required must be a list, got {other:?}"),
    }
    assert_eq!(tool.input_schema[2].0, "properties");
    match &tool.input_schema[2].1 {
        JsonValue::Object(props) => {
            assert_eq!(props.len(), 1);
            assert_eq!(props[0].0, "code");
            match &props[0].1 {
                JsonValue::Object(code_schema) => {
                    assert_eq!(code_schema.len(), 1);
                    assert_eq!(code_schema[0].0, "type");
                    assert!(matches!(&code_schema[0].1, JsonValue::Text(t) if t == "string"));
                },
                other => panic!("the code property must be an object, got {other:?}"),
            }
        },
        other => panic!("properties must be an object, got {other:?}"),
    }
}

#[test]
fn describe_lists_the_single_tool() {
    let reactor = Reactor::new();
    let catalog = reactor.describe().expect("describe never fails");
    assert_catalog(&catalog);
}

fn catalog_fingerprint(catalog: &ListToolsResult) -> String {
    let tool = &catalog.tools[0];
    let mut out = format!("{}|{}|", tool.name, tool.description);
    for (key, value) in &tool.input_schema {
        out.push_str(key);
        out.push('=');
        out.push_str(&format!("{value:?}"));
        out.push(';');
    }
    out
}

#[test]
fn describe_is_identical_before_and_after_calls() {
    let mut reactor = Reactor::new();
    let before = reactor.describe().unwrap();
    reactor.call(code_request("return 1;")).unwrap();
    let after = reactor.describe().unwrap();
    assert_catalog(&before);
    assert_catalog(&after);
    assert_eq!(catalog_fingerprint(&before), catalog_fingerprint(&after));
}

#[test]
fn code_argument_extraction() {
    let params = Params {
        arguments: Some(vec![
            (String::from("other"), JsonValue::Null),
            (String::from("code"), JsonValue::Text(String::from("return 3;"))),
        ]),
        name: String::from("execute_code"),
    };
    assert_eq!(get_code_argument(&params), Some(String::from("return 3;")));
    let empty = Params { arguments: Some(vec![]), name: String::from("execute_code") };
    assert_eq!(get_code_argument(&empty), None);
}

#[test]
fn adapter_maps_success_and_failure() {
    let ok = adapt_result(Ok(String::from("42")));
    assert_eq!(ok.is_error, None);
    assert_eq!(ok.content.len(), 1);
    assert_eq!(ok.content[0].text.as_deref(), Some("42"));
    let script = adapt_result(Err(EvalError::ScriptError(String::from("boom"))));
    assert_eq!(script.is_error, Some(true));
    assert_eq!(script.content[0].text.as_deref(), Some("in js evaluation: boom"));
    let not_awaitable = adapt_result(Err(EvalError::NotAwaitable));
    assert_eq!(not_awaitable.is_error, Some(true));
    assert_eq!(not_awaitable.content[0].text.as_deref(), Some("in awaiting the thing"));
}

#[test]
fn never_settling_promise_becomes_error_result() {
    let mut reactor = Reactor::new();
    let result = reactor.call(code_request("return new Promise(resolve => {});")).unwrap();
    assert_eq!(result.is_error, Some(true));
    assert_eq!(result_text(&result), "in js evaluation: the promise did not settle");
}

#[test]
fn runaway_loop_hits_the_iteration_budget() {
    let mut reactor = Reactor::new();
    let result = reactor.call(code_request("while (true) {}")).unwrap();
    assert_eq!(result.is_error, Some(true));
    let text = result_text(&result);
    assert!(text.starts_with("in js evaluation: "), "error text was: {text}");
    let healthy = reactor.call(code_request("return 7;")).unwrap();
    assert_eq!(result_text(&healthy), "7");
}
