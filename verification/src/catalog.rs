//! The tool catalog: the static description of the single exposed tool.
//!
//! `execute_code` takes an object with one required string property,
//! `code`.  The catalog is a fixed value, depending on nothing — not on the
//! servlet's state, nor on any configuration.

use vstd::prelude::*;

use crate::types::{JsonValue, ListToolsResult, ToolDescription};

verus! {

/// The human description of the tool.
pub open spec fn spec_tool_description_text() -> Seq<char> {
    "Executes code in a secure sandbox. Use this if you don't already have a sandbox to run code in, and use it to encapsulate the rest of the tools here with `call_tool`"@
}

/// The schema of the `code` property: a string.
pub open spec fn is_code_property(v: JsonValue) -> bool {
    &&& v matches JsonValue::Object(code_schema)
    &&& code_schema@.len() == 1
    &&& code_schema@[0].0@ == "type"@
    &&& code_schema@[0].1 matches JsonValue::Text(ty) && ty@ == "string"@
}

/// The `properties` value: the single property `code` with its schema.
pub open spec fn is_properties_value(v: JsonValue) -> bool {
    &&& v matches JsonValue::Object(props)
    &&& props@.len() == 1
    &&& props@[0].0@ == "code"@
    &&& is_code_property(props@[0].1)
}

/// The `required` value: the single name `code`.
pub open spec fn is_required_value(v: JsonValue) -> bool {
    &&& v matches JsonValue::List(req)
    &&& req@.len() == 1
    &&& req@[0] matches JsonValue::Text(c) && c@ == "code"@
}

/// The input schema of `execute_code`: an object, whose required property
/// `code` is a string.
pub open spec fn is_execute_code_schema(entries: Seq<(String, JsonValue)>) -> bool {
    &&& entries.len() == 3
    &&& entries[0].0@ == "type"@
    &&& entries[0].1 matches JsonValue::Text(t) && t@ == "object"@
    &&& entries[1].0@ == "required"@
    &&& is_required_value(entries[1].1)
    &&& entries[2].0@ == "properties"@
    &&& is_properties_value(entries[2].1)
}

/// The catalog: exactly one tool, `execute_code`, with its description and
/// input schema.
pub open spec fn is_catalog(r: ListToolsResult) -> bool {
    &&& r.tools@.len() == 1
    &&& r.tools@[0].name@ == "execute_code"@
    &&& r.tools@[0].description@ == spec_tool_description_text()
    &&& is_execute_code_schema(r.tools@[0].input_schema@)
}

/// Builds the catalog value.
pub fn build_catalog() -> (r: ListToolsResult)
    ensures
        is_catalog(r),
{
    let mut schema: Vec<(String, JsonValue)> = Vec::new();
    schema.push((String::from_str("type"), JsonValue::Text(String::from_str("object"))));
    let mut required: Vec<JsonValue> = Vec::new();
    required.push(JsonValue::Text(String::from_str("code")));
    schema.push((String::from_str("required"), JsonValue::List(required)));
    let mut code_schema: Vec<(String, JsonValue)> = Vec::new();
    code_schema.push((String::from_str("type"), JsonValue::Text(String::from_str("string"))));
    let mut properties: Vec<(String, JsonValue)> = Vec::new();
    properties.push((String::from_str("code"), JsonValue::Object(code_schema)));
    schema.push((String::from_str("properties"), JsonValue::Object(properties)));
    let mut tools: Vec<ToolDescription> = Vec::new();
    tools.push(
        ToolDescription {
            description: String::from_str(
                "Executes code in a secure sandbox. Use this if you don't already have a sandbox to run code in, and use it to encapsulate the rest of the tools here with `call_tool`",
            ),
            input_schema: schema,
            name: String::from_str("execute_code"),
        },
    );
    ListToolsResult { tools }
}

/// Whether two JSON values carry the same data, compared by view: equal
/// tags, equal texts, and pairwise-matching children.
pub open spec fn json_views_match(a: JsonValue, b: JsonValue) -> bool
    decreases a,
{
    match (a, b) {
        (JsonValue::Null, JsonValue::Null) => true,
        (JsonValue::Bool(x), JsonValue::Bool(y)) => x == y,
        (JsonValue::Number(x), JsonValue::Number(y)) => x@ == y@,
        (JsonValue::Text(x), JsonValue::Text(y)) => x@ == y@,
        (JsonValue::List(x), JsonValue::List(y)) => x@.len() == y@.len() && (forall|i: int|
            0 <= i < x@.len() ==> json_views_match(#[trigger] x@[i], y@[i])),
        (JsonValue::Object(x), JsonValue::Object(y)) => x@.len() == y@.len() && (forall|i: int|
            0 <= i < x@.len() ==> (#[trigger] x@[i]).0@ == y@[i].0@
                && json_views_match(x@[i].1, y@[i].1)),
        _ => false,
    }
}

/// Whether two schemas carry the same data, compared by view.
pub open spec fn schema_views_match(
    x: Seq<(String, JsonValue)>,
    y: Seq<(String, JsonValue)>,
) -> bool {
    x.len() == y.len() && (forall|i: int|
        0 <= i < x.len() ==> (#[trigger] x[i]).0@ == y[i].0@ && json_views_match(x[i].1, y[i].1))
}

/// Law: the catalog is one fixed value.  Any two catalogs — as `describe`
/// returns them, before or after any number of calls — are identical: the
/// same single tool name, the same description, and the same schema.
pub proof fn lemma_catalog_fixed(a: ListToolsResult, b: ListToolsResult)
    requires
        is_catalog(a),
        is_catalog(b),
    ensures
        a.tools@.len() == b.tools@.len(),
        a.tools@[0].name@ == b.tools@[0].name@,
        a.tools@[0].description@ == b.tools@[0].description@,
        schema_views_match(a.tools@[0].input_schema@, b.tools@[0].input_schema@),
{
    let xa = a.tools@[0].input_schema@;
    let xb = b.tools@[0].input_schema@;
    assert(json_views_match(xa[0].1, xb[0].1));
    assert(json_views_match(xa[1].1, xb[1].1)) by {
        let la = xa[1].1->List_0;
        let lb = xb[1].1->List_0;
        assert(json_views_match(la@[0], lb@[0]));
        assert(forall|i: int| 0 <= i < la@.len() ==> json_views_match(#[trigger] la@[i], lb@[i]));
    }
    assert(json_views_match(xa[2].1, xb[2].1)) by {
        let pa = xa[2].1->Object_0;
        let pb = xb[2].1->Object_0;
        let ca = pa@[0].1->Object_0;
        let cb = pb@[0].1->Object_0;
        assert(json_views_match(ca@[0].1, cb@[0].1));
        assert(forall|i: int|
            0 <= i < ca@.len() ==> (#[trigger] ca@[i]).0@ == cb@[i].0@
                && json_views_match(ca@[i].1, cb@[i].1));
        assert(json_views_match(pa@[0].1, pb@[0].1));
        assert(forall|i: int|
            0 <= i < pa@.len() ==> (#[trigger] pa@[i]).0@ == pb@[i].0@
                && json_views_match(pa@[i].1, pb@[i].1));
    }
    assert(forall|i: int|
        0 <= i < xa.len() ==> (#[trigger] xa[i]).0@ == xb[i].0@
            && json_views_match(xa[i].1, xb[i].1));
}

} // verus!
