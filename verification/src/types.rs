//! Data model of the tool-invocation protocol.
//!
//! The request/response envelope the host protocol speaks: a named tool call
//! with a mapping of JSON arguments in, a list of content items out.  JSON
//! values are modelled as plain data so that the dispatch logic over them can
//! be specified and verified; numbers are carried in their decimal text form,
//! since the core never computes with them.

use vstd::prelude::*;

verus! {

/// A JSON value as this library holds it: plain data, insertion-ordered
/// objects, numbers kept as their decimal text.
#[derive(Debug)]
pub enum JsonValue {
    Null,
    Bool(bool),
    /// The decimal text of a JSON number.
    Number(String),
    Text(String),
    List(Vec<JsonValue>),
    /// Key/value pairs in order; the protocol's argument maps have unique keys.
    Object(Vec<(String, JsonValue)>),
}

/// The request envelope of a tool call.
#[derive(Debug)]
pub struct CallToolRequest {
    pub method: Option<String>,
    pub params: Params,
}

/// The parameters of a tool call: the tool's name and its JSON arguments.
#[derive(Debug)]
pub struct Params {
    pub arguments: Option<Vec<(String, JsonValue)>>,
    pub name: String,
}

/// The result envelope of a tool call.
#[derive(Debug, Clone)]
pub struct CallToolResult {
    pub content: Vec<Content>,
    /// Whether the tool call ended in an error; absent means success.
    pub is_error: Option<bool>,
}

/// One content item of a tool result.
#[derive(Debug, Clone)]
pub struct Content {
    pub annotations: Option<TextAnnotation>,
    /// The base64-encoded image data, for image content.
    pub data: Option<String>,
    /// The MIME type of the image, for image content.
    pub mime_type: Option<String>,
    /// The text, for text content.
    pub text: Option<String>,
    pub content_type: ContentType,
}

/// The tag of a content item.
#[derive(Debug, Clone, PartialEq, Eq, Structural)]
pub enum ContentType {
    Text,
    Image,
    Resource,
}

/// The intended audience of an annotated content item.
#[derive(Debug, Clone, PartialEq, Eq, Structural)]
pub enum Role {
    Assistant,
    User,
}

/// Annotations a content item may carry.
#[derive(Debug, Clone)]
pub struct TextAnnotation {
    pub audience: Vec<Role>,
    /// The importance of the item, from least (0) to most (1); the protocol
    /// states it as a binary32 value, carried here by its bit pattern, which
    /// this core never reads.
    pub priority_bits: u32,
}

/// A textual resource.
#[derive(Debug, Clone)]
pub struct TextResourceContents {
    pub mime_type: Option<String>,
    pub text: String,
    pub uri: String,
}

/// A binary resource, base64-encoded.
#[derive(Debug, Clone)]
pub struct BlobResourceContents {
    pub blob: String,
    pub mime_type: Option<String>,
    pub uri: String,
}

/// The catalog of tools this servlet exposes.
#[derive(Debug)]
pub struct ListToolsResult {
    pub tools: Vec<ToolDescription>,
}

/// The description of one tool: name, human description, JSON input schema.
#[derive(Debug)]
pub struct ToolDescription {
    pub description: String,
    pub input_schema: Vec<(String, JsonValue)>,
    pub name: String,
}

/// The first value bound to `key` in an ordered key/value sequence, if any.
pub open spec fn spec_lookup(entries: Seq<(String, JsonValue)>, key: Seq<char>) -> Option<JsonValue>
    decreases entries.len(),
{
    if entries.len() == 0 {
        None
    } else if entries[0].0@ == key {
        Some(entries[0].1)
    } else {
        spec_lookup(entries.skip(1), key)
    }
}

/// The string bound to the `code` argument, if the arguments are present and
/// bind `code` to a JSON string.
pub open spec fn spec_code_argument(p: Params) -> Option<Seq<char>> {
    match p.arguments {
        None => None,
        Some(entries) => match spec_lookup(entries@, "code"@) {
            Some(JsonValue::Text(s)) => Some(s@),
            _ => None,
        },
    }
}

proof fn lemma_lookup_skip(entries: Seq<(String, JsonValue)>, key: Seq<char>, i: int)
    requires
        0 <= i <= entries.len(),
        forall|j: int| 0 <= j < i ==> entries[j].0@ != key,
    ensures
        spec_lookup(entries, key) == spec_lookup(entries.skip(i), key),
    decreases i,
{
    if i > 0 {
        assert(entries.skip(1).skip(i - 1) =~= entries.skip(i));
        lemma_lookup_skip(entries.skip(1), key, i - 1);
    } else {
        assert(entries.skip(0) =~= entries);
    }
}

/// Extracts the `code` argument of a request: `Some` exactly when the
/// arguments are present and bind `code` to a JSON string.
pub fn get_code_argument(p: &Params) -> (r: Option<String>)
    ensures
        match r {
            Some(s) => spec_code_argument(*p) == Some(s@),
            None => spec_code_argument(*p) is None,
        },
{
    match &p.arguments {
        None => None,
        Some(entries) => {
            let key = String::from_str("code");
            let n = entries.len();
            let mut i: usize = 0;
            while i < n
                invariant
                    p.arguments matches Some(e) && e == *entries,
                    n == entries.len(),
                    0 <= i <= n,
                    key@ == "code"@,
                    forall|j: int| 0 <= j < i ==> entries@[j].0@ != "code"@,
                decreases n - i,
            {
                if entries[i].0 == key {
                    proof {
                        lemma_lookup_skip(entries@, "code"@, i as int);
                        assert(entries@.skip(i as int)[0] == entries@[i as int]);
                    }
                    match &entries[i].1 {
                        JsonValue::Text(s) => {
                            return Some(s.clone());
                        },
                        _ => {
                            return None;
                        },
                    }
                }
                i += 1;
            }
            proof {
                lemma_lookup_skip(entries@, "code"@, n as int);
            }
            None
        },
    }
}

} // verus!
