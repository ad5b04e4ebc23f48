//! The shape of the upstream JSON response, reduced to what the caption
//! extraction reads: strings, arrays and objects. Parsing itself is done by
//! serde_json behind a trusted wrapper; walking the parsed tree down to
//! `candidates[0].content.parts[0].text` is verified here.

use vstd::prelude::*;
use vstd::string::StringExecFns;

verus! {

/// One node of a parsed JSON document. Leaves that the caption extraction
/// never reads (numbers, booleans, null) are kept only as `Other`.
pub enum JsonNode {
    Text(String),
    List(Vec<JsonNode>),
    Object(Vec<(String, JsonNode)>),
    Other,
}

/// The first value under `key` in an object's field list.
pub open spec fn spec_lookup(fields: Seq<(String, JsonNode)>, key: Seq<char>) -> Option<JsonNode>
    decreases fields.len(),
{
    if fields.len() == 0 {
        None
    } else if fields[0].0@ == key {
        Some(fields[0].1)
    } else {
        spec_lookup(fields.drop_first(), key)
    }
}

impl JsonNode {
    /// The value under `key`, defined when the node is an object holding it.
    pub open spec fn spec_member(self, key: Seq<char>) -> Option<JsonNode> {
        match self {
            JsonNode::Object(fields) => spec_lookup(fields@, key),
            _ => None,
        }
    }

    /// The `i`-th element, defined when the node is an array long enough.
    pub open spec fn spec_element(self, i: int) -> Option<JsonNode> {
        match self {
            JsonNode::List(items) => if 0 <= i < items@.len() {
                Some(items@[i])
            } else {
                None
            },
            _ => None,
        }
    }

    /// The node's characters, defined when the node is a string.
    pub open spec fn spec_text(self) -> Option<Seq<char>> {
        match self {
            JsonNode::Text(s) => Some(s@),
            _ => None,
        }
    }

    /// Looks up `key` when this node is an object that holds it.
    pub fn member(&self, key: &String) -> (r: Option<&JsonNode>)
        ensures
            r matches Some(n) ==> self.spec_member(key@) == Some(*n),
            r is None ==> self.spec_member(key@) is None,
    {
        match self {
            JsonNode::Object(fields) => {
                let n = fields.len();
                assert(fields@.skip(0) =~= fields@);
                for i in 0..n
                    invariant
                        n == fields@.len(),
                        spec_lookup(fields@, key@) == spec_lookup(fields@.skip(i as int), key@),
                        self.spec_member(key@) == spec_lookup(fields@, key@),
                {
                    proof {
                        assert(fields@.skip(i as int)[0] == fields@[i as int]);
                        assert(fields@.skip(i as int).drop_first() =~= fields@.skip(
                            i as int + 1,
                        ));
                    }
                    if fields[i].0 == *key {
                        return Some(&fields[i].1);
                    }
                }
                assert(fields@.skip(n as int) =~= Seq::<(String, JsonNode)>::empty());
                None
            },
            _ => None,
        }
    }

    /// Indexes into this node when it is an array of at least `i + 1` elements.
    pub fn element(&self, i: usize) -> (r: Option<&JsonNode>)
        ensures
            r matches Some(n) ==> self.spec_element(i as int) == Some(*n),
            r is None ==> self.spec_element(i as int) is None,
    {
        match self {
            JsonNode::List(items) => if i < items.len() {
                Some(&items[i])
            } else {
                None
            },
            _ => None,
        }
    }
}

/// The caption the upstream response carries: the string at
/// `candidates[0].content.parts[0].text`, when every step of that path exists.
pub open spec fn spec_caption_path(root: JsonNode) -> Option<Seq<char>> {
    match root.spec_member("candidates"@) {
        Some(cands) => match cands.spec_element(0) {
            Some(first) => match first.spec_member("content"@) {
                Some(content) => match content.spec_member("parts"@) {
                    Some(parts) => match parts.spec_element(0) {
                        Some(part) => match part.spec_member("text"@) {
                            Some(t) => t.spec_text(),
                            None => None,
                        },
                        None => None,
                    },
                    None => None,
                },
                None => None,
            },
            None => None,
        },
        None => None,
    }
}

/// Walks the parsed response down the fixed caption path.
pub fn extract_caption(root: &JsonNode) -> (r: Option<String>)
    ensures
        r matches Some(c) ==> spec_caption_path(*root) == Some(c@),
        r is None ==> spec_caption_path(*root) is None,
{
    let key_candidates = String::from_str("candidates");
    let key_content = String::from_str("content");
    let key_parts = String::from_str("parts");
    let key_text = String::from_str("text");
    let cands = match root.member(&key_candidates) {
        Some(n) => n,
        None => return None,
    };
    let first = match cands.element(0) {
        Some(n) => n,
        None => return None,
    };
    let content = match first.member(&key_content) {
        Some(n) => n,
        None => return None,
    };
    let parts = match content.member(&key_parts) {
        Some(n) => n,
        None => return None,
    };
    let part = match parts.element(0) {
        Some(n) => n,
        None => return None,
    };
    let t = match part.member(&key_text) {
        Some(n) => n,
        None => return None,
    };
    match t {
        JsonNode::Text(s) => Some(s.clone()),
        _ => None,
    }
}

/// Declares serde_json::Value so that the parse wrapper below may handle it;
/// the value is opaque here and is read only through `node_of_value`.
#[verifier::external_type_specification]
#[verifier::external_body]
pub struct ExValue(serde_json::Value);

/// The tree that `parse_json` below hands back for a given text, when the
/// text is well-formed JSON. Parsing is deterministic: the same text always
/// gives the same tree.
pub uninterp spec fn spec_parse_json(s: Seq<char>) -> Option<JsonNode>;

/// Relies on serde_json::from_str::<Value>: whether the text parses as
/// JSON, and the tree it parses to, depend on the text alone.
#[verifier::external_body]
pub fn parse_json(s: &str) -> (r: Option<JsonNode>)
    ensures
        r == spec_parse_json(s@),
{
    match serde_json::from_str::<serde_json::Value>(s) {
        Ok(v) => Some(node_of_value(v)),
        Err(_) => None,
    }
}

/// Relies on serde_json::Value's variants: rebuilds the parsed document with
/// strings, arrays and objects kept (object fields in the map's own order)
/// and every other leaf reduced to `Other`. Conversion only; part of the
/// `parse_json` wrapper above.
#[verifier::external_body]
fn node_of_value(v: serde_json::Value) -> JsonNode {
    match v {
        serde_json::Value::String(s) => JsonNode::Text(s),
        serde_json::Value::Array(items) => JsonNode::List(
            items.into_iter().map(node_of_value).collect(),
        ),
        serde_json::Value::Object(fields) => JsonNode::Object(
            fields.into_iter().map(|(k, v)| (k, node_of_value(v))).collect(),
        ),
        _ => JsonNode::Other,
    }
}

} // verus!
