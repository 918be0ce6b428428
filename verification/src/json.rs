//! JSON and JWS primitives, delegated to `serde_json`, `serde_json_path`
//! and `ssi_jws`. Documents travel through the engine as JSON text; these
//! wrappers parse, normalize, and query them.

use vstd::prelude::*;
use vstd::string::StrSliceExecFns;

verus! {

/// The longest JSON-path text the engine hands to the outside path
/// parser. The parser's filter grammar recurses on nested parentheses
/// and nested sub-queries with no depth guard of its own, so an
/// unbounded attacker-supplied path could exhaust the stack; the
/// recursion depth is bounded by the path's length, and paths anywhere
/// near this long have no legitimate use here.
pub const PATH_QUERY_LIMIT: usize = 512;

/// The content of the JSON string literal that `s` is, or `None` where
/// `s` is not the JSON text of a single string. Depends on the characters
/// alone.
pub uninterp spec fn json_text(s: Seq<char>) -> Option<Seq<char>>;

/// The canonical reserialization of `s`, or `None` where `s` is not valid
/// JSON text. Depends on the characters alone.
pub uninterp spec fn json_doc(s: Seq<char>) -> Option<Seq<char>>;

/// The decoded payload of the compact JWS `s` as a UTF-8 string, or
/// `None` where `s` is not a well-formed compact JWS or its payload does
/// not decode. Depends on the characters alone.
pub uninterp spec fn jws_payload(s: Seq<char>) -> Option<Seq<char>>;

/// The serialization of the first element of `s`, or `None` where `s` is
/// not the JSON text of a non-empty array. Depends on the characters
/// alone.
pub uninterp spec fn json_first_element(s: Seq<char>) -> Option<Seq<char>>;

/// The serialization of the single node that the JSON-path `path` selects
/// in the document `doc`, or `None` where the path does not parse, the
/// document does not parse, or the path selects zero or more than one
/// node. Depends on the characters alone.
pub uninterp spec fn path_node(doc: Seq<char>, path: Seq<char>) -> Option<Seq<char>>;

/// Relies on `serde_json::from_str::<String>`, which succeeds exactly on
/// JSON texts that are a single string literal and yields its content.
#[verifier::external_body]
pub(crate) fn json_text_of(s: &str) -> (r: Option<String>)
    ensures
        match r {
            Some(t) => json_text(s@) == Some(t@),
            None => json_text(s@) is None,
        },
{
    serde_json::from_str::<String>(s).ok()
}

/// Relies on `serde_json::from_str::<Value>` and `serde_json::to_string`:
/// valid JSON text is reserialized canonically, anything else is rejected.
#[verifier::external_body]
pub(crate) fn json_doc_of(s: &str) -> (r: Option<String>)
    ensures
        match r {
            Some(d) => json_doc(s@) == Some(d@),
            None => json_doc(s@) is None,
        },
{
    serde_json::from_str::<serde_json::Value>(s).ok().and_then(|v| serde_json::to_string(&v).ok())
}

/// Relies on `ssi_jws::JwsBuf::new`, `decode_header` and `decode_payload`:
/// a well-formed compact JWS yields its base64url-decoded payload, read
/// back as UTF-8.
#[verifier::external_body]
pub(crate) fn jws_payload_of(s: &str) -> (r: Option<String>)
    ensures
        match r {
            Some(p) => jws_payload(s@) == Some(p@),
            None => jws_payload(s@) is None,
        },
{
    let jws = ssi_jws::JwsBuf::new(s.to_owned()).ok()?;
    let header = jws.decode_header().ok()?;
    let payload = jws.decode_payload(&header).ok()?;
    String::from_utf8(payload.into_owned()).ok()
}

/// Relies on `serde_json::from_str::<Value>` and `serde_json::to_string`:
/// the JSON text of a non-empty array yields its first element,
/// serialized.
#[verifier::external_body]
pub(crate) fn first_element_of(s: &str) -> (r: Option<String>)
    ensures
        match r {
            Some(e) => json_first_element(s@) == Some(e@),
            None => json_first_element(s@) is None,
        },
{
    match serde_json::from_str::<serde_json::Value>(s) {
        Ok(serde_json::Value::Array(items)) => {
            items.first().and_then(|v| serde_json::to_string(v).ok())
        },
        _ => None,
    }
}

/// Relies on `serde_json_path::JsonPath::parse` and `query`, and on
/// `NodeList::exactly_one`: the node is returned, serialized, exactly when
/// the path and document parse and the query selects a single node. The
/// path parser recurses on nested filter parentheses and sub-queries
/// without a depth guard, so only paths within [`PATH_QUERY_LIMIT`] may
/// be handed to it; every call goes through [`path_node_checked`].
#[verifier::external_body]
pub(crate) fn path_node_of(doc: &str, path: &str) -> (r: Option<String>)
    requires
        path@.len() <= PATH_QUERY_LIMIT,
    ensures
        match r {
            Some(n) => path_node(doc@, path@) == Some(n@),
            None => path_node(doc@, path@) is None,
        },
{
    let value = serde_json::from_str::<serde_json::Value>(doc).ok()?;
    let parsed = serde_json_path::JsonPath::parse(path).ok()?;
    let node = parsed.query(&value).exactly_one().ok()?;
    serde_json::to_string(node).ok()
}

/// The serialization of the single node the path selects in the
/// document, where the path's length is within [`PATH_QUERY_LIMIT`]; a
/// longer path selects nothing.
pub open spec fn spec_path_query(doc: Seq<char>, path: Seq<char>) -> Option<Seq<char>> {
    if path.len() <= PATH_QUERY_LIMIT {
        path_node(doc, path)
    } else {
        None
    }
}

/// Queries `doc` with the JSON-path `path`, keeping over-long paths away
/// from the outside parser: they are rejected as selecting nothing.
pub fn path_node_checked(doc: &str, path: &str) -> (r: Option<String>)
    ensures
        match r {
            Some(n) => spec_path_query(doc@, path@) == Some(n@),
            None => spec_path_query(doc@, path@) is None,
        },
{
    if path.unicode_len() > PATH_QUERY_LIMIT {
        return None;
    }
    path_node_of(doc, path)
}

} // verus!
