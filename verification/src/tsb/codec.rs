//! The encodings that TSB requests and replies use: base64 and JSON.
use base64::engine::general_purpose::STANDARD;
use base64::Engine;
use vstd::prelude::*;

verus! {

/// `bytes` in standard base64 with padding.
pub uninterp spec fn base64_text(bytes: Seq<u8>) -> Seq<char>;

/// What `text` decodes to from standard base64, or what the decoder's error reads.
pub uninterp spec fn base64_bytes(text: Seq<char>) -> Result<Seq<u8>, Seq<char>>;

/// Whether the base64 text of `len` bytes fits in memory.
pub open spec fn base64_fits(len: nat) -> bool {
    (len + 2) / 3 * 4 <= isize::MAX
}

/// Calls `encode` of `base64::engine::general_purpose::STANDARD`. The text is
/// named, not spelled out; the same engine decodes it to the bytes again.
#[verifier::external_body]
pub(crate) fn base64_encode(bytes: &[u8]) -> (text: String)
    requires
        base64_fits(bytes@.len()),
    ensures
        text@ == base64_text(bytes@),
        match base64_bytes(text@) {
            Ok(decoded) => decoded == bytes@,
            Err(_) => false,
        },
{
    STANDARD.encode(bytes)
}

/// Calls `decode` of `base64::engine::general_purpose::STANDARD` and gives its
/// error as text. What a text decodes to is named, not spelled out.
#[verifier::external_body]
pub(crate) fn base64_decode(text: &str) -> (bytes: Result<Vec<u8>, String>)
    ensures
        match bytes {
            Ok(bytes) => base64_bytes(text@) == Ok::<Seq<u8>, Seq<char>>(bytes@),
            Err(reason) => base64_bytes(text@) == Err::<Seq<u8>, Seq<char>>(reason@),
        },
{
    STANDARD.decode(text).map_err(|e| e.to_string())
}

/// A JSON value of the `serde_json` crate.
#[verifier::external_type_specification]
#[verifier::external_body]
pub struct ExJsonValue(serde_json::Value);

/// What a JSON value holds: for each JSON Pointer that leads to a value inside
/// it, that value's text where it is a string.
pub uninterp spec fn json_nodes(value: serde_json::Value) -> Map<Seq<char>, Option<Seq<char>>>;

/// What the JSON document `text` holds, or what the parser's error reads.
pub uninterp spec fn json_document(text: Seq<char>) -> Result<
    Map<Seq<char>, Option<Seq<char>>>,
    Seq<char>,
>;

/// Calls `serde_json::from_str` for a JSON value and gives its error as text.
/// What the document holds is named, not spelled out.
#[verifier::external_body]
pub(crate) fn json_parse(text: &str) -> (value: Result<serde_json::Value, String>)
    ensures
        match value {
            Ok(value) => json_document(text@) == Ok::<
                Map<Seq<char>, Option<Seq<char>>>,
                Seq<char>,
            >(json_nodes(value)),
            Err(reason) => json_document(text@) == Err::<
                Map<Seq<char>, Option<Seq<char>>>,
                Seq<char>,
            >(reason@),
        },
{
    serde_json::from_str::<serde_json::Value>(text).map_err(|e| e.to_string())
}

/// Calls `serde_json::Value::pointer`: the value that a JSON Pointer leads to,
/// where there is one.
#[verifier::external_body]
pub(crate) fn json_pointer<'a>(value: &'a serde_json::Value, pointer: &str) -> (node: Option<
    &'a serde_json::Value,
>)
    ensures
        node is Some <==> json_nodes(*value).contains_key(pointer@),
        node matches Some(node) ==> json_nodes(*node)[Seq::empty()] == json_nodes(*value)[pointer@],
{
    value.pointer(pointer)
}

/// Whether `key` consists of ASCII letters alone.
pub open spec fn is_plain_key(key: Seq<char>) -> bool {
    forall|i: int|
        0 <= i < key.len() ==> ('a' <= #[trigger] key[i] && key[i] <= 'z') || ('A' <= key[i]
            && key[i] <= 'Z')
}

/// Calls `serde_json::Value::get` with a key: an object's member, where there
/// is one. A key of letters alone is no array index and needs no escaping, so
/// the member is the value that the pointer `/<key>` leads to.
#[verifier::external_body]
pub(crate) fn json_member<'a>(value: &'a serde_json::Value, key: &str) -> (node: Option<
    &'a serde_json::Value,
>)
    requires
        is_plain_key(key@),
    ensures
        node is Some <==> json_nodes(*value).contains_key("/"@ + key@),
        node matches Some(node) ==> json_nodes(*node)[Seq::empty()] == json_nodes(*value)["/"@
            + key@],
{
    value.get(key)
}

/// Calls `serde_json::Value::as_str`: the value's own text, where it is a string.
#[verifier::external_body]
pub(crate) fn json_text<'a>(value: &'a serde_json::Value) -> (text: Option<&'a str>)
    ensures
        match text {
            Some(text) => json_nodes(*value)[Seq::empty()] == Some(text@),
            None => json_nodes(*value)[Seq::empty()] is None,
        },
{
    value.as_str()
}

/// The text at `pointer` in a JSON document, where there is a string.
pub open spec fn text_at(nodes: Map<Seq<char>, Option<Seq<char>>>, pointer: Seq<char>) -> Option<
    Seq<char>,
> {
    if nodes.contains_key(pointer) {
        nodes[pointer]
    } else {
        None
    }
}

/// The text at a pointer is that of the string it leads to; there is none where
/// it leads nowhere or to another value.
pub proof fn law_text_at(
    nodes: Map<Seq<char>, Option<Seq<char>>>,
    pointer: Seq<char>,
    text: Seq<char>,
)
    ensures
        text_at(nodes, pointer) == Some(text) <==> nodes.contains_key(pointer) && nodes[pointer]
            == Some(text),
        text_at(nodes, pointer) is None <==> !nodes.contains_key(pointer)
            || nodes[pointer] is None,
{
}

/// Bytes whose base64 text, four characters for every three bytes begun, is
/// within the largest allocation can be encoded.
pub proof fn law_base64_fits(len: nat, groups: nat)
    requires
        len <= 3 * groups,
        4 * groups <= isize::MAX,
    ensures
        base64_fits(len),
{
}

} // verus!
