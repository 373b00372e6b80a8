//! JSON serialization of flat objects, through serde_json.
use vstd::prelude::*;

verus! {

/// The bytes that `serde_json::to_vec` writes for the JSON object with the
/// given string-valued and number-valued members.
pub uninterp spec fn json_object_bytes(
    strings: Seq<(Seq<char>, Seq<char>)>,
    numbers: Seq<(Seq<char>, usize)>,
) -> Seq<u8>;

/// Serializes, with `serde_json::to_vec`, the `serde_json::Map` that holds
/// each of `strings` as a JSON string and each of `numbers` as a JSON number.
///
/// Trusted: the result is a function of the members alone, named
/// `json_object_bytes`. Per serde_json's documentation `to_vec` fails only
/// for a failing `Serialize` impl or a map with non-string keys, neither of
/// which a `Map<String, Value>` has, so the `expect` does not fire. The JSON
/// text itself (member order, escaping) is not stated.
#[verifier::external_body]
pub(crate) fn json_object(strings: Vec<(String, String)>, numbers: Vec<(String, usize)>) -> (bytes: Vec<u8>)
    ensures
        bytes@ == json_object_bytes(strings.deep_view(), numbers.deep_view()),
{
    let mut object = serde_json::Map::new();
    for (key, value) in strings {
        object.insert(key, serde_json::Value::String(value));
    }
    for (key, value) in numbers {
        object.insert(key, serde_json::Value::from(value));
    }
    serde_json::to_vec(&object).expect("a JSON object with string keys serializes")
}

} // verus!
