use vstd::prelude::*;

verus! {

#[verifier::external_type_specification]
#[verifier::external_body]
pub struct ExJsonValue(serde_json::Value);

#[verifier::external_type_specification]
#[verifier::external_body]
pub struct ExJsonError(serde_json::Error);

/// What one top-level field of a JSON document holds, as far as the
/// endpoints of this crate read it: a string, an object whose members are
/// all strings, or anything else.
pub enum JsonField {
    Str(Seq<char>),
    StrMap(Map<Seq<char>, Seq<char>>),
    Other,
}

/// Whether `bytes` form one complete JSON document, as serde_json accepts
/// it.
pub uninterp spec fn json_parses(bytes: Seq<u8>) -> bool;

/// The top-level fields of the JSON document in `bytes`: `Some` when the
/// document is an object, keyed by member name. Meaningful only where
/// `json_parses` holds.
pub uninterp spec fn json_doc(bytes: Seq<u8>) -> Option<Map<Seq<char>, JsonField>>;

/// The top-level fields of an already-parsed JSON value: `Some` when it is
/// an object, keyed by member name.
pub uninterp spec fn json_fields(v: serde_json::Value) -> Option<Map<Seq<char>, JsonField>>;

/// The string field named `key`, if the document's fields hold one.
pub open spec fn lookup_str(fields: Option<Map<Seq<char>, JsonField>>, key: Seq<char>) -> Option<
    Seq<char>,
> {
    match fields {
        Some(m) => if m.dom().contains(key) {
            match m[key] {
                JsonField::Str(s) => Some(s),
                _ => None,
            }
        } else {
            None
        },
        None => None,
    }
}

/// The all-string object field named `key`, if the document's fields hold
/// one.
pub open spec fn lookup_str_map(
    fields: Option<Map<Seq<char>, JsonField>>,
    key: Seq<char>,
) -> Option<Map<Seq<char>, Seq<char>>> {
    match fields {
        Some(m) => if m.dom().contains(key) {
            match m[key] {
                JsonField::StrMap(sm) => Some(sm),
                _ => None,
            }
        } else {
            None
        },
        None => None,
    }
}

/// `pairs` lists exactly the entries of `m`, each exactly once, in some
/// order.
pub open spec fn pairs_match_map(pairs: Seq<(String, String)>, m: Map<Seq<char>, Seq<char>>) -> bool {
    &&& forall|i: int|
        0 <= i < pairs.len() ==> m.contains_pair((#[trigger] pairs[i]).0@, pairs[i].1@)
    &&& forall|k: Seq<char>|
        #[trigger] m.dom().contains(k) ==> exists|i: int|
            0 <= i < pairs.len() && (#[trigger] pairs[i]).0@ == k
    &&& forall|i: int, j: int|
        0 <= i < j < pairs.len() ==> (#[trigger] pairs[i]).0@ != (#[trigger] pairs[j]).0@
}

/// Relies on `serde_json::from_slice::<Value>`: it accepts or rejects a
/// document by its bytes alone, and the value it returns represents that
/// document.
#[verifier::external_body]
pub(crate) fn json_from_slice(bytes: &Vec<u8>) -> (r: Result<serde_json::Value, serde_json::Error>)
    ensures
        json_parses(bytes@) == (r is Ok),
        r matches Ok(v) ==> json_fields(v) == json_doc(bytes@),
{
    serde_json::from_slice(bytes)
}

/// Relies on `serde_json::Value::get` and `Value::as_str`: `get` finds the
/// member named `key` of an object (and nothing of a non-object), and
/// `as_str` hands its string content out exactly when it is a JSON string.
#[verifier::external_body]
pub(crate) fn json_str_field(v: &serde_json::Value, key: &str) -> (r: Option<String>)
    ensures
        match r {
            Some(s) => lookup_str(json_fields(*v), key@) == Some(s@),
            None => lookup_str(json_fields(*v), key@) is None,
        },
{
    v.get(key).and_then(|x| x.as_str()).map(|s| s.to_owned())
}

/// Relies on `serde_json::Value::get`, `Value::as_object` and
/// `Value::as_str`: together they hand out the members of the object named
/// `key` exactly when every member is a JSON string; `serde_json::Map` keys
/// are unique.
#[verifier::external_body]
pub(crate) fn json_str_map_field(v: &serde_json::Value, key: &str) -> (r: Option<
    Vec<(String, String)>,
>)
    ensures
        match r {
            Some(pairs) => match lookup_str_map(json_fields(*v), key@) {
                Some(m) => pairs_match_map(pairs@, m),
                None => false,
            },
            None => lookup_str_map(json_fields(*v), key@) is None,
        },
{
    let obj = match v.get(key).and_then(|x| x.as_object()) {
        Some(o) => o,
        None => return None,
    };
    let mut out: Vec<(String, String)> = Vec::with_capacity(obj.len());
    for (k, val) in obj {
        match val.as_str() {
            Some(s) => out.push((k.clone(), s.to_owned())),
            None => return None,
        }
    }
    Some(out)
}

} // verus!
