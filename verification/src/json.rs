//! A JSON document tree and the parse that fills it. Parsing is done by
//! serde_json; everything after the parse — object lookup and the
//! decoding of the status document in the Java module — is verified
//! over this tree, for every tree the parse could hand back.

use vstd::prelude::*;

verus! {

use vstd::utf8::*;

/// A parsed JSON value. Numbers that fit a signed 64-bit integer are
/// kept exactly; any other number (a float or a larger integer) is
/// `BigNum`, which no field of the status document accepts.
#[derive(Debug, PartialEq)]
pub enum JsonValue {
    Null,
    Bool(bool),
    Int(i64),
    BigNum,
    Text(String),
    Arr(Vec<JsonValue>),
    Obj(Vec<(String, JsonValue)>),
}

/// The result of parsing a text as JSON, as a name: `None` where the
/// text is not JSON, otherwise the tree. What the tree holds on a given
/// text is settled only by running the parser; the decoders below are
/// verified for every tree.
pub uninterp spec fn spec_json_parse(s: Seq<char>) -> Option<JsonValue>;

#[verifier::external_type_specification]
#[verifier::external_body]
pub struct ExValue(serde_json::Value);

/// Converts serde_json's tree into the library's, one node for one
/// node; `parse_json` relies on it to hand its result over.
#[verifier::external_body]
fn json_of_value(v: &serde_json::Value) -> (r: JsonValue) {
    match v {
        serde_json::Value::Null => JsonValue::Null,
        serde_json::Value::Bool(b) => JsonValue::Bool(*b),
        serde_json::Value::Number(n) => n.as_i64().map_or(JsonValue::BigNum, JsonValue::Int),
        serde_json::Value::String(s) => JsonValue::Text(s.clone()),
        serde_json::Value::Array(a) => JsonValue::Arr(a.iter().map(json_of_value).collect()),
        serde_json::Value::Object(m) => JsonValue::Obj(
            m.iter().map(|(k, x)| (k.clone(), json_of_value(x))).collect(),
        ),
    }
}

/// Relies on `serde_json::from_str::<Value>`: a strict JSON parse whose
/// result is a function of the text alone (serde_json keeps object keys
/// sorted, so the conversion above is deterministic too). The error
/// case carries serde_json's own message.
#[verifier::external_body]
pub(crate) fn parse_json(s: &str) -> (r: Result<JsonValue, String>)
    ensures
        r is Ok <==> spec_json_parse(s@) is Some,
        r is Ok ==> r.unwrap() == spec_json_parse(s@).unwrap(),
{
    match serde_json::from_str::<serde_json::Value>(s) {
        Ok(v) => Ok(json_of_value(&v)),
        Err(e) => Err(e.to_string()),
    }
}

/// Whether two texts hold the same characters, decided through their
/// UTF-8 bytes: the encoding is injective, so byte equality is
/// character equality.
pub fn str_eq(a: &str, b: &str) -> (r: bool)
    ensures
        r == (a@ == b@),
{
    let ab = a.as_bytes();
    let bb = b.as_bytes();
    if ab.len() != bb.len() {
        proof {
            assert(a@ != b@);
        }
        return false;
    }
    let n = ab.len();
    let mut i: usize = 0;
    loop
        invariant
            n == ab@.len() == bb@.len(),
            i <= n,
            ab@ == encode_utf8(a@),
            bb@ == encode_utf8(b@),
            forall|k: int| 0 <= k < i ==> ab@[k] == bb@[k],
        decreases n - i,
    {
        if i == n {
            proof {
                broadcast use encode_utf8_decode_utf8;

                assert(ab@ =~= bb@);
                assert(decode_utf8(encode_utf8(a@)) == decode_utf8(encode_utf8(b@)));
            }
            return true;
        }
        if ab[i] != bb[i] {
            proof {
                assert(encode_utf8(a@)[i as int] != encode_utf8(b@)[i as int]);
            }
            return false;
        }
        i = i + 1;
    }
}

/// The value under `key` in an object's entries: the first entry whose
/// key matches, as serde_json never repeats a key.
pub open spec fn spec_obj_get(entries: Seq<(String, JsonValue)>, key: Seq<char>) -> Option<
    JsonValue,
>
    decreases entries.len(),
{
    if entries.len() == 0 {
        None
    } else if entries[0].0@ == key {
        Some(entries[0].1)
    } else {
        spec_obj_get(entries.skip(1), key)
    }
}

/// Looks `key` up among an object's entries.
pub fn obj_get<'a>(entries: &'a Vec<(String, JsonValue)>, key: &str) -> (r: Option<
    &'a JsonValue,
>)
    ensures
        match spec_obj_get(entries@, key@) {
            Some(v) => r is Some && *r.unwrap() == v,
            None => r is None,
        },
{
    let n = entries.len();
    let mut i: usize = 0;
    proof {
        assert(entries@.skip(0) =~= entries@);
    }
    loop
        invariant
            i <= n,
            n == entries@.len(),
            spec_obj_get(entries@.skip(i as int), key@) == spec_obj_get(entries@, key@),
        decreases n - i,
    {
        if i == n {
            proof {
                assert(entries@.skip(i as int) =~= Seq::<(String, JsonValue)>::empty());
            }
            return None;
        }
        let pair = &entries[i];
        proof {
            assert(entries@.skip(i as int)[0] == entries@[i as int]);
        }
        if str_eq(pair.0.as_str(), key) {
            return Some(&pair.1);
        }
        proof {
            assert(entries@.skip(i as int).skip(1) =~= entries@.skip(i + 1));
        }
        i = i + 1;
    }
}

} // verus!
