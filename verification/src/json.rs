use vstd::prelude::*;
use vstd::string::StringExecFns;

verus! {

/// A JSON document as a tree of plain values, mirroring the decoded wire shape
/// one node for one node. Numbers arrive already truncated toward zero to
/// 64-bit integers: that happens once, at the decoding boundary, and nothing
/// downstream reads more of a number than that. An object holds its pairs in
/// the decoder's key order.
#[derive(Debug)]
pub enum Json {
    Null,
    Bool(bool),
    Num(i64),
    Str(String),
    Arr(Vec<Json>),
    Obj(Vec<(String, Json)>),
}

/// The value of the first pair whose key reads `key`, if any.
pub open spec fn obj_lookup(pairs: Seq<(String, Json)>, key: Seq<char>) -> Option<Json>
    decreases pairs.len(),
{
    if pairs.len() == 0 {
        None
    } else if pairs[0].0@ == key {
        Some(pairs[0].1)
    } else {
        obj_lookup(pairs.drop_first(), key)
    }
}

/// Looks a key up in an object's pairs, as `obj_lookup` says.
pub fn obj_get<'a>(pairs: &'a Vec<(String, Json)>, key: &str) -> (r: Option<&'a Json>)
    ensures
        match r {
            Some(j) => obj_lookup(pairs@, key@) == Some(*j),
            None => obj_lookup(pairs@, key@) is None,
        },
{
    let k = String::from_str(key);
    let n = pairs.len();
    let mut i: usize = 0;
    proof {
        assert(pairs@.skip(0) =~= pairs@);
    }
    while i < n
        invariant
            i <= n,
            n == pairs@.len(),
            k@ == key@,
            obj_lookup(pairs@, key@) == obj_lookup(pairs@.skip(i as int), key@),
        decreases n - i,
    {
        proof {
            assert(pairs@.skip(i as int)[0] == pairs@[i as int]);
            assert(pairs@.skip(i as int).drop_first() =~= pairs@.skip(i as int + 1));
        }
        if pairs[i].0 == k {
            return Some(&pairs[i].1);
        }
        i = i + 1;
    }
    proof {
        assert(pairs@.skip(n as int) =~= Seq::<(String, Json)>::empty());
    }
    None
}

/// Relies on serde_json::Value: the decoded document, carried opaquely from
/// the decoder to the mirror below.
#[verifier::external_type_specification]
#[verifier::external_body]
pub struct ExValue(serde_json::Value);

/// The library tree that mirrors a decoded serde_json value, node for node.
/// It is fixed by the value alone.
pub uninterp spec fn value_tree(v: serde_json::Value) -> Json;

/// The tree a byte string decodes to, if it is a JSON document at all. It is
/// fixed by the bytes alone.
pub uninterp spec fn json_of(body: Seq<u8>) -> Option<Json>;

/// Relies on serde_json::from_slice::<Value>: decodes the bytes as one JSON
/// document, returning nothing exactly when they are not one.
#[verifier::external_body]
pub fn decode_json(body: &[u8]) -> (r: Option<serde_json::Value>)
    ensures
        match r {
            Some(v) => json_of(body@) == Some(value_tree(v)),
            None => json_of(body@) is None,
        },
{
    serde_json::from_slice(body).ok()
}

/// Relies on serde_json::Value's variants and Number::as_f64: mirrors the
/// decoded value into the library's tree, variant for variant, truncating each
/// number toward zero to a 64-bit integer.
#[verifier::external_body]
pub fn to_tree(v: &serde_json::Value) -> (r: Json)
    ensures
        r == value_tree(*v),
{
    match v {
        serde_json::Value::Null => Json::Null,
        serde_json::Value::Bool(b) => Json::Bool(*b),
        serde_json::Value::Number(n) => n.as_f64().map_or(Json::Null, |x| Json::Num(x as i64)),
        serde_json::Value::String(s) => Json::Str(s.clone()),
        serde_json::Value::Array(a) => Json::Arr(a.iter().map(to_tree).collect()),
        serde_json::Value::Object(o) => Json::Obj(
            o.iter().map(|(k, x)| (k.clone(), to_tree(x))).collect(),
        ),
    }
}

} // verus!
