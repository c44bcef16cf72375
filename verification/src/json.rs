//! A typed model of the JSON trees that the external virtualization
//! tool prints on `info` and `list`.
//!
//! The tree itself is an ordinary verified datatype; only the step from
//! raw text to a tree is delegated to an outside parser behind a trusted
//! wrapper at the bottom of this file.

use vstd::prelude::*;

verus! {

/// A parsed JSON value.
///
/// Numbers keep only what the extraction logic reads of them: the value
/// as an unsigned 64-bit integer when the number is one, and nothing
/// otherwise.  Object entries keep the order in which the parser hands
/// them out.
#[derive(Debug, PartialEq)]
pub enum Json {
    Null,
    Bool(bool),
    /// A JSON number; `Some` exactly when it is an integer representable as `u64`.
    NumU64(Option<u64>),
    Str(String),
    Arr(Vec<Json>),
    Obj(Vec<(String, Json)>),
}

/// The first entry with the given key, if any.
pub open spec fn spec_lookup(entries: Seq<(String, Json)>, key: Seq<char>) -> Option<Json>
    decreases entries.len(),
{
    if entries.len() == 0 {
        None
    } else if entries[0].0@ == key {
        Some(entries[0].1)
    } else {
        spec_lookup(entries.drop_first(), key)
    }
}

/// Field lookup: `Some` exactly when `j` is an object with an entry for `key`.
pub open spec fn spec_get(j: Json, key: Seq<char>) -> Option<Json> {
    match j {
        Json::Obj(entries) => spec_lookup(entries@, key),
        _ => None,
    }
}

/// The string content of field `key`, when present and a string.
pub open spec fn spec_get_str(j: Json, key: Seq<char>) -> Option<Seq<char>> {
    match spec_get(j, key) {
        Some(Json::Str(s)) => Some(s@),
        _ => None,
    }
}

/// The numeric content of field `key`, when present and a `u64` number.
pub open spec fn spec_get_u64(j: Json, key: Seq<char>) -> Option<u64> {
    match spec_get(j, key) {
        Some(Json::NumU64(n)) => n,
        _ => None,
    }
}

/// Whether two strings hold the same characters.
pub fn str_eqs(a: &str, b: &str) -> (r: bool)
    ensures
        r == (a@ == b@),
{
    let sa = a.to_owned();
    let sb = b.to_owned();
    sa.eq(&sb)
}

proof fn lemma_lookup_step(entries: Seq<(String, Json)>, key: Seq<char>, i: int)
    requires
        0 <= i < entries.len(),
        entries[i].0@ != key,
    ensures
        spec_lookup(entries.skip(i), key) == spec_lookup(entries.skip(i + 1), key),
{
    assert(entries.skip(i).len() > 0);
    assert(entries.skip(i)[0] == entries[i]);
    assert(entries.skip(i).drop_first() =~= entries.skip(i + 1));
}

/// Looks a key up in an object's entry list, returning the first match.
#[verifier::loop_isolation(false)]
pub fn json_get<'a>(j: &'a Json, key: &str) -> (r: Option<&'a Json>)
    ensures
        match r {
            Some(v) => spec_get(*j, key@) == Some(*v),
            None => spec_get(*j, key@) is None,
        },
{
    match j {
        Json::Obj(entries) => {
            let n = entries.len();
            let mut i: usize = 0;
            assert(entries@.skip(0) =~= entries@);
            while i < n
                invariant
                    n == entries@.len(),
                    i <= n,
                    spec_lookup(entries@, key@) == spec_lookup(entries@.skip(i as int), key@),
                decreases n - i,
            {
                if str_eqs(entries[i].0.as_str(), key) {
                    proof {
                        assert(entries@.skip(i as int)[0] == entries@[i as int]);
                        assert(spec_lookup(entries@.skip(i as int), key@)
                            == Some(entries@[i as int].1));
                    }
                    return Some(&entries[i].1);
                }
                proof {
                    lemma_lookup_step(entries@, key@, i as int);
                }
                i += 1;
            }
            assert(entries@.skip(n as int) =~= Seq::<(String, Json)>::empty());
            None
        },
        _ => None,
    }
}

/// The string content of field `key` of `j`, when present and a string.
pub fn json_get_str<'a>(j: &'a Json, key: &str) -> (r: Option<&'a String>)
    ensures
        match r {
            Some(s) => spec_get_str(*j, key@) == Some(s@),
            None => spec_get_str(*j, key@) is None,
        },
{
    match json_get(j, key) {
        Some(Json::Str(s)) => Some(s),
        _ => None,
    }
}

/// The numeric content of field `key` of `j`, when present and a `u64` number.
pub fn json_get_u64(j: &Json, key: &str) -> (r: Option<u64>)
    ensures
        r == spec_get_u64(*j, key@),
{
    match json_get(j, key) {
        Some(Json::NumU64(n)) => *n,
        _ => None,
    }
}

/// The views of the string elements of an array, in order, with
/// elements of any other kind left out.
pub open spec fn spec_str_elems(items: Seq<Json>) -> Seq<Seq<char>>
    decreases items.len(),
{
    if items.len() == 0 {
        Seq::empty()
    } else {
        spec_str_elems(items.drop_last()) + (match items.last() {
            Json::Str(s) => seq![s@],
            _ => Seq::<Seq<char>>::empty(),
        })
    }
}

/// Collects the string elements of an array, keeping their order and
/// dropping elements of any other kind.
#[verifier::loop_isolation(false)]
pub fn str_elements(items: &Vec<Json>) -> (r: Vec<String>)
    ensures
        crate::text::str_views(r@) == spec_str_elems(items@),
{
    let mut out: Vec<String> = Vec::new();
    let n = items.len();
    let mut i: usize = 0;
    assert(crate::text::str_views(out@) =~= spec_str_elems(items@.take(0)));
    while i < n
        invariant
            i <= n,
            crate::text::str_views(out@) == spec_str_elems(items@.take(i as int)),
        decreases n - i,
    {
        proof {
            assert(items@.take(i as int + 1).drop_last() =~= items@.take(i as int));
            assert(items@.take(i as int + 1).last() == items@[i as int]);
        }
        match &items[i] {
            Json::Str(s) => {
                out.push(s.clone());
                proof {
                    assert(crate::text::str_views(out@) =~= spec_str_elems(
                        items@.take(i as int + 1),
                    ));
                }
            },
            _ => {
                proof {
                    assert(spec_str_elems(items@.take(i as int + 1)) =~= spec_str_elems(
                        items@.take(i as int),
                    ));
                }
            },
        }
        i += 1;
    }
    proof {
        assert(items@.take(n as int) =~= items@);
    }
    out
}

/// Marks `serde_json::Value` usable in the signature of the trusted
/// conversion below; the type stays opaque to the verifier.
#[verifier::external_type_specification]
#[verifier::external_body]
pub struct ExJsonValue(serde_json::Value);

/// The tree that the outside JSON parser produces for this text, or
/// `None` where the text is not valid JSON.  Parsing depends on the
/// text alone, so the result can be given a name without a definition.
pub uninterp spec fn parsed_json(s: Seq<char>) -> Option<Json>;

/// Relies on `serde_json::Value`: copies a parsed tree into the
/// library's own type, one node for one, keeping object entry order as
/// the parser's map hands it out and recording of each number only
/// whether it is a `u64` (`serde_json::Number::as_u64`).
#[verifier::external_body]
fn json_from_value(v: serde_json::Value) -> Json {
    match v {
        serde_json::Value::Null => Json::Null,
        serde_json::Value::Bool(b) => Json::Bool(b),
        serde_json::Value::Number(n) => Json::NumU64(n.as_u64()),
        serde_json::Value::String(s) => Json::Str(s),
        serde_json::Value::Array(items) => Json::Arr(
            items.into_iter().map(json_from_value).collect(),
        ),
        serde_json::Value::Object(map) => Json::Obj(
            map.into_iter().map(|(k, w)| (k, json_from_value(w))).collect(),
        ),
    }
}

/// Relies on `serde_json::from_str`: parses JSON text into a tree, or
/// reports the parser's error rendering.  The same text always parses
/// to the same tree, which is what the name `parsed_json` stands for.
#[verifier::external_body]
pub(crate) fn parse_json(s: &str) -> (r: Result<Json, String>)
    ensures
        match r {
            Ok(j) => parsed_json(s@) == Some(j),
            Err(_) => parsed_json(s@) is None,
        },
{
    match serde_json::from_str::<serde_json::Value>(s) {
        Ok(v) => Ok(json_from_value(v)),
        Err(e) => Err(e.to_string()),
    }
}

} // verus!
