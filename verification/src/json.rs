use crate::text::str_eq;
use vstd::prelude::*;

verus! {

/// A decoded JSON document, modelled with plain values.  Numbers carry no
/// payload: nothing in this library reads a numeric field.
pub enum Json {
    Null,
    Bool(bool),
    Number,
    Text(String),
    Array(Vec<Json>),
    Object(Vec<(String, Json)>),
}

/// First value stored under `key` in an object's entry list.
pub open spec fn lookup_entries(entries: Seq<(String, Json)>, key: Seq<char>) -> Option<Json>
    decreases entries.len(),
{
    if entries.len() == 0 {
        None
    } else if entries[0].0@ == key {
        Some(entries[0].1)
    } else {
        lookup_entries(entries.drop_first(), key)
    }
}

impl Json {
    /// Value stored under `key` when this document is an object holding
    /// one; anything else has no members.
    pub open spec fn spec_get(self, key: Seq<char>) -> Option<Json> {
        match self {
            Json::Object(entries) => lookup_entries(entries@, key),
            _ => None,
        }
    }

    /// Member access on an object, as the view-level `spec_get` says.
    pub fn get<'a>(&'a self, key: &str) -> (r: Option<&'a Json>)
        ensures
            match r {
                Some(j) => self.spec_get(key@) == Some(*j),
                None => self.spec_get(key@) is None,
            },
    {
        match self {
            Json::Object(entries) => {
                proof {
                    assert(entries@.skip(0) =~= entries@);
                }
                let mut idx: usize = 0;
                while idx < entries.len()
                    invariant
                        *self == Json::Object(*entries),
                        idx <= entries@.len(),
                        lookup_entries(entries@, key@) == lookup_entries(
                            entries@.skip(idx as int),
                            key@,
                        ),
                    decreases entries@.len() - idx,
                {
                    proof {
                        assert(entries@.skip(idx as int)[0] == entries@[idx as int]);
                        assert(entries@.skip(idx as int).drop_first() =~= entries@.skip(
                            idx as int + 1,
                        ));
                    }
                    if str_eq(entries[idx].0.as_str(), key) {
                        proof {
                            assert(lookup_entries(entries@.skip(idx as int), key@) == Some(
                                entries@[idx as int].1,
                            ));
                        }
                        return Some(&entries[idx].1);
                    }
                    idx = idx + 1;
                }
                proof {
                    assert(entries@.skip(entries@.len() as int).len() == 0);
                }
                None
            },
            _ => None,
        }
    }
}

#[verifier::external_type_specification]
#[verifier::external_body]
pub struct ExJsonValue(serde_json::Value);

/// Rebuilds a `serde_json::Value` in the library's model, variant by
/// variant.  Only `parse_json`, which carries the contract, calls this.
#[verifier::external_body]
fn from_value(v: serde_json::Value) -> Json {
    match v {
        serde_json::Value::Null => Json::Null,
        serde_json::Value::Bool(b) => Json::Bool(b),
        serde_json::Value::Number(_) => Json::Number,
        serde_json::Value::String(s) => Json::Text(s),
        serde_json::Value::Array(a) => Json::Array(a.into_iter().map(from_value).collect()),
        serde_json::Value::Object(o) => Json::Object(
            o.into_iter().map(|e: (String, serde_json::Value)| (e.0, from_value(e.1))).collect(),
        ),
    }
}

/// The document that the given text decodes to, when it is valid JSON:
/// a name for the JSON decoder's result.
pub uninterp spec fn json_of(s: Seq<char>) -> Option<Json>;

/// Relies on serde_json::from_str: decoding yields a document or fails,
/// and the outcome depends on the input text alone.
#[verifier::external_body]
pub(crate) fn parse_json(s: &str) -> (r: Option<Json>)
    ensures
        r == json_of(s@),
{
    match serde_json::from_str::<serde_json::Value>(s) {
        Ok(v) => Some(from_value(v)),
        Err(_) => None,
    }
}

} // verus!
