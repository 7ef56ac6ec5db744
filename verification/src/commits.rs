use crate::error::SteveError;
use crate::github::step;
use crate::json::{json_of, parse_json, Json};
use vstd::prelude::*;

verus! {

/// The message of one commit-list element: the string stored under
/// `commit`/`message`, or the complaint the element is rejected with.
pub open spec fn spec_commit_message(elem: Json) -> Result<Seq<char>, Seq<char>> {
    match step(elem.spec_get("commit"@), "message"@) {
        Some(m) => match m {
            Json::Text(s) => Ok(s@),
            _ => Err("message field has wrong type"@),
        },
        None => Err("missing message field"@),
    }
}

/// The messages of a sequence of commit-list elements, in order, or the
/// complaint of the first rejected element.
pub open spec fn spec_messages(elems: Seq<Json>) -> Result<Seq<Seq<char>>, Seq<char>>
    decreases elems.len(),
{
    if elems.len() == 0 {
        Ok(Seq::empty())
    } else {
        match spec_commit_message(elems[0]) {
            Err(e) => Err(e),
            Ok(m) => match spec_messages(elems.drop_first()) {
                Err(e) => Err(e),
                Ok(rest) => Ok(seq![m] + rest),
            },
        }
    }
}

/// The commit messages carried by a commit-list document: it must be an
/// array, and every element must hold a string message.
pub open spec fn spec_commit_data(j: Json) -> Result<Seq<Seq<char>>, Seq<char>> {
    match j {
        Json::Array(elems) => spec_messages(elems@),
        _ => Err("expected array as top level object"@),
    }
}

/// Extracts the commit messages from a decoded commit-list document, all
/// or nothing: one ill-shaped element rejects the whole list.
pub fn parse_commit_data(json: &Json) -> (r: Result<Vec<String>, SteveError>)
    ensures
        match r {
            Ok(msgs) => spec_commit_data(*json) matches Ok(ms) && ms == msgs.deep_view(),
            Err(e) => spec_commit_data(*json) matches Err(m) && e@ == m,
        },
{
    match json {
        Json::Array(elems) => {
            let mut out: Vec<String> = Vec::new();
            let mut idx: usize = 0;
            proof {
                assert(elems@.skip(0) =~= elems@);
                assert(out.deep_view() + Seq::<Seq<char>>::empty() =~= out.deep_view());
            }
            while idx < elems.len()
                invariant
                    *json == Json::Array(*elems),
                    idx <= elems@.len(),
                    idx == out@.len(),
                    spec_messages(elems@) == match spec_messages(elems@.skip(idx as int)) {
                        Ok(rest) => Ok::<Seq<Seq<char>>, Seq<char>>(out.deep_view() + rest),
                        Err(e) => Err::<Seq<Seq<char>>, Seq<char>>(e),
                    },
                decreases elems@.len() - idx,
            {
                proof {
                    assert(elems@.skip(idx as int)[0] == elems@[idx as int]);
                    assert(elems@.skip(idx as int).drop_first() =~= elems@.skip(idx as int + 1));
                }
                let elem = &elems[idx];
                let msg = match elem.get("commit") {
                    Some(c) => match c.get("message") {
                        Some(m) => match m {
                            Json::Text(s) => s,
                            _ => {
                                return Err(SteveError::message("message field has wrong type"));
                            },
                        },
                        None => {
                            return Err(SteveError::message("missing message field"));
                        },
                    },
                    None => {
                        return Err(SteveError::message("missing message field"));
                    },
                };
                let ghost prev = out.deep_view();
                out.push(msg.clone());
                proof {
                    assert(out.deep_view() =~= prev + seq![msg@]);
                    let sm = spec_messages(elems@.skip(idx as int + 1));
                    match sm {
                        Ok(rest) => {
                            assert(prev + (seq![msg@] + rest) =~= out.deep_view() + rest);
                        },
                        Err(_) => {},
                    }
                }
                idx = idx + 1;
            }
            proof {
                assert(elems@.skip(elems@.len() as int).len() == 0);
                assert(out.deep_view() + Seq::<Seq<char>>::empty() =~= out.deep_view());
            }
            Ok(out)
        },
        _ => Err(SteveError::message("expected array as top level object")),
    }
}

/// What decoding a fetched commit-list body yields: the body must be
/// JSON, then shaped as `spec_commit_data` demands.
pub open spec fn spec_fetched_messages(b: Seq<char>) -> Result<Seq<Seq<char>>, Seq<char>> {
    match json_of(b) {
        None => Err("malformed JSON payload"@),
        Some(j) => spec_commit_data(j),
    }
}

/// Decodes the fetched commit-list body and extracts its messages.
pub fn decode_commit_list(body: &str) -> (r: Result<Vec<String>, SteveError>)
    ensures
        match r {
            Ok(msgs) => spec_fetched_messages(body@) matches Ok(ms) && ms == msgs.deep_view(),
            Err(e) => spec_fetched_messages(body@) matches Err(m) && e@ == m,
        },
{
    match parse_json(body) {
        None => Err(SteveError::message("malformed JSON payload")),
        Some(j) => parse_commit_data(&j),
    }
}

} // verus!
