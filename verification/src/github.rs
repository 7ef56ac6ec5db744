use crate::error::SteveError;
use crate::json::{json_of, parse_json, Json};
use vstd::prelude::*;

verus! {

/// The fields a pull-request payload must carry, each found at a fixed
/// path in the document.
pub enum HookField {
    CommitsUrl,
    OwnerLogin,
    RepoName,
    Merged,
}

impl HookField {
    /// The path of the field inside the payload, written as one string.
    pub open spec fn spec_path(self) -> Seq<char> {
        match self {
            HookField::CommitsUrl => "/pull_request/commits_url"@,
            HookField::OwnerLogin => "/pull_request/repo/owner/login"@,
            HookField::RepoName => "/pull_request/repo/name"@,
            HookField::Merged => "/pull_request/merged"@,
        }
    }

    /// The path of the field inside the payload.
    pub fn path(&self) -> (r: &'static str)
        ensures
            r@ == self.spec_path(),
    {
        match self {
            HookField::CommitsUrl => "/pull_request/commits_url",
            HookField::OwnerLogin => "/pull_request/repo/owner/login",
            HookField::RepoName => "/pull_request/repo/name",
            HookField::Merged => "/pull_request/merged",
        }
    }
}

/// Why a payload was rejected: it was not JSON, its commits URL was not
/// an absolute URL, or a required field was absent or of the wrong type.
pub enum ParseError {
    Malformed,
    InvalidUrl,
    MissingField(HookField),
    TypeMismatch(HookField),
}

impl ParseError {
    /// The message that the error is reported with.
    pub open spec fn spec_message(self) -> Seq<char> {
        match self {
            ParseError::Malformed => "malformed JSON payload"@,
            ParseError::InvalidUrl => "url parse error"@,
            ParseError::MissingField(f) => "Couldn't find field "@ + f.spec_path(),
            ParseError::TypeMismatch(f) => "Wrong type for field "@ + f.spec_path(),
        }
    }

    /// Turns the rejection into the error value handed to callers.
    pub fn to_error(&self) -> (r: SteveError)
        ensures
            r@ == self.spec_message(),
    {
        match self {
            ParseError::Malformed => SteveError::message("malformed JSON payload"),
            ParseError::InvalidUrl => SteveError::message("url parse error"),
            ParseError::MissingField(f) => SteveError::message(
                String::from_str("Couldn't find field ").concat(f.path()).as_str(),
            ),
            ParseError::TypeMismatch(f) => SteveError::message(
                String::from_str("Wrong type for field ").concat(f.path()).as_str(),
            ),
        }
    }
}

/// Whether the given text parses as an absolute URL: a name for the URL
/// parser's verdict.
pub uninterp spec fn is_absolute_url(s: Seq<char>) -> bool;

/// Relies on url::Url::parse (the parser behind the `hyper` URL type):
/// it accepts exactly the absolute URLs, judged by the input text alone.
#[verifier::external_body]
fn url_parses(s: &str) -> (r: bool)
    ensures
        r == is_absolute_url(s@),
{
    url::Url::parse(s).is_ok()
}

/// The value stored at the field's path in the payload.
pub open spec fn spec_field(j: Json, f: HookField) -> Option<Json> {
    match f {
        HookField::CommitsUrl => step(j.spec_get("pull_request"@), "commits_url"@),
        HookField::OwnerLogin => step(
            step(step(j.spec_get("pull_request"@), "repo"@), "owner"@),
            "login"@,
        ),
        HookField::RepoName => step(step(j.spec_get("pull_request"@), "repo"@), "name"@),
        HookField::Merged => step(j.spec_get("pull_request"@), "merged"@),
    }
}

/// One step of path navigation.
pub open spec fn step(v: Option<Json>, key: Seq<char>) -> Option<Json> {
    match v {
        Some(j) => j.spec_get(key),
        None => None,
    }
}

/// What parsing a decoded payload yields: the views of the four fields,
/// read in the order commits URL, owner login, repository name, merged
/// flag, or the first rejection met along the way.
pub open spec fn spec_parse_hook(j: Json) -> Result<(Seq<char>, Seq<char>, Seq<char>, bool), ParseError> {
    match spec_field(j, HookField::CommitsUrl) {
        None => Err(ParseError::MissingField(HookField::CommitsUrl)),
        Some(u) => match u {
            Json::Text(url) => if !is_absolute_url(url@) {
                Err(ParseError::InvalidUrl)
            } else {
                match spec_field(j, HookField::OwnerLogin) {
                    None => Err(ParseError::MissingField(HookField::OwnerLogin)),
                    Some(o) => match o {
                        Json::Text(owner) => match spec_field(j, HookField::RepoName) {
                            None => Err(ParseError::MissingField(HookField::RepoName)),
                            Some(n) => match n {
                                Json::Text(name) => match spec_field(j, HookField::Merged) {
                                    None => Err(ParseError::MissingField(HookField::Merged)),
                                    Some(m) => match m {
                                        Json::Bool(merged) => Ok(
                                            (url@, owner@, name@, merged),
                                        ),
                                        _ => Err(ParseError::TypeMismatch(HookField::Merged)),
                                    },
                                },
                                _ => Err(ParseError::TypeMismatch(HookField::RepoName)),
                            },
                        },
                        _ => Err(ParseError::TypeMismatch(HookField::OwnerLogin)),
                    },
                }
            },
            _ => Err(ParseError::TypeMismatch(HookField::CommitsUrl)),
        },
    }
}

/// A validated pull-request event: the commits URL, the repository's
/// owner and name, and whether the pull request was merged.
#[derive(Debug)]
pub struct PullRequestHook {
    pub commits_url: String,
    pub owner: String,
    pub repo: String,
    pub was_merged: bool,
}

impl PullRequestHook {
    /// Reads one field of the payload, rejecting an absent one.
    fn fetch_field(j: &Json, f: HookField) -> (r: Result<&Json, ParseError>)
        ensures
            match r {
                Ok(v) => spec_field(*j, f) == Some(*v),
                Err(e) => spec_field(*j, f) is None && e == ParseError::MissingField(f),
            },
    {
        let v = match f {
            HookField::CommitsUrl => two_steps(j, "pull_request", "commits_url"),
            HookField::OwnerLogin => match two_steps(j, "pull_request", "repo") {
                Some(r) => match r.get("owner") {
                    Some(o) => o.get("login"),
                    None => None,
                },
                None => None,
            },
            HookField::RepoName => match two_steps(j, "pull_request", "repo") {
                Some(r) => r.get("name"),
                None => None,
            },
            HookField::Merged => two_steps(j, "pull_request", "merged"),
        };
        match v {
            Some(x) => Ok(x),
            None => Err(ParseError::MissingField(f)),
        }
    }

    /// Decodes and validates an already-parsed payload.
    pub fn from_json(j: &Json) -> (r: Result<PullRequestHook, ParseError>)
        ensures
            match r {
                Ok(h) => spec_parse_hook(*j) matches Ok(t) && t == (
                    h.commits_url@,
                    h.owner@,
                    h.repo@,
                    h.was_merged,
                ),
                Err(e) => spec_parse_hook(*j) matches Err(pe) && pe == e,
            },
    {
        let url = match Self::fetch_field(j, HookField::CommitsUrl) {
            Err(e) => {
                return Err(e);
            },
            Ok(Json::Text(u)) => {
                if !url_parses(u.as_str()) {
                    return Err(ParseError::InvalidUrl);
                }
                u
            },
            Ok(_) => {
                return Err(ParseError::TypeMismatch(HookField::CommitsUrl));
            },
        };
        let owner = match Self::fetch_field(j, HookField::OwnerLogin) {
            Err(e) => {
                return Err(e);
            },
            Ok(Json::Text(o)) => o,
            Ok(_) => {
                return Err(ParseError::TypeMismatch(HookField::OwnerLogin));
            },
        };
        let name = match Self::fetch_field(j, HookField::RepoName) {
            Err(e) => {
                return Err(e);
            },
            Ok(Json::Text(n)) => n,
            Ok(_) => {
                return Err(ParseError::TypeMismatch(HookField::RepoName));
            },
        };
        let merged = match Self::fetch_field(j, HookField::Merged) {
            Err(e) => {
                return Err(e);
            },
            Ok(Json::Bool(b)) => *b,
            Ok(_) => {
                return Err(ParseError::TypeMismatch(HookField::Merged));
            },
        };
        Ok(
            PullRequestHook {
                commits_url: url.clone(),
                owner: owner.clone(),
                repo: name.clone(),
                was_merged: merged,
            },
        )
    }

    /// Decodes a raw webhook body: the payload must be JSON and must
    /// carry the four fields, and the commits URL must be absolute.
    pub fn from_request(body: &str) -> (r: Result<PullRequestHook, SteveError>)
        ensures
            match json_of(body@) {
                None => r matches Err(e) && e@ == ParseError::Malformed.spec_message(),
                Some(j) => match spec_parse_hook(j) {
                    Ok(t) => r matches Ok(h) && (h.commits_url@, h.owner@, h.repo@, h.was_merged)
                        == t,
                    Err(pe) => r matches Err(e) && e@ == pe.spec_message(),
                },
            },
    {
        match parse_json(body) {
            None => Err(ParseError::Malformed.to_error()),
            Some(j) => match Self::from_json(&j) {
                Ok(h) => Ok(h),
                Err(pe) => Err(pe.to_error()),
            },
        }
    }

    /// Calls `func` on the event exactly when the pull request was
    /// merged; an unmerged event is a no-op.
    pub fn run<F: Fn(&PullRequestHook)>(&self, func: F)
        requires
            self.was_merged ==> call_requires(func, (self,)),
        ensures
            self.was_merged ==> call_ensures(func, (self,), ()),
    {
        if self.was_merged {
            func(self)
        }
    }
}

/// Two steps of path navigation on the document.
fn two_steps<'a>(j: &'a Json, k1: &str, k2: &str) -> (r: Option<&'a Json>)
    ensures
        match r {
            Some(v) => step(j.spec_get(k1@), k2@) == Some(*v),
            None => step(j.spec_get(k1@), k2@) is None,
        },
{
    match j.get(k1) {
        Some(x) => x.get(k2),
        None => None,
    }
}

} // verus!
