use crate::text::str_eq;
use vstd::prelude::*;

verus! {

/// Per-repository settings: the user assigned for QA and the labels
/// added to every flagged issue.
pub struct RepoData {
    pub qa_user: String,
    pub qa_flags: Vec<String>,
}

/// The configuration snapshot a delivery is processed against: the API
/// root and the tracked repositories, keyed by `owner/name`.
pub struct ConfigData {
    pub api_root: String,
    pub repos: Vec<(String, RepoData)>,
}

/// First settings entry stored under `key`.
pub open spec fn spec_lookup(repos: Seq<(String, RepoData)>, key: Seq<char>) -> Option<RepoData>
    decreases repos.len(),
{
    if repos.len() == 0 {
        None
    } else if repos[0].0@ == key {
        Some(repos[0].1)
    } else {
        spec_lookup(repos.drop_first(), key)
    }
}

/// The key a repository is looked up under: `owner/name`.
pub open spec fn spec_repo_key(owner: Seq<char>, repo: Seq<char>) -> Seq<char> {
    owner + "/"@ + repo
}

impl ConfigData {
    /// Settings for the repository `owner/repo`; `None` means the
    /// repository is not tracked, which is not an error.
    pub fn resolve(&self, owner: &str, repo: &str) -> (r: Option<&RepoData>)
        ensures
            match r {
                Some(c) => spec_lookup(self.repos@, spec_repo_key(owner@, repo@)) == Some(*c),
                None => spec_lookup(self.repos@, spec_repo_key(owner@, repo@)) is None,
            },
    {
        let key: String = String::from_str(owner).concat("/").concat(repo);
        let mut idx: usize = 0;
        proof {
            assert(self.repos@.skip(0) =~= self.repos@);
        }
        while idx < self.repos.len()
            invariant
                idx <= self.repos@.len(),
                key@ == spec_repo_key(owner@, repo@),
                spec_lookup(self.repos@, key@) == spec_lookup(self.repos@.skip(idx as int), key@),
            decreases self.repos@.len() - idx,
        {
            proof {
                assert(self.repos@.skip(idx as int)[0] == self.repos@[idx as int]);
                assert(self.repos@.skip(idx as int).drop_first() =~= self.repos@.skip(
                    idx as int + 1,
                ));
            }
            if str_eq(self.repos[idx].0.as_str(), key.as_str()) {
                return Some(&self.repos[idx].1);
            }
            idx = idx + 1;
        }
        proof {
            assert(self.repos@.skip(self.repos@.len() as int).len() == 0);
        }
        None
    }
}

/// A lookup misses exactly when no entry carries the key: an untracked
/// repository resolves to `None`, never to an error.
pub proof fn lemma_lookup_none(repos: Seq<(String, RepoData)>, key: Seq<char>)
    ensures
        spec_lookup(repos, key) is None <==> (forall|i: int|
            0 <= i < repos.len() ==> repos[i].0@ != key),
    decreases repos.len(),
{
    if repos.len() > 0 {
        lemma_lookup_none(repos.drop_first(), key);
        assert(forall|i: int|
            1 <= i < repos.len() ==> repos.drop_first()[i - 1] == repos[i]);
    }
}

/// Joins the listen address and port the server is started on.
pub fn get_ip_and_port(ip: &str, port: &str) -> (r: String)
    ensures
        r@ == ip@ + ":"@ + port@,
{
    String::from_str(ip).concat(":").concat(port)
}

} // verus!
