use crate::commits::{decode_commit_list, spec_fetched_messages};
use crate::config::{spec_lookup, spec_repo_key, ConfigData, RepoData};
use crate::error::SteveError;
use crate::github::{spec_parse_hook, ParseError, PullRequestHook};
use crate::json::json_of;
use crate::retry::do_retry;
use crate::scanner::{messages_issues, scan_messages};
use crate::text::str_eq;
use vstd::prelude::*;

verus! {

/// One outbound issue mutation: add the configured labels to the issue,
/// or set the configured assignee on it.
pub enum MutationRequest {
    AddLabels { issue: u64, labels: Vec<String> },
    SetAssignee { issue: u64, assignee: String },
}

impl MutationRequest {
    /// The label-add request for `issue` under the settings `config`.
    pub open spec fn is_add_labels_for(self, issue: u64, config: RepoData) -> bool {
        match self {
            MutationRequest::AddLabels { issue: i, labels: l } => i == issue && l.deep_view()
                == config.qa_flags.deep_view(),
            _ => false,
        }
    }

    /// The assignee-update request for `issue` under the settings
    /// `config`.
    pub open spec fn is_set_assignee_for(self, issue: u64, config: RepoData) -> bool {
        match self {
            MutationRequest::SetAssignee { issue: i, assignee: a } => i == issue && a@
                == config.qa_user@,
            _ => false,
        }
    }
}

/// What happened to one issue: the outcomes of its label-add call and of
/// its assignee-update call.
pub struct IssueOutcome {
    pub issue: u64,
    pub labels_result: Result<(), SteveError>,
    pub assignee_result: Result<(), SteveError>,
}

/// Both mutation calls were made for `issue` with the settings in
/// `config`, and `oc` records their outcomes.
pub open spec fn issue_mutated<FM: Fn(&MutationRequest) -> Result<(), SteveError>>(
    mutate: FM,
    issue: u64,
    config: RepoData,
    oc: IssueOutcome,
) -> bool {
    &&& oc.issue == issue
    &&& exists|m: &MutationRequest|
        m.is_add_labels_for(issue, config) && #[trigger] call_ensures(
            mutate,
            (m,),
            oc.labels_result,
        )
    &&& exists|m: &MutationRequest|
        m.is_set_assignee_for(issue, config) && #[trigger] call_ensures(
            mutate,
            (m,),
            oc.assignee_result,
        )
}

/// Copies a label list for one request.
fn clone_labels(labels: &Vec<String>) -> (r: Vec<String>)
    ensures
        r.deep_view() == labels.deep_view(),
{
    let mut out: Vec<String> = Vec::new();
    let mut i: usize = 0;
    while i < labels.len()
        invariant
            i <= labels@.len(),
            out@.len() == i,
            forall|t: int| 0 <= t < i ==> out@[t]@ == labels@[t]@,
        decreases labels@.len() - i,
    {
        out.push(labels[i].clone());
        i = i + 1;
    }
    proof {
        assert(out.deep_view() =~= labels.deep_view());
    }
    out
}

/// Applies both mutation calls to every issue in turn, each call retried
/// under the bound `max_retries`; a failure on one issue never stops the
/// mutation of the remaining issues.
pub fn run_mutations<FM>(
    issues: &Vec<u64>,
    config: &RepoData,
    mutate: &FM,
    max_retries: u64,
) -> (results: Vec<IssueOutcome>)
    where FM: Fn(&MutationRequest) -> Result<(), SteveError>,
    requires
        forall|m: &MutationRequest| call_requires(*mutate, (m,)),
    ensures
        results@.len() == issues@.len(),
        forall|k: int|
            0 <= k < issues@.len() ==> issue_mutated(
                *mutate,
                issues@[k],
                *config,
                #[trigger] results@[k],
            ),
{
    let mut results: Vec<IssueOutcome> = Vec::new();
    let mut idx: usize = 0;
    while idx < issues.len()
        invariant
            forall|m: &MutationRequest| call_requires(*mutate, (m,)),
            idx <= issues@.len(),
            results@.len() == idx,
            forall|k: int|
                0 <= k < idx ==> issue_mutated(*mutate, issues@[k], *config, #[trigger] results@[k]),
        decreases issues@.len() - idx,
    {
        let issue: u64 = issues[idx];
        let labels_req = MutationRequest::AddLabels {
            issue,
            labels: clone_labels(&config.qa_flags),
        };
        let send_labels = || -> (ret: Result<(), SteveError>)
            ensures
                call_ensures(*mutate, (&labels_req,), ret),
            { mutate(&labels_req) };
        let labels_result = do_retry(send_labels, max_retries);
        let assignee_req = MutationRequest::SetAssignee {
            issue,
            assignee: config.qa_user.clone(),
        };
        let send_assignee = || -> (ret: Result<(), SteveError>)
            ensures
                call_ensures(*mutate, (&assignee_req,), ret),
            { mutate(&assignee_req) };
        let assignee_result = do_retry(send_assignee, max_retries);
        proof {
            assert(labels_req.is_add_labels_for(issue, *config));
            assert(assignee_req.is_set_assignee_for(issue, *config));
        }
        results.push(IssueOutcome { issue, labels_result, assignee_result });
        idx = idx + 1;
    }
    results
}

/// What the parser decides for a delivery body: the views of the four
/// payload fields, or the rejection.
pub open spec fn spec_event(body: Seq<char>) -> Result<
    (Seq<char>, Seq<char>, Seq<char>, bool),
    ParseError,
> {
    match json_of(body) {
        None => Err(ParseError::Malformed),
        Some(j) => spec_parse_hook(j),
    }
}

/// `out` is a possible outcome of one fetch of `url`.
pub open spec fn fetch_outcome<FF: Fn(&str) -> Result<String, SteveError>>(
    fetch: FF,
    url: Seq<char>,
    out: Result<String, SteveError>,
) -> bool {
    exists|u: &str| u@ == url && #[trigger] call_ensures(fetch, (u,), out)
}

/// How one webhook delivery ended.  Every early stop is reported here
/// rather than raised: the caller can always acknowledge the delivery.
pub enum DeliveryOutcome {
    /// The delivery did not carry a pull-request event.
    NotApplicable,
    /// The payload was rejected; the message says why.
    ParseFailed(SteveError),
    /// The pull request was not merged; nothing to do.
    NotMerged,
    /// The repository is not under configuration; nothing to do.
    Untracked,
    /// Fetching the commit list failed even after retrying.
    FetchFailed(SteveError),
    /// The fetched commit list was not shaped as expected.
    CommitDataInvalid(SteveError),
    /// The commit messages were scanned and every referenced issue was
    /// mutated, each outcome recorded per issue.
    Processed { issues: Vec<u64>, results: Vec<IssueOutcome> },
}

/// Processes one webhook delivery: validates the event, short-circuits
/// on an unmerged pull request or an untracked repository, fetches the
/// commit list through `fetch` (retried), scans the messages, and issues
/// the two mutation calls per referenced issue through `mutate`
/// (retried, failures isolated per issue).
pub fn process_delivery<FF, FM>(
    event_kind: &str,
    body: &str,
    config: &ConfigData,
    max_retries: u64,
    fetch: &FF,
    mutate: &FM,
) -> (r: DeliveryOutcome)
    where
        FF: Fn(&str) -> Result<String, SteveError>,
        FM: Fn(&MutationRequest) -> Result<(), SteveError>,
    requires
        forall|u: &str| call_requires(*fetch, (u,)),
        forall|m: &MutationRequest| call_requires(*mutate, (m,)),
    ensures
        r is NotApplicable <==> event_kind@ != "pull_request"@,
        event_kind@ == "pull_request"@ ==> (spec_event(body@) matches Err(pe) ==> (r matches
            DeliveryOutcome::ParseFailed(e) && e@ == pe.spec_message())),
        event_kind@ == "pull_request"@ ==> (spec_event(body@) matches Ok(t) ==> {
            &&& !t.3 ==> r is NotMerged
            &&& t.3 ==> (spec_lookup(config.repos@, spec_repo_key(t.1, t.2)) is None ==> r is
                Untracked)
            &&& t.3 ==> (spec_lookup(config.repos@, spec_repo_key(t.1, t.2)) matches Some(rc)
                ==> match r {
                DeliveryOutcome::FetchFailed(e) => fetch_outcome(*fetch, t.0, Err(e)),
                DeliveryOutcome::CommitDataInvalid(e) => exists|b: String|
                    #[trigger] fetch_outcome(*fetch, t.0, Ok(b)) && (spec_fetched_messages(b@)
                        matches Err(m) && e@ == m),
                DeliveryOutcome::Processed { issues, results } => exists|b: String|
                    #[trigger] fetch_outcome(*fetch, t.0, Ok(b)) && (spec_fetched_messages(b@)
                        matches Ok(ms) && issues@.to_set() == messages_issues(ms)
                        && issues@.no_duplicates() && results@.len() == issues@.len() && (forall|
                        k: int,
                    |
                        0 <= k < issues@.len() ==> issue_mutated(
                            *mutate,
                            issues@[k],
                            rc,
                            #[trigger] results@[k],
                        ))),
                _ => false,
            })
        }),
{
    if !str_eq(event_kind, "pull_request") {
        return DeliveryOutcome::NotApplicable;
    }
    let hook = match PullRequestHook::from_request(body) {
        Err(e) => {
            return DeliveryOutcome::ParseFailed(e);
        },
        Ok(h) => h,
    };
    if !hook.was_merged {
        return DeliveryOutcome::NotMerged;
    }
    let repo_config = match config.resolve(hook.owner.as_str(), hook.repo.as_str()) {
        None => {
            return DeliveryOutcome::Untracked;
        },
        Some(c) => c,
    };
    let fetch_once = || -> (ret: Result<String, SteveError>)
        ensures
            fetch_outcome(*fetch, hook.commits_url@, ret),
        { fetch(hook.commits_url.as_str()) };
    let fetched = do_retry(fetch_once, max_retries);
    let list_body = match fetched {
        Err(e) => {
            return DeliveryOutcome::FetchFailed(e);
        },
        Ok(b) => b,
    };
    proof {
        let tt = spec_event(body@)->Ok_0;
        assert(tt.0 == hook.commits_url@);
        assert(fetch_outcome(*fetch, tt.0, Ok(list_body)));
    }
    let messages = match decode_commit_list(list_body.as_str()) {
        Err(e) => {
            return DeliveryOutcome::CommitDataInvalid(e);
        },
        Ok(msgs) => msgs,
    };
    let issues = scan_messages(&messages);
    let results = run_mutations(&issues, repo_config, mutate, max_retries);
    DeliveryOutcome::Processed { issues, results }
}

} // verus!
