use std::cell::Cell;
use steve::github::PullRequestHook;

fn payload(commits_url: &str, merged: &str) -> String {
    let mut s = String::from("{\"pull_request\": {\"commits_url\": ");
    s.push_str(commits_url);
    s.push_str(", \"merged\": ");
    s.push_str(merged);
    s.push_str(", \"repo\": {\"name\": \"steve\", \"owner\": {\"login\": \"lkgrele\"}}}}");
    s
}

#[test]
fn well_formed_payload_round_trips() {
    let body = payload("\"https://example.test/repos/lkgrele/steve/pulls/7/commits\"", "true");
    let hook = PullRequestHook::from_request(&body).unwrap();
    assert_eq!(
        hook.commits_url,
        "https://example.test/repos/lkgrele/steve/pulls/7/commits"
    );
    assert_eq!(hook.owner, "lkgrele");
    assert_eq!(hook.repo, "steve");
    assert!(hook.was_merged);
}

#[test]
fn unmerged_payload_parses() {
    let body = payload("\"https://example.test/commits\"", "false");
    let hook = PullRequestHook::from_request(&body).unwrap();
    assert!(!hook.was_merged);
}

#[test]
fn malformed_body_is_rejected() {
    let err = PullRequestHook::from_request("this is not json").unwrap_err();
    assert_eq!(err.description(), "malformed JSON payload");
}

#[test]
fn missing_commits_url_names_the_field() {
    let body = "{\"pull_request\": {\"merged\": true, \"repo\": {\"name\": \"steve\", \"owner\": {\"login\": \"lkgrele\"}}}}";
    let err = PullRequestHook::from_request(body).unwrap_err();
    assert_eq!(
        err.description(),
        "Couldn't find field /pull_request/commits_url"
    );
}

#[test]
fn missing_owner_names_the_field() {
    let body = "{\"pull_request\": {\"commits_url\": \"https://example.test/c\", \"merged\": true, \"repo\": {\"name\": \"steve\", \"owner\": {}}}}";
    let err = PullRequestHook::from_request(body).unwrap_err();
    assert_eq!(
        err.description(),
        "Couldn't find field /pull_request/repo/owner/login"
    );
}

#[test]
fn missing_repo_name_names_the_field() {
    let body = "{\"pull_request\": {\"commits_url\": \"https://example.test/c\", \"merged\": true, \"repo\": {\"owner\": {\"login\": \"lkgrele\"}}}}";
    let err = PullRequestHook::from_request(body).unwrap_err();
    assert_eq!(
        err.description(),
        "Couldn't find field /pull_request/repo/name"
    );
}

#[test]
fn missing_merged_names_the_field() {
    let body = "{\"pull_request\": {\"commits_url\": \"https://example.test/c\", \"repo\": {\"name\": \"steve\", \"owner\": {\"login\": \"lkgrele\"}}}}";
    let err = PullRequestHook::from_request(body).unwrap_err();
    assert_eq!(err.description(), "Couldn't find field /pull_request/merged");
}

#[test]
fn non_boolean_merged_is_a_type_mismatch() {
    let body = payload("\"https://example.test/c\"", "\"yes\"");
    let err = PullRequestHook::from_request(&body).unwrap_err();
    assert_eq!(err.description(), "Wrong type for field /pull_request/merged");
}

#[test]
fn non_string_commits_url_is_a_type_mismatch() {
    let body = payload("7", "true");
    let err = PullRequestHook::from_request(&body).unwrap_err();
    assert_eq!(
        err.description(),
        "Wrong type for field /pull_request/commits_url"
    );
}

#[test]
fn relative_commits_url_is_rejected() {
    let body = payload("\"not a url\"", "true");
    let err = PullRequestHook::from_request(&body).unwrap_err();
    assert_eq!(err.description(), "url parse error");
}

#[test]
fn run_skips_unmerged_pull_requests() {
    let body = payload("\"https://example.test/c\"", "false");
    let hook = PullRequestHook::from_request(&body).unwrap();
    let calls: Cell<u32> = Cell::new(0);
    hook.run(|_h: &PullRequestHook| {
        calls.set(calls.get() + 1);
    });
    assert_eq!(calls.get(), 0);
}

#[test]
fn run_fires_once_for_merged_pull_requests() {
    let body = payload("\"https://example.test/c\"", "true");
    let hook = PullRequestHook::from_request(&body).unwrap();
    let calls: Cell<u32> = Cell::new(0);
    hook.run(|_h: &PullRequestHook| {
        calls.set(calls.get() + 1);
    });
    assert_eq!(calls.get(), 1);
}
