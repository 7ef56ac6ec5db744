use std::cell::{Cell, RefCell};
use steve::config::{ConfigData, RepoData};
use steve::error::SteveError;
use steve::pipeline::{process_delivery, DeliveryOutcome, MutationRequest};

fn tracked_config() -> ConfigData {
    ConfigData {
        api_root: String::from("https://api.example.test"),
        repos: vec![(
            String::from("lkgrele/steve"),
            RepoData {
                qa_user: String::from("alice"),
                qa_flags: vec![String::from("qa"), String::from("urgent")],
            },
        )],
    }
}

fn merged_payload() -> String {
    String::from(
        "{\"pull_request\": {\"commits_url\": \"https://api.example.test/commits\", \"merged\": true, \"repo\": {\"name\": \"steve\", \"owner\": {\"login\": \"lkgrele\"}}}}",
    )
}

fn unmerged_payload() -> String {
    merged_payload().replace("true", "false")
}

#[derive(Clone, Debug, PartialEq)]
enum Recorded {
    Labels(u64, Vec<String>),
    Assignee(u64, String),
}

struct Driver {
    fetch_calls: Cell<u64>,
    mutate_calls: RefCell<Vec<Recorded>>,
    fetch_body: Option<String>,
    failing_issue: Option<u64>,
}

impl Driver {
    fn new(fetch_body: Option<&str>) -> Driver {
        Driver {
            fetch_calls: Cell::new(0),
            mutate_calls: RefCell::new(Vec::new()),
            fetch_body: fetch_body.map(String::from),
            failing_issue: None,
        }
    }

    fn run(&self, kind: &str, body: &str, config: &ConfigData, retries: u64) -> DeliveryOutcome {
        let fetch = |_url: &str| -> Result<String, SteveError> {
            self.fetch_calls.set(self.fetch_calls.get() + 1);
            match &self.fetch_body {
                Some(b) => Ok(b.clone()),
                None => Err(SteveError::message("connection refused")),
            }
        };
        let mutate = |req: &MutationRequest| -> Result<(), SteveError> {
            let (issue, entry) = match req {
                MutationRequest::AddLabels { issue, labels } => (
                    *issue,
                    Recorded::Labels(*issue, labels.clone()),
                ),
                MutationRequest::SetAssignee { issue, assignee } => (
                    *issue,
                    Recorded::Assignee(*issue, assignee.clone()),
                ),
            };
            self.mutate_calls.borrow_mut().push(entry);
            if self.failing_issue == Some(issue) {
                Err(SteveError::message("boom"))
            } else {
                Ok(())
            }
        };
        process_delivery(kind, body, config, retries, &fetch, &mutate)
    }
}

#[test]
fn non_pull_request_events_do_nothing() {
    let driver = Driver::new(Some("[]"));
    let outcome = driver.run("push", &merged_payload(), &tracked_config(), 5);
    assert!(matches!(outcome, DeliveryOutcome::NotApplicable));
    assert_eq!(driver.fetch_calls.get(), 0);
    assert!(driver.mutate_calls.borrow().is_empty());
}

#[test]
fn unmerged_pull_requests_make_no_calls() {
    let driver = Driver::new(Some("[]"));
    let outcome = driver.run("pull_request", &unmerged_payload(), &tracked_config(), 5);
    assert!(matches!(outcome, DeliveryOutcome::NotMerged));
    assert_eq!(driver.fetch_calls.get(), 0);
    assert!(driver.mutate_calls.borrow().is_empty());
}

#[test]
fn untracked_repositories_make_no_calls() {
    let driver = Driver::new(Some("[]"));
    let untracked = ConfigData { api_root: String::new(), repos: vec![] };
    let outcome = driver.run("pull_request", &merged_payload(), &untracked, 5);
    assert!(matches!(outcome, DeliveryOutcome::Untracked));
    assert_eq!(driver.fetch_calls.get(), 0);
    assert!(driver.mutate_calls.borrow().is_empty());
}

#[test]
fn bad_payloads_make_no_calls() {
    let driver = Driver::new(Some("[]"));
    let outcome = driver.run("pull_request", "{}", &tracked_config(), 5);
    match outcome {
        DeliveryOutcome::ParseFailed(e) => {
            assert_eq!(e.description(), "Couldn't find field /pull_request/commits_url");
        }
        _ => panic!("expected a parse failure"),
    }
    assert_eq!(driver.fetch_calls.get(), 0);
    assert!(driver.mutate_calls.borrow().is_empty());
}

#[test]
fn fetch_failure_is_retried_then_reported() {
    let driver = Driver::new(None);
    let outcome = driver.run("pull_request", &merged_payload(), &tracked_config(), 4);
    match outcome {
        DeliveryOutcome::FetchFailed(e) => assert_eq!(e.description(), "connection refused"),
        _ => panic!("expected a fetch failure"),
    }
    assert_eq!(driver.fetch_calls.get(), 4);
    assert!(driver.mutate_calls.borrow().is_empty());
}

#[test]
fn ill_shaped_commit_lists_stop_the_delivery() {
    let driver = Driver::new(Some("{\"not\": \"a list\"}"));
    let outcome = driver.run("pull_request", &merged_payload(), &tracked_config(), 2);
    match outcome {
        DeliveryOutcome::CommitDataInvalid(e) => {
            assert_eq!(e.description(), "expected array as top level object");
        }
        _ => panic!("expected invalid commit data"),
    }
    assert!(driver.mutate_calls.borrow().is_empty());
}

#[test]
fn commit_list_without_triggers_mutates_nothing() {
    let driver = Driver::new(Some(
        "[{\"commit\":{\"message\":\"message1\"}}, {\"commit\":{\"message\":\"swordfish\"}}]",
    ));
    let outcome = driver.run("pull_request", &merged_payload(), &tracked_config(), 5);
    match outcome {
        DeliveryOutcome::Processed { issues, results } => {
            assert!(issues.is_empty());
            assert!(results.is_empty());
        }
        _ => panic!("expected a processed delivery"),
    }
    assert_eq!(driver.fetch_calls.get(), 1);
    assert!(driver.mutate_calls.borrow().is_empty());
}

#[test]
fn referenced_issue_gets_both_mutation_calls() {
    let driver = Driver::new(Some(
        "[{\"commit\":{\"message\":\"fix the thing, needs qa #5\"}}]",
    ));
    let outcome = driver.run("pull_request", &merged_payload(), &tracked_config(), 5);
    match outcome {
        DeliveryOutcome::Processed { issues, results } => {
            assert_eq!(issues, vec![5]);
            assert_eq!(results.len(), 1);
            assert_eq!(results[0].issue, 5);
            assert!(results[0].labels_result.is_ok());
            assert!(results[0].assignee_result.is_ok());
        }
        _ => panic!("expected a processed delivery"),
    }
    let calls = driver.mutate_calls.borrow();
    assert_eq!(
        *calls,
        vec![
            Recorded::Labels(5, vec![String::from("qa"), String::from("urgent")]),
            Recorded::Assignee(5, String::from("alice")),
        ]
    );
}

#[test]
fn one_failing_issue_does_not_stop_the_others() {
    let mut driver = Driver::new(Some(
        "[{\"commit\":{\"message\":\"needs qa #5\"}}, {\"commit\":{\"message\":\"needs qa #9\"}}]",
    ));
    driver.failing_issue = Some(5);
    let outcome = driver.run("pull_request", &merged_payload(), &tracked_config(), 3);
    match outcome {
        DeliveryOutcome::Processed { issues, results } => {
            assert_eq!(issues, vec![5, 9]);
            assert_eq!(results.len(), 2);
            assert_eq!(results[0].issue, 5);
            assert!(results[0].labels_result.is_err());
            assert!(results[0].assignee_result.is_err());
            assert_eq!(results[1].issue, 9);
            assert!(results[1].labels_result.is_ok());
            assert!(results[1].assignee_result.is_ok());
        }
        _ => panic!("expected a processed delivery"),
    }
    let calls = driver.mutate_calls.borrow();
    // issue 5: both calls retried three times each; issue 9: one of each
    let labels_5 = calls
        .iter()
        .filter(|c| matches!(c, Recorded::Labels(5, _)))
        .count();
    let assignee_5 = calls
        .iter()
        .filter(|c| matches!(c, Recorded::Assignee(5, _)))
        .count();
    let labels_9 = calls
        .iter()
        .filter(|c| matches!(c, Recorded::Labels(9, _)))
        .count();
    let assignee_9 = calls
        .iter()
        .filter(|c| matches!(c, Recorded::Assignee(9, _)))
        .count();
    assert_eq!(labels_5, 3);
    assert_eq!(assignee_5, 3);
    assert_eq!(labels_9, 1);
    assert_eq!(assignee_9, 1);
}

#[test]
fn duplicate_references_are_mutated_once() {
    let driver = Driver::new(Some(
        "[{\"commit\":{\"message\":\"needs qa #5 and needs QA: #5\"}}, {\"commit\":{\"message\":\"needs qa #5\"}}]",
    ));
    let outcome = driver.run("pull_request", &merged_payload(), &tracked_config(), 5);
    match outcome {
        DeliveryOutcome::Processed { issues, results } => {
            assert_eq!(issues, vec![5]);
            assert_eq!(results.len(), 1);
        }
        _ => panic!("expected a processed delivery"),
    }
    assert_eq!(driver.mutate_calls.borrow().len(), 2);
}
