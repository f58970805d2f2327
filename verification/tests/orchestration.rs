use rfc_merge_pr::errors::RfcMergePrError;
use rfc_merge_pr::orchestrator::{
    DiffSide, GatewayAction, GatewayEvent, MergeConfig, MergeStage, RfcMergePrInFlight,
};

const RAW: &str =
    "- Feature Name: `foo`\n- Start Date: 2024-01-01\n- RFC PR: (leave this empty)\n- Rust Issue: (leave this empty)\n";

fn resolved_event() -> GatewayEvent {
    GatewayEvent::PullRequestFetched {
        title: "Some Title".to_string(),
        head_repo_full_name: Some("alice/rfcs".to_string()),
        head_branch: "feature-x".to_string(),
        head_commit: "abc123".to_string(),
    }
}

fn changed_files_event() -> GatewayEvent {
    GatewayEvent::ChangedFilesListed {
        paths: vec!["text/0000-foo.md".to_string(), "README.md".to_string()],
    }
}

#[test]
fn happy_path_runs_to_done() {
    let config = MergeConfig::deployment();
    let run = RfcMergePrInFlight::new(42);

    match run.pending_action(&config) {
        GatewayAction::FetchPullRequest { repo_full_name, number } => {
            assert_eq!(repo_full_name, "rust-lang/rfcs".to_string());
            assert_eq!(number, 42);
        }
        other => panic!("expected a pull-request fetch, got {:?}", other),
    }
    let run = run.apply(resolved_event(), &config);

    match run.pending_action(&config) {
        GatewayAction::FetchChangedFiles { repo_full_name, number } => {
            assert_eq!(repo_full_name, "rust-lang/rfcs".to_string());
            assert_eq!(number, 42);
        }
        other => panic!("expected a changed-files fetch, got {:?}", other),
    }
    let run = run.apply(changed_files_event(), &config);

    match run.pending_action(&config) {
        GatewayAction::FetchRawFile { repo_full_name, branch, path } => {
            assert_eq!(repo_full_name, "alice/rfcs".to_string());
            assert_eq!(branch, "feature-x".to_string());
            assert_eq!(path, "text/0000-foo.md".to_string());
        }
        other => panic!("expected a raw-file fetch, got {:?}", other),
    }
    let run = run.apply(
        GatewayEvent::RawFileFetched { content: Some(RAW.to_string()) },
        &config,
    );

    match run.pending_action(&config) {
        GatewayAction::CreateIssue { repo_full_name, title, body } => {
            assert_eq!(repo_full_name, "rust-lang/rust".to_string());
            assert_eq!(title, "Tracking Issue for RFC 42: Some Title".to_string());
            assert!(body.contains("`#![feature(foo)]`"));
        }
        other => panic!("expected an issue creation, got {:?}", other),
    }
    let run = run.apply(GatewayEvent::IssueOpened { number: 777 }, &config);
    assert_eq!(run.tracking_issue_number(), Some(777));

    match run.pending_action(&config) {
        GatewayAction::PostReviewComment {
            repo_full_name,
            number,
            commit_id,
            path,
            first_line,
            last_line,
            side,
            body,
        } => {
            assert_eq!(repo_full_name, "rust-lang/rfcs".to_string());
            assert_eq!(number, 42);
            assert_eq!(commit_id, "abc123".to_string());
            assert_eq!(path, "text/0000-foo.md".to_string());
            assert_eq!(first_line, 1);
            assert_eq!(last_line, 4);
            assert!(matches!(side, DiffSide::Right));
            assert!(body.contains("[rust-lang/rfcs#42](https://github.com/rust-lang/rfcs/pull/42)"));
            assert!(
                body.contains("[rust-lang/rust#777](https://github.com/rust-lang/rust/issues/777)")
            );
        }
        other => panic!("expected a review comment, got {:?}", other),
    }
    let run = run.apply(GatewayEvent::ReviewCommentPosted, &config);

    match run.pending_action(&config) {
        GatewayAction::PostIssueComment { repo_full_name, number, body } => {
            assert_eq!(repo_full_name, "rust-lang/rfcs".to_string());
            assert_eq!(number, 42);
            assert!(body.contains("add team labels to tracking issue #777"));
        }
        other => panic!("expected an issue comment, got {:?}", other),
    }
    let run = run.apply(GatewayEvent::IssueCommentPosted, &config);

    assert!(run.is_terminal());
    assert!(matches!(run, RfcMergePrInFlight::Done { pr_num: 42, tracking_issue_number: 777 }));
}

#[test]
fn missing_head_repo_fails_with_no_remote_branch() {
    let config = MergeConfig::deployment();
    let run = RfcMergePrInFlight::new(42).apply(
        GatewayEvent::PullRequestFetched {
            title: "Some Title".to_string(),
            head_repo_full_name: None,
            head_branch: "feature-x".to_string(),
            head_commit: "abc123".to_string(),
        },
        &config,
    );
    match &run {
        RfcMergePrInFlight::Failed { stage, cause } => {
            assert!(matches!(stage, MergeStage::ResolvePr));
            assert!(matches!(cause, RfcMergePrError::NoRemoteBranch));
        }
        other => panic!("expected a failed run, got {:?}", other),
    }
    let description = run.failure_description().unwrap();
    assert_eq!(
        description,
        "merge failed while resolving the pull request: no remote branch found for the pull request"
            .to_string()
    );
    assert!(matches!(run.pending_action(&config), GatewayAction::Halt));
}

#[test]
fn ambiguous_changed_files_fail_the_run() {
    let config = MergeConfig::deployment();
    let run = RfcMergePrInFlight::new(42)
        .apply(resolved_event(), &config)
        .apply(
            GatewayEvent::ChangedFilesListed {
                paths: vec!["text/a.md".to_string(), "text/b.md".to_string()],
            },
            &config,
        );
    match run {
        RfcMergePrInFlight::Failed { stage, cause } => {
            assert!(matches!(stage, MergeStage::LocateFile));
            match cause {
                RfcMergePrError::AmbiguousOrMissingDocument { candidates } => {
                    assert_eq!(candidates, vec!["text/a.md".to_string(), "text/b.md".to_string()]);
                }
                other => panic!("expected an ambiguous-document cause, got {:?}", other),
            }
        }
        other => panic!("expected a failed run, got {:?}", other),
    }
}

#[test]
fn missing_raw_file_fails_with_document_not_found() {
    let config = MergeConfig::deployment();
    let run = RfcMergePrInFlight::new(42)
        .apply(resolved_event(), &config)
        .apply(changed_files_event(), &config)
        .apply(GatewayEvent::RawFileFetched { content: None }, &config);
    match run {
        RfcMergePrInFlight::Failed { stage, cause } => {
            assert!(matches!(stage, MergeStage::ExtractHeader));
            assert!(matches!(cause, RfcMergePrError::DocumentNotFound));
        }
        other => panic!("expected a failed run, got {:?}", other),
    }
}

#[test]
fn truncated_raw_file_fails_the_run() {
    let config = MergeConfig::deployment();
    let run = RfcMergePrInFlight::new(42)
        .apply(resolved_event(), &config)
        .apply(changed_files_event(), &config)
        .apply(
            GatewayEvent::RawFileFetched { content: Some("- Feature Name: `foo`\n".to_string()) },
            &config,
        );
    match run {
        RfcMergePrInFlight::Failed { stage, cause } => {
            assert!(matches!(stage, MergeStage::ExtractHeader));
            assert!(matches!(cause, RfcMergePrError::TruncatedDocument));
        }
        other => panic!("expected a failed run, got {:?}", other),
    }
}

#[test]
fn transport_failure_stops_the_run_at_its_stage() {
    let config = MergeConfig::deployment();
    let run = RfcMergePrInFlight::new(42).apply(
        GatewayEvent::TransportFailed { cause: "connection reset".to_string() },
        &config,
    );
    let description = run.failure_description().unwrap();
    assert_eq!(
        description,
        "merge failed while resolving the pull request: gateway transport error: connection reset"
            .to_string()
    );
}

#[test]
fn repeated_issue_creation_is_refused() {
    let config = MergeConfig::deployment();
    let run = RfcMergePrInFlight::new(42)
        .apply(resolved_event(), &config)
        .apply(changed_files_event(), &config)
        .apply(GatewayEvent::RawFileFetched { content: Some(RAW.to_string()) }, &config)
        .apply(GatewayEvent::IssueOpened { number: 777 }, &config)
        .apply(GatewayEvent::IssueOpened { number: 778 }, &config);
    match run {
        RfcMergePrInFlight::Failed { stage, cause } => {
            assert!(matches!(stage, MergeStage::OpenTrackingIssue));
            assert!(matches!(cause, RfcMergePrError::DuplicateIssueRisk));
        }
        other => panic!("expected a failed run, got {:?}", other),
    }
}

#[test]
fn terminal_states_absorb_further_events() {
    let config = MergeConfig::deployment();
    let run = RfcMergePrInFlight::new(42).apply(
        GatewayEvent::TransportFailed { cause: "connection reset".to_string() },
        &config,
    );
    let run = run.apply(GatewayEvent::IssueCommentPosted, &config);
    assert!(run.is_terminal());
    assert!(matches!(run, RfcMergePrInFlight::Failed { .. }));
}

#[test]
fn testing_config_names_the_playpen_repos() {
    let config = MergeConfig::testing();
    assert_eq!(config.rfcs_repo.full_name(), "pnkfx/rfcs-play".to_string());
    assert_eq!(config.rust_repo.full_name(), "pnkfelix/triagebot-playpen".to_string());
    assert_eq!(config.document_prefix, "text/".to_string());
}
