use rfc_merge_pr::compose::{compose, compose_follow_up, compose_suggestion};
use rfc_merge_pr::header::Header;
use rfc_merge_pr::orchestrator::{MergeConfig, RfcMergePrInFlight};
use rfc_merge_pr::repo::OrgRepo;
use rfc_merge_pr::textutil::u64_to_string;

fn sample_header() -> Header {
    Header {
        feature_name: "- Feature Name: `foo`".to_string(),
        start_date: "- Start Date: 2024-01-01".to_string(),
        rfc_pr: "- RFC PR: (leave this empty)".to_string(),
        rust_issue: "- Rust Issue: (leave this empty)".to_string(),
    }
}

#[test]
fn decimal_rendering_exact_values() {
    assert_eq!(u64_to_string(0), "0".to_string());
    assert_eq!(u64_to_string(7), "7".to_string());
    assert_eq!(u64_to_string(42), "42".to_string());
    assert_eq!(u64_to_string(777), "777".to_string());
    assert_eq!(u64_to_string(1000), "1000".to_string());
    assert_eq!(u64_to_string(u64::MAX), "18446744073709551615".to_string());
}

#[test]
fn full_name_is_canonical() {
    let repo = OrgRepo { org: "rust-lang".to_string(), repo: "rfcs".to_string() };
    assert_eq!(repo.full_name(), "rust-lang/rfcs".to_string());
    assert_eq!(repo.github_repo().full_name, "rust-lang/rfcs".to_string());
    let pr = repo.pull_request(42);
    assert_eq!(pr.repo.full_name, "rust-lang/rfcs".to_string());
    assert_eq!(pr.pull_number, 42);
}

#[test]
fn compose_title_is_exact() {
    let repo = OrgRepo { org: "rust-lang".to_string(), repo: "rfcs".to_string() };
    let pr = repo.pull_request(42);
    let content = compose(&pr, "Some Title", &Some("foo".to_string()));
    assert_eq!(content.title, "Tracking Issue for RFC 42: Some Title".to_string());
}

#[test]
fn compose_body_mentions_the_proposal_and_feature() {
    let repo = OrgRepo { org: "rust-lang".to_string(), repo: "rfcs".to_string() };
    let pr = repo.pull_request(42);
    let content = compose(&pr, "Some Title", &Some("foo".to_string()));
    assert!(content.body.starts_with(
        "This is a tracking issue for the RFC \"Some Title\" (rust-lang/rfcs#42).\n"
    ));
    assert!(content.body.contains("The feature gate for the issue is `#![feature(foo)]`.\n"));
    assert!(content.body.contains("### About tracking issues"));
    assert!(content.body.contains("### Unresolved Questions"));
}

#[test]
fn compose_body_omits_the_feature_line_without_a_feature() {
    let repo = OrgRepo { org: "rust-lang".to_string(), repo: "rfcs".to_string() };
    let pr = repo.pull_request(42);
    let content = compose(&pr, "Some Title", &None);
    assert!(!content.body.contains("The feature gate for the issue is"));
}

#[test]
fn compose_is_deterministic() {
    let repo = OrgRepo { org: "rust-lang".to_string(), repo: "rfcs".to_string() };
    let pr = repo.pull_request(42);
    let a = compose(&pr, "Some Title", &Some("foo".to_string()));
    let b = compose(&pr, "Some Title", &Some("foo".to_string()));
    assert_eq!(a.title.as_bytes(), b.title.as_bytes());
    assert_eq!(a.body.as_bytes(), b.body.as_bytes());
}

#[test]
fn format_tracking_issue_body_matches_compose() {
    let repo = OrgRepo { org: "rust-lang".to_string(), repo: "rfcs".to_string() };
    let pr = repo.pull_request(42);
    let feature = Some("foo".to_string());
    let content = compose(&pr, "Some Title", &feature);
    let body = RfcMergePrInFlight::format_tracking_issue_body(42, "Some Title", &feature);
    assert_eq!(content.body, body);
}

#[test]
fn suggestion_embeds_both_numbers_as_links() {
    let config = MergeConfig::deployment();
    let body = compose_suggestion(
        &sample_header(),
        &Some("foo".to_string()),
        777,
        42,
        &config.rfcs_repo,
        &config.rust_repo,
    );
    let expected = "```suggestion\n\
                    - Feature Name: `foo`\n\
                    - Start Date: 2024-01-01\n\
                    - RFC PR: [rust-lang/rfcs#42](https://github.com/rust-lang/rfcs/pull/42)\n\
                    - Rust Issue: [rust-lang/rust#777](https://github.com/rust-lang/rust/issues/777)\n\
                    ```\n";
    assert_eq!(body, expected.to_string());
}

#[test]
fn suggestion_omits_the_feature_line_without_a_feature() {
    let config = MergeConfig::deployment();
    let body = compose_suggestion(
        &sample_header(),
        &None,
        777,
        42,
        &config.rfcs_repo,
        &config.rust_repo,
    );
    assert!(body.starts_with("```suggestion\n- Start Date: 2024-01-01\n"));
    assert!(!body.contains("Feature Name"));
}

#[test]
fn follow_up_lists_the_manual_steps() {
    let body = compose_follow_up(777, &Some("foo".to_string()), 42);
    assert!(body.starts_with("Remember to:\n"));
    assert!(body.contains("add team labels to tracking issue #777"));
    assert!(body.contains("add the feature label F-foo"));
    assert!(body.contains("transcribe the unresolved questions"));
    assert!(body.contains("rename the proposal file to embed 42"));
}

#[test]
fn follow_up_omits_the_feature_label_without_a_feature() {
    let body = compose_follow_up(777, &None, 42);
    assert!(!body.contains("feature label"));
}
