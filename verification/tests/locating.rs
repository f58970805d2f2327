use rfc_merge_pr::errors::RfcMergePrError;
use rfc_merge_pr::inspector::locate_document;

fn paths(v: &[&str]) -> Vec<String> {
    v.iter().map(|s| s.to_string()).collect()
}

#[test]
fn locate_selects_the_single_match() {
    let files = paths(&["text/0000-foo.md", "README.md"]);
    assert_eq!(
        locate_document(&files, "text/").unwrap(),
        "text/0000-foo.md".to_string()
    );
}

#[test]
fn locate_two_matches_is_ambiguous() {
    let files = paths(&["text/0000-foo.md", "text/0000-bar.md", "README.md"]);
    match locate_document(&files, "text/") {
        Err(RfcMergePrError::AmbiguousOrMissingDocument { candidates }) => {
            assert_eq!(
                candidates,
                paths(&["text/0000-foo.md", "text/0000-bar.md"])
            );
        }
        other => panic!("expected an ambiguous-document error, got {:?}", other),
    }
}

#[test]
fn locate_zero_matches_carries_considered_paths() {
    let files = paths(&["README.md", "src/lib.rs"]);
    match locate_document(&files, "text/") {
        Err(RfcMergePrError::AmbiguousOrMissingDocument { candidates }) => {
            assert_eq!(candidates, paths(&["README.md", "src/lib.rs"]));
        }
        other => panic!("expected an ambiguous-document error, got {:?}", other),
    }
}

#[test]
fn locate_empty_list_carries_nothing() {
    let files: Vec<String> = Vec::new();
    match locate_document(&files, "text/") {
        Err(RfcMergePrError::AmbiguousOrMissingDocument { candidates }) => {
            assert!(candidates.is_empty());
        }
        other => panic!("expected an ambiguous-document error, got {:?}", other),
    }
}

#[test]
fn locate_respects_the_configured_prefix() {
    let files = paths(&["text/0000-foo.md", "text/0000-bar.md"]);
    assert_eq!(
        locate_document(&files, "text/0000-f").unwrap(),
        "text/0000-foo.md".to_string()
    );
}
