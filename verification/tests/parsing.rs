use rfc_merge_pr::command::RfcMergePrCommand;
use rfc_merge_pr::errors::RfcMergePrError;
use rfc_merge_pr::header::{parse_header, Header};

fn header_with_feature_line(line: &str) -> Header {
    Header {
        feature_name: line.to_string(),
        start_date: "- Start Date: 2024-01-01".to_string(),
        rfc_pr: "- RFC PR: (leave this empty)".to_string(),
        rust_issue: "- Rust Issue: (leave this empty)".to_string(),
    }
}

#[test]
fn feature_identifier_backticked() {
    let h = header_with_feature_line("- Feature Name: `foo`");
    assert_eq!(h.feature_name().unwrap(), Some("foo".to_string()));
}

#[test]
fn feature_identifier_not_applicable() {
    let h = header_with_feature_line("- Feature Name: N/A");
    assert_eq!(h.feature_name().unwrap(), None);
}

#[test]
fn feature_identifier_empty() {
    let h = header_with_feature_line("- Feature Name: ");
    assert_eq!(h.feature_name().unwrap(), None);
}

#[test]
fn feature_identifier_extra_whitespace() {
    let h = header_with_feature_line("- Feature Name:   `foo`  ");
    assert_eq!(h.feature_name().unwrap(), Some("foo".to_string()));
}

#[test]
fn feature_identifier_unquoted() {
    let h = header_with_feature_line("- Feature Name: foo");
    assert_eq!(h.feature_name().unwrap(), Some("foo".to_string()));
}

#[test]
fn feature_identifier_wrong_prefix_is_error() {
    let h = header_with_feature_line("Feature Name: `foo`");
    match h.feature_name() {
        Err(RfcMergePrError::MalformedHeaderLine { line_index, expected, actual }) => {
            assert_eq!(line_index, 0);
            assert_eq!(expected, "- Feature Name: ".to_string());
            assert_eq!(actual, "Feature Name: `foo`".to_string());
        }
        other => panic!("expected a malformed-line error, got {:?}", other),
    }
}

#[test]
fn parse_header_conforming_document() {
    let raw =
        "- Feature Name: `foo`\n- Start Date: 2024-01-01\n- RFC PR: (leave this empty)\n- Rust Issue: (leave this empty)\n";
    let h = parse_header(raw).unwrap();
    assert_eq!(h.feature_name, "- Feature Name: `foo`".to_string());
    assert_eq!(h.start_date, "- Start Date: 2024-01-01".to_string());
    assert_eq!(h.rfc_pr, "- RFC PR: (leave this empty)".to_string());
    assert_eq!(h.rust_issue, "- Rust Issue: (leave this empty)".to_string());
    assert_eq!(h.feature_name().unwrap(), Some("foo".to_string()));
}

#[test]
fn parse_header_three_lines_is_truncated() {
    let raw = "- Feature Name: `foo`\n- Start Date: 2024-01-01\n- RFC PR: (leave this empty)\n";
    match parse_header(raw) {
        Err(RfcMergePrError::TruncatedDocument) => {}
        other => panic!("expected a truncated-document error, got {:?}", other),
    }
}

#[test]
fn parse_header_empty_text_is_truncated() {
    match parse_header("") {
        Err(RfcMergePrError::TruncatedDocument) => {}
        other => panic!("expected a truncated-document error, got {:?}", other),
    }
}

#[test]
fn parse_header_reports_first_malformed_line() {
    let raw =
        "- Feature Name: `foo`\nStart Date: 2024-01-01\n- RFC PR: (leave this empty)\n- Rust Issue: (leave this empty)\n";
    match parse_header(raw) {
        Err(RfcMergePrError::MalformedHeaderLine { line_index, expected, actual }) => {
            assert_eq!(line_index, 1);
            assert_eq!(expected, "- Start Date: ".to_string());
            assert_eq!(actual, "Start Date: 2024-01-01".to_string());
        }
        other => panic!("expected a malformed-line error, got {:?}", other),
    }
}

#[test]
fn parse_header_handles_crlf_line_endings() {
    let raw =
        "- Feature Name: `foo`\r\n- Start Date: 2024-01-01\r\n- RFC PR: x\r\n- Rust Issue: y\r\n";
    let h = parse_header(raw).unwrap();
    assert_eq!(h.start_date, "- Start Date: 2024-01-01".to_string());
    assert_eq!(h.rust_issue, "- Rust Issue: y".to_string());
}

#[test]
fn parse_header_fourth_line_may_lack_newline() {
    let raw = "- Feature Name: `foo`\n- Start Date: d\n- RFC PR: x\n- Rust Issue: y";
    let h = parse_header(raw).unwrap();
    assert_eq!(h.rust_issue, "- Rust Issue: y".to_string());
}

#[test]
fn feature_identifier_round_trips_through_rebuilt_line() {
    let h = header_with_feature_line("- Feature Name:  `foo`  ");
    let id = h.feature_name().unwrap().unwrap();
    let rebuilt = header_with_feature_line(&format!("- Feature Name: `{}`", id));
    assert_eq!(rebuilt.feature_name().unwrap(), Some(id));
}

#[test]
fn describe_names_the_malformed_line() {
    let raw = "- Feature Name: `foo`\nStart Date: x\n- RFC PR: x\n- Rust Issue: y\n";
    let e = parse_header(raw).unwrap_err();
    assert_eq!(
        e.describe(),
        "malformed header line 1: expected prefix - Start Date: , got Start Date: x".to_string()
    );
}

#[test]
fn describe_truncated_document() {
    let e = parse_header("one line only").unwrap_err();
    assert_eq!(e.describe(), "document has fewer than four header lines".to_string());
}

#[test]
fn command_parse_recognizes_the_word() {
    assert!(RfcMergePrCommand::parse(Some("rfc-merge-pr")).is_some());
}

#[test]
fn command_parse_rejects_other_words() {
    assert!(RfcMergePrCommand::parse(Some("rfc-merge")).is_none());
    assert!(RfcMergePrCommand::parse(None).is_none());
}
