//! The failure taxonomy of a merge run.

use vstd::prelude::*;

use crate::textutil::{dec_str, u64_to_string};

verus! {

/// Everything that can stop a merge run, with enough context for a human
/// operator to resume by hand.
#[derive(Debug)]
pub enum RfcMergePrError {
    /// The pull request's head repository reference is absent, e.g. the
    /// contributor deleted the fork or branch.
    NoRemoteBranch,
    /// Zero or several changed files matched the document prefix; the paths
    /// that were matched (or, with no match at all, considered) are carried
    /// for diagnostics.
    AmbiguousOrMissingDocument { candidates: Vec<String> },
    /// The document has fewer than four lines, so no header block exists.
    TruncatedDocument,
    /// A header line does not begin with its required literal prefix.
    MalformedHeaderLine { line_index: usize, expected: String, actual: String },
    /// The gateway reported no content at the document's path and branch.
    DocumentNotFound,
    /// A gateway call failed at the transport level.
    GatewayTransport { cause: String },
    /// A second tracking-issue creation was attempted within one merge run.
    DuplicateIssueRisk,
}

/// The one-line message [`RfcMergePrError::describe`] renders.
pub open spec fn spec_describe(e: &RfcMergePrError) -> Seq<char> {
    match e {
        RfcMergePrError::NoRemoteBranch => "no remote branch found for the pull request"@,
        RfcMergePrError::AmbiguousOrMissingDocument { .. } =>
            "expected exactly one proposal document among the changed files"@,
        RfcMergePrError::TruncatedDocument => "document has fewer than four header lines"@,
        RfcMergePrError::MalformedHeaderLine { line_index, expected, actual } =>
            "malformed header line "@ + dec_str(*line_index as nat) + ": expected prefix "@
                + expected@ + ", got "@ + actual@,
        RfcMergePrError::DocumentNotFound => "document not found at the source branch"@,
        RfcMergePrError::GatewayTransport { cause } => "gateway transport error: "@ + cause@,
        RfcMergePrError::DuplicateIssueRisk =>
            "refusing to create a second tracking issue in one merge run"@,
    }
}

impl RfcMergePrError {
    /// A human-readable account of the failure.
    pub fn describe(&self) -> (r: String)
        ensures
            r@ == spec_describe(self),
    {
        match self {
            RfcMergePrError::NoRemoteBranch => {
                String::from_str("no remote branch found for the pull request")
            },
            RfcMergePrError::AmbiguousOrMissingDocument { .. } => {
                String::from_str("expected exactly one proposal document among the changed files")
            },
            RfcMergePrError::TruncatedDocument => {
                String::from_str("document has fewer than four header lines")
            },
            RfcMergePrError::MalformedHeaderLine { line_index, expected, actual } => {
                let mut out = String::from_str("malformed header line ");
                let num = u64_to_string(*line_index as u64);
                out.append(num.as_str());
                out.append(": expected prefix ");
                out.append(expected.as_str());
                out.append(", got ");
                out.append(actual.as_str());
                proof {
                    assert(out@ =~= spec_describe(self));
                }
                out
            },
            RfcMergePrError::DocumentNotFound => {
                String::from_str("document not found at the source branch")
            },
            RfcMergePrError::GatewayTransport { cause } => {
                let mut out = String::from_str("gateway transport error: ");
                out.append(cause.as_str());
                out
            },
            RfcMergePrError::DuplicateIssueRisk => {
                String::from_str("refusing to create a second tracking issue in one merge run")
            },
        }
    }
}

} // verus!
