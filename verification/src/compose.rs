//! Rendering the tracking issue, the suggested-change review comment, and
//! the follow-up checklist comment. Every rendering is a pure function of
//! its inputs, so composing is deterministic by construction.

use vstd::prelude::*;

use crate::header::{rebuilt_feature_line, Header};
use crate::orchestrator::RfcMergePrInFlight;
use crate::repo::{OrgRepo, PullRequestId};
use crate::textutil::{dec_str, u64_to_string};

verus! {

/// The view of an optional feature identifier.
pub open spec fn opt_text(o: &Option<String>) -> Option<Seq<char>> {
    match o {
        Some(s) => Some(s@),
        None => None,
    }
}

/// The tracking issue's title.
pub open spec fn spec_tracking_title(pr_number: u64, rfc_title: Seq<char>) -> Seq<char> {
    "Tracking Issue for RFC "@ + dec_str(pr_number as nat) + ": "@ + rfc_title
}

/// The feature-gate sentence of the tracking issue body; absent when the
/// proposal declares no feature gate.
pub open spec fn spec_feature_gate_line(feature: Option<Seq<char>>) -> Seq<char> {
    match feature {
        Some(f) => "The feature gate for the issue is `#![feature("@ + f + ")]`.\n"@,
        None => Seq::<char>::empty(),
    }
}

/// The fixed boilerplate of every tracking issue: conventions, the
/// implementation checklist, and the unresolved-questions placeholder.
pub open spec fn spec_tracking_boilerplate() -> Seq<char> {
    "### About tracking issues

Tracking issues are used to record the overall progress of implementation.
They are also used as hubs connecting to other relevant issues, e.g., bugs or open design questions.
A tracking issue is however *not* meant for large scale discussion, questions, or bug reports about a feature.
Instead, open a dedicated issue for the specific matter and add the relevant feature gate label.

### Steps

- [ ] Implement the RFC
- [ ] Adjust documentation ([see instructions on rustc-dev-guide][doc-guide])
- [ ] Stabilization PR ([see instructions on rustc-dev-guide][stabilization-guide])

[stabilization-guide]: https://rustc-dev-guide.rust-lang.org/stabilization_guide.html#stabilization-pr
[doc-guide]: https://rustc-dev-guide.rust-lang.org/stabilization_guide.html#documentation-prs

### Unresolved Questions

Transcribe the unresolved questions from the RFC here so they are not forgotten.

### Implementation history
"@
}

/// The exec copy of the tracking-issue boilerplate.
pub fn tracking_boilerplate() -> (r: &'static str)
    ensures
        r@ == spec_tracking_boilerplate(),
{
    "### About tracking issues

Tracking issues are used to record the overall progress of implementation.
They are also used as hubs connecting to other relevant issues, e.g., bugs or open design questions.
A tracking issue is however *not* meant for large scale discussion, questions, or bug reports about a feature.
Instead, open a dedicated issue for the specific matter and add the relevant feature gate label.

### Steps

- [ ] Implement the RFC
- [ ] Adjust documentation ([see instructions on rustc-dev-guide][doc-guide])
- [ ] Stabilization PR ([see instructions on rustc-dev-guide][stabilization-guide])

[stabilization-guide]: https://rustc-dev-guide.rust-lang.org/stabilization_guide.html#stabilization-pr
[doc-guide]: https://rustc-dev-guide.rust-lang.org/stabilization_guide.html#documentation-prs

### Unresolved Questions

Transcribe the unresolved questions from the RFC here so they are not forgotten.

### Implementation history
"
}

/// The tracking issue's body: the introduction naming the proposal, the
/// feature-gate sentence when a feature exists, then the fixed boilerplate.
pub open spec fn spec_tracking_body(
    pr_number: u64,
    rfc_title: Seq<char>,
    feature: Option<Seq<char>>,
) -> Seq<char> {
    "This is a tracking issue for the RFC \""@ + rfc_title + "\" (rust-lang/rfcs#"@ + dec_str(
        pr_number as nat,
    ) + ").\n"@ + spec_feature_gate_line(feature) + "\n"@ + spec_tracking_boilerplate()
}

/// A tracking issue's rendered title and body.
#[derive(Debug)]
pub struct TrackingIssueContent {
    pub title: String,
    pub body: String,
}

/// Law: composing the tracking issue is deterministic — any two results
/// rendered from the same pull request number, title and feature
/// identifier are byte-identical.
pub proof fn lemma_compose_deterministic(
    a: &TrackingIssueContent,
    b: &TrackingIssueContent,
    pr_number: u64,
    rfc_title: Seq<char>,
    feature: Option<Seq<char>>,
)
    requires
        a.title@ == spec_tracking_title(pr_number, rfc_title),
        a.body@ == spec_tracking_body(pr_number, rfc_title, feature),
        b.title@ == spec_tracking_title(pr_number, rfc_title),
        b.body@ == spec_tracking_body(pr_number, rfc_title, feature),
    ensures
        a.title@ == b.title@,
        a.body@ == b.body@,
{
}

/// Renders the tracking issue's title and body for a proposal.
pub fn compose(pr_ref: &PullRequestId, rfc_title: &str, feature: &Option<String>) -> (r:
    TrackingIssueContent)
    ensures
        r.title@ == spec_tracking_title(pr_ref.pull_number, rfc_title@),
        r.body@ == spec_tracking_body(pr_ref.pull_number, rfc_title@, opt_text(feature)),
{
    let mut title = String::from_str("Tracking Issue for RFC ");
    let num = u64_to_string(pr_ref.pull_number);
    title.append(num.as_str());
    title.append(": ");
    title.append(rfc_title);
    proof {
        assert(title@ =~= spec_tracking_title(pr_ref.pull_number, rfc_title@));
    }
    let body = RfcMergePrInFlight::format_tracking_issue_body(
        pr_ref.pull_number,
        rfc_title,
        feature,
    );
    TrackingIssueContent { title, body }
}

/// The suggested-change body: a fenced suggestion block holding the
/// replacement header lines — the feature line only when a feature exists,
/// the start-date line unchanged, and the two reference lines rewritten as
/// markdown links embedding the pull request and tracking issue numbers.
pub open spec fn spec_suggestion(
    feature: Option<Seq<char>>,
    start_date_line: Seq<char>,
    rfcs_full: Seq<char>,
    rust_full: Seq<char>,
    pr_number: u64,
    tracking_issue_number: u64,
) -> Seq<char> {
    "```suggestion\n"@ + (match feature {
        Some(f) => rebuilt_feature_line(f) + "\n"@,
        None => Seq::<char>::empty(),
    }) + start_date_line + "\n"@ + "- RFC PR: ["@ + rfcs_full + "#"@ + dec_str(pr_number as nat)
        + "](https://github.com/"@ + rfcs_full + "/pull/"@ + dec_str(pr_number as nat) + ")\n"@
        + "- Rust Issue: ["@ + rust_full + "#"@ + dec_str(tracking_issue_number as nat)
        + "](https://github.com/"@ + rust_full + "/issues/"@ + dec_str(
        tracking_issue_number as nat,
    ) + ")\n"@ + "```\n"@
}

/// Renders the suggested-change review comment body that rewrites the four
/// header lines with the resolved identifiers.
pub fn compose_suggestion(
    header: &Header,
    feature: &Option<String>,
    tracking_issue_number: u64,
    pr_number: u64,
    rfcs_repo: &OrgRepo,
    rust_repo: &OrgRepo,
) -> (r: String)
    ensures
        r@ == spec_suggestion(
            opt_text(feature),
            header.start_date@,
            rfcs_repo.full_name_spec(),
            rust_repo.full_name_spec(),
            pr_number,
            tracking_issue_number,
        ),
{
    let mut out = String::from_str("```suggestion\n");
    match feature {
        Some(f) => {
            out.append("- Feature Name: ");
            out.append("`");
            out.append(f.as_str());
            out.append("`");
            out.append("\n");
            proof {
                reveal_strlit("`");
                assert("`"@ =~= seq!['`']);
            }
        },
        None => {},
    }
    out.append(header.start_date.as_str());
    out.append("\n");
    out.append("- RFC PR: [");
    let rfcs = rfcs_repo.full_name();
    let prn = u64_to_string(pr_number);
    out.append(rfcs.as_str());
    out.append("#");
    out.append(prn.as_str());
    out.append("](https://github.com/");
    out.append(rfcs.as_str());
    out.append("/pull/");
    out.append(prn.as_str());
    out.append(")\n");
    out.append("- Rust Issue: [");
    let rust = rust_repo.full_name();
    let tin = u64_to_string(tracking_issue_number);
    out.append(rust.as_str());
    out.append("#");
    out.append(tin.as_str());
    out.append("](https://github.com/");
    out.append(rust.as_str());
    out.append("/issues/");
    out.append(tin.as_str());
    out.append(")\n");
    out.append("```\n");
    proof {
        assert(out@ =~= spec_suggestion(
            opt_text(feature),
            header.start_date@,
            rfcs_repo.full_name_spec(),
            rust_repo.full_name_spec(),
            pr_number,
            tracking_issue_number,
        ));
    }
    out
}

/// The follow-up comment enumerating the manual steps still owed by the
/// merging maintainer.
pub open spec fn spec_follow_up(
    tracking_issue_number: u64,
    feature: Option<Seq<char>>,
    pr_number: u64,
) -> Seq<char> {
    "Remember to:\n\n- [ ] add team labels to tracking issue #"@ + dec_str(
        tracking_issue_number as nat,
    ) + "\n"@ + (match feature {
        Some(f) => "- [ ] add the feature label F-"@ + f + " to tracking issue #"@ + dec_str(
            tracking_issue_number as nat,
        ) + "\n"@,
        None => Seq::<char>::empty(),
    }) + "- [ ] transcribe the unresolved questions from the RFC into tracking issue #"@
        + dec_str(tracking_issue_number as nat) + "\n"@
        + "- [ ] rename the proposal file to embed "@ + dec_str(pr_number as nat)
        + " in place of its 0000 placeholder\n"@
}

/// Renders the follow-up checklist comment.
pub fn compose_follow_up(
    tracking_issue_number: u64,
    feature: &Option<String>,
    pr_number: u64,
) -> (r: String)
    ensures
        r@ == spec_follow_up(tracking_issue_number, opt_text(feature), pr_number),
{
    let tin = u64_to_string(tracking_issue_number);
    let mut out = String::from_str("Remember to:\n\n- [ ] add team labels to tracking issue #");
    out.append(tin.as_str());
    out.append("\n");
    match feature {
        Some(f) => {
            out.append("- [ ] add the feature label F-");
            out.append(f.as_str());
            out.append(" to tracking issue #");
            out.append(tin.as_str());
            out.append("\n");
        },
        None => {},
    }
    out.append("- [ ] transcribe the unresolved questions from the RFC into tracking issue #");
    out.append(tin.as_str());
    out.append("\n");
    out.append("- [ ] rename the proposal file to embed ");
    let prn = u64_to_string(pr_number);
    out.append(prn.as_str());
    out.append(" in place of its 0000 placeholder\n");
    proof {
        assert(out@ =~= spec_follow_up(tracking_issue_number, opt_text(feature), pr_number));
    }
    out
}

} // verus!
