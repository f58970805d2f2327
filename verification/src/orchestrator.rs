//! The merge orchestrator: a state machine that sequences the merge steps
//! against a repository gateway. Each state carries exactly the data the
//! run has established so far; the surrounding application performs the
//! pending gateway action and hands the outcome back as an event.

use vstd::prelude::*;

use crate::compose::{
    compose, compose_follow_up, compose_suggestion, opt_text, spec_follow_up, spec_suggestion,
    spec_tracking_body, spec_tracking_title,
};
use crate::errors::RfcMergePrError;
use crate::header::{
    feature_prefix, line_prefix, parse_error_matches, parse_header, parses, spec_feature_ident,
    spec_line, Header, is_parsed_header,
};
use crate::inspector::{locate_document, locate_error_matches, matched_docs};
use crate::repo::OrgRepo;

verus! {

/// Where a merge run fetches raw document text: the contributor's fork and
/// branch, not the base branch.
#[derive(Debug)]
pub struct BranchSource {
    pub repo_full_name: String,
    pub branch: String,
}

/// The step a failure occurred at.
#[derive(Debug, Clone, Copy, PartialEq, Eq, Structural)]
pub enum MergeStage {
    ResolvePr,
    LocateFile,
    ExtractHeader,
    OpenTrackingIssue,
    RewriteHeader,
    PostFollowUp,
}

/// Which side of a diff a review comment addresses.
#[derive(Debug, Clone, Copy, PartialEq, Eq, Structural)]
pub enum DiffSide {
    Left,
    Right,
}

/// The repositories a merge run works against, and the path prefix that
/// identifies the proposal document among the changed files.
#[derive(Debug)]
pub struct MergeConfig {
    pub rfcs_repo: OrgRepo,
    pub rust_repo: OrgRepo,
    pub document_prefix: String,
}

impl MergeConfig {
    /// The production repositories.
    pub fn deployment() -> (r: MergeConfig)
        ensures
            r.rfcs_repo.org@ == "rust-lang"@,
            r.rfcs_repo.repo@ == "rfcs"@,
            r.rust_repo.org@ == "rust-lang"@,
            r.rust_repo.repo@ == "rust"@,
            r.document_prefix@ == "text/"@,
    {
        MergeConfig {
            rfcs_repo: OrgRepo {
                org: String::from_str("rust-lang"),
                repo: String::from_str("rfcs"),
            },
            rust_repo: OrgRepo {
                org: String::from_str("rust-lang"),
                repo: String::from_str("rust"),
            },
            document_prefix: String::from_str("text/"),
        }
    }

    /// Playpen repositories for exercising a run without touching the
    /// production ones.
    pub fn testing() -> (r: MergeConfig)
        ensures
            r.rfcs_repo.org@ == "pnkfx"@,
            r.rfcs_repo.repo@ == "rfcs-play"@,
            r.rust_repo.org@ == "pnkfelix"@,
            r.rust_repo.repo@ == "triagebot-playpen"@,
            r.document_prefix@ == "text/"@,
    {
        MergeConfig {
            rfcs_repo: OrgRepo {
                org: String::from_str("pnkfx"),
                repo: String::from_str("rfcs-play"),
            },
            rust_repo: OrgRepo {
                org: String::from_str("pnkfelix"),
                repo: String::from_str("triagebot-playpen"),
            },
            document_prefix: String::from_str("text/"),
        }
    }
}

/// The gateway call a merge run wants performed next. `Halt` means the run
/// is over and nothing remains to perform.
#[derive(Debug)]
pub enum GatewayAction {
    FetchPullRequest { repo_full_name: String, number: u64 },
    FetchChangedFiles { repo_full_name: String, number: u64 },
    FetchRawFile { repo_full_name: String, branch: String, path: String },
    CreateIssue { repo_full_name: String, title: String, body: String },
    PostReviewComment {
        repo_full_name: String,
        number: u64,
        commit_id: String,
        path: String,
        first_line: u64,
        last_line: u64,
        side: DiffSide,
        body: String,
    },
    PostIssueComment { repo_full_name: String, number: u64, body: String },
    Halt,
}

/// What the gateway reported back for the pending action.
#[derive(Debug)]
pub enum GatewayEvent {
    PullRequestFetched {
        title: String,
        head_repo_full_name: Option<String>,
        head_branch: String,
        head_commit: String,
    },
    ChangedFilesListed { paths: Vec<String> },
    RawFileFetched { content: Option<String> },
    IssueOpened { number: u64 },
    ReviewCommentPosted,
    IssueCommentPosted,
    TransportFailed { cause: String },
}

/// One merge run's working state. Each variant carries only the fields
/// valid at that point, so a field cannot be read before the step that
/// establishes it has completed.
#[derive(Debug)]
pub enum RfcMergePrInFlight {
    Init { pr_num: u64 },
    PrResolved { pr_num: u64, rfc_title: String, source: BranchSource, commit: String },
    FileLocated {
        pr_num: u64,
        rfc_title: String,
        source: BranchSource,
        commit: String,
        filename: String,
    },
    HeaderExtracted {
        pr_num: u64,
        rfc_title: String,
        source: BranchSource,
        commit: String,
        filename: String,
        header: Header,
        feature: Option<String>,
    },
    IssueCreated {
        pr_num: u64,
        rfc_title: String,
        source: BranchSource,
        commit: String,
        filename: String,
        header: Header,
        feature: Option<String>,
        tracking_issue_number: u64,
    },
    HeaderRewritten { pr_num: u64, tracking_issue_number: u64, feature: Option<String> },
    Done { pr_num: u64, tracking_issue_number: u64 },
    Failed { stage: MergeStage, cause: RfcMergePrError },
}

/// The words `failure_description` uses for each stage.
pub open spec fn spec_stage_name(s: MergeStage) -> Seq<char> {
    match s {
        MergeStage::ResolvePr => "resolving the pull request"@,
        MergeStage::LocateFile => "locating the proposal document"@,
        MergeStage::ExtractHeader => "extracting the header"@,
        MergeStage::OpenTrackingIssue => "opening the tracking issue"@,
        MergeStage::RewriteHeader => "rewriting the header"@,
        MergeStage::PostFollowUp => "posting the follow-up comment"@,
    }
}

/// The stage a state is about to perform; for a failed run, the stage it
/// failed at.
pub open spec fn spec_stage_of(s: RfcMergePrInFlight) -> MergeStage {
    match s {
        RfcMergePrInFlight::Init { .. } => MergeStage::ResolvePr,
        RfcMergePrInFlight::PrResolved { .. } => MergeStage::LocateFile,
        RfcMergePrInFlight::FileLocated { .. } => MergeStage::ExtractHeader,
        RfcMergePrInFlight::HeaderExtracted { .. } => MergeStage::OpenTrackingIssue,
        RfcMergePrInFlight::IssueCreated { .. } => MergeStage::RewriteHeader,
        RfcMergePrInFlight::HeaderRewritten { .. } => MergeStage::PostFollowUp,
        RfcMergePrInFlight::Done { .. } => MergeStage::PostFollowUp,
        RfcMergePrInFlight::Failed { stage, .. } => stage,
    }
}

/// The transition relation of the merge state machine: how a state and a
/// gateway event determine the next state. Terminal states absorb every
/// event; a transport failure fails the run at its current stage; an event
/// that does not answer the pending action fails the run, and a repeated
/// issue-creation answer is refused as a duplicate-issue risk.
pub open spec fn apply_rel(
    pre: RfcMergePrInFlight,
    event: GatewayEvent,
    config: MergeConfig,
    post: RfcMergePrInFlight,
) -> bool {
    match (pre, event) {
        (RfcMergePrInFlight::Failed { .. }, _) => post == pre,
        (RfcMergePrInFlight::Done { .. }, _) => post == pre,
        (_, GatewayEvent::TransportFailed { cause }) => {
            &&& post matches RfcMergePrInFlight::Failed { stage, cause: c }
            &&& stage == spec_stage_of(pre)
            &&& c matches RfcMergePrError::GatewayTransport { cause: c2 }
            &&& c2@ == cause@
        },
        (
            RfcMergePrInFlight::Init { pr_num },
            GatewayEvent::PullRequestFetched { title, head_repo_full_name, head_branch, head_commit },
        ) => {
            match head_repo_full_name {
                Some(rf) => {
                    &&& post matches RfcMergePrInFlight::PrResolved {
                        pr_num: q,
                        rfc_title,
                        source,
                        commit,
                    }
                    &&& q == pr_num
                    &&& rfc_title == title
                    &&& source.repo_full_name == rf
                    &&& source.branch == head_branch
                    &&& commit == head_commit
                },
                None => post matches RfcMergePrInFlight::Failed {
                    stage: MergeStage::ResolvePr,
                    cause: RfcMergePrError::NoRemoteBranch,
                },
            }
        },
        (
            RfcMergePrInFlight::PrResolved { pr_num, rfc_title, source, commit },
            GatewayEvent::ChangedFilesListed { paths },
        ) => {
            let all = paths.deep_view();
            let m = matched_docs(all, config.document_prefix@);
            if m.len() == 1 {
                &&& post matches RfcMergePrInFlight::FileLocated {
                    pr_num: q,
                    rfc_title: t,
                    source: s,
                    commit: c,
                    filename,
                }
                &&& q == pr_num
                &&& t == rfc_title
                &&& s == source
                &&& c == commit
                &&& filename@ == m[0]
            } else {
                &&& post matches RfcMergePrInFlight::Failed {
                    stage: MergeStage::LocateFile,
                    cause,
                }
                &&& locate_error_matches(all, config.document_prefix@, cause)
            }
        },
        (
            RfcMergePrInFlight::FileLocated { pr_num, rfc_title, source, commit, filename },
            GatewayEvent::RawFileFetched { content },
        ) => {
            match content {
                None => post matches RfcMergePrInFlight::Failed {
                    stage: MergeStage::ExtractHeader,
                    cause: RfcMergePrError::DocumentNotFound,
                },
                Some(text) => {
                    if parses(text@) {
                        &&& post matches RfcMergePrInFlight::HeaderExtracted {
                            pr_num: q,
                            rfc_title: t,
                            source: s,
                            commit: c,
                            filename: f,
                            header,
                            feature,
                        }
                        &&& q == pr_num
                        &&& t == rfc_title
                        &&& s == source
                        &&& c == commit
                        &&& f == filename
                        &&& is_parsed_header(text@, &header)
                        &&& header.wf()
                        &&& opt_text(&feature) == spec_feature_ident(spec_line(text@, 0))
                    } else {
                        &&& post matches RfcMergePrInFlight::Failed {
                            stage: MergeStage::ExtractHeader,
                            cause,
                        }
                        &&& parse_error_matches(text@, &cause)
                    }
                },
            }
        },
        (
            RfcMergePrInFlight::HeaderExtracted {
                pr_num,
                rfc_title,
                source,
                commit,
                filename,
                header,
                feature,
            },
            GatewayEvent::IssueOpened { number },
        ) => {
            &&& post matches RfcMergePrInFlight::IssueCreated {
                pr_num: q,
                rfc_title: t,
                source: s,
                commit: c,
                filename: f,
                header: h,
                feature: ft,
                tracking_issue_number,
            }
            &&& q == pr_num
            &&& t == rfc_title
            &&& s == source
            &&& c == commit
            &&& f == filename
            &&& h == header
            &&& ft == feature
            &&& tracking_issue_number == number
        },
        (
            RfcMergePrInFlight::IssueCreated { pr_num, tracking_issue_number, feature, .. },
            GatewayEvent::ReviewCommentPosted,
        ) => {
            &&& post matches RfcMergePrInFlight::HeaderRewritten {
                pr_num: q,
                tracking_issue_number: t,
                feature: ft,
            }
            &&& q == pr_num
            &&& t == tracking_issue_number
            &&& ft == feature
        },
        (
            RfcMergePrInFlight::HeaderRewritten { pr_num, tracking_issue_number, .. },
            GatewayEvent::IssueCommentPosted,
        ) => {
            &&& post matches RfcMergePrInFlight::Done { pr_num: q, tracking_issue_number: t }
            &&& q == pr_num
            &&& t == tracking_issue_number
        },
        (RfcMergePrInFlight::IssueCreated { .. }, GatewayEvent::IssueOpened { .. }) => {
            post matches RfcMergePrInFlight::Failed {
                stage: MergeStage::OpenTrackingIssue,
                cause: RfcMergePrError::DuplicateIssueRisk,
            }
        },
        (RfcMergePrInFlight::HeaderRewritten { .. }, GatewayEvent::IssueOpened { .. }) => {
            post matches RfcMergePrInFlight::Failed {
                stage: MergeStage::OpenTrackingIssue,
                cause: RfcMergePrError::DuplicateIssueRisk,
            }
        },
        (pre2, _) => {
            &&& post matches RfcMergePrInFlight::Failed { stage, cause }
            &&& stage == spec_stage_of(pre2)
            &&& cause matches RfcMergePrError::GatewayTransport { cause: c2 }
            &&& c2@ == "unexpected gateway response"@
        },
    }
}

/// Law: the tracking issue is created at most once per merge run. Once a
/// state carries a tracking issue number, a further issue-creation answer
/// is refused as a duplicate-issue risk and never records a new number.
pub proof fn lemma_issue_created_at_most_once(
    pre: RfcMergePrInFlight,
    event: GatewayEvent,
    config: MergeConfig,
    post: RfcMergePrInFlight,
)
    requires
        apply_rel(pre, event, config, post),
        (pre matches RfcMergePrInFlight::IssueCreated { .. }) || (pre
            matches RfcMergePrInFlight::HeaderRewritten { .. }),
        event matches GatewayEvent::IssueOpened { .. },
    ensures
        post matches RfcMergePrInFlight::Failed {
            stage: MergeStage::OpenTrackingIssue,
            cause: RfcMergePrError::DuplicateIssueRisk,
        },
{
}

impl RfcMergePrInFlight {
    /// Starts a merge run for pull request `pr_num`.
    pub fn new(pr_num: u64) -> (r: Self)
        ensures
            r == (RfcMergePrInFlight::Init { pr_num }),
    {
        RfcMergePrInFlight::Init { pr_num }
    }

    /// The stage this state is about to perform, or failed at.
    pub fn stage_of(&self) -> (s: MergeStage)
        ensures
            s == spec_stage_of(*self),
    {
        match self {
            RfcMergePrInFlight::Init { .. } => MergeStage::ResolvePr,
            RfcMergePrInFlight::PrResolved { .. } => MergeStage::LocateFile,
            RfcMergePrInFlight::FileLocated { .. } => MergeStage::ExtractHeader,
            RfcMergePrInFlight::HeaderExtracted { .. } => MergeStage::OpenTrackingIssue,
            RfcMergePrInFlight::IssueCreated { .. } => MergeStage::RewriteHeader,
            RfcMergePrInFlight::HeaderRewritten { .. } => MergeStage::PostFollowUp,
            RfcMergePrInFlight::Done { .. } => MergeStage::PostFollowUp,
            RfcMergePrInFlight::Failed { stage, .. } => *stage,
        }
    }

    /// Renders the tracking issue body for a proposal: the introduction,
    /// the feature-gate sentence when a feature exists, and the fixed
    /// boilerplate.
    pub fn format_tracking_issue_body(
        pr_number: u64,
        rfc_title: &str,
        feature: &Option<String>,
    ) -> (r: String)
        ensures
            r@ == spec_tracking_body(pr_number, rfc_title@, opt_text(feature)),
    {
        let mut out = String::from_str("This is a tracking issue for the RFC \"");
        out.append(rfc_title);
        out.append("\" (rust-lang/rfcs#");
        let num = crate::textutil::u64_to_string(pr_number);
        out.append(num.as_str());
        out.append(").\n");
        match feature {
            Some(f) => {
                out.append("The feature gate for the issue is `#![feature(");
                out.append(f.as_str());
                out.append(")]`.\n");
            },
            None => {},
        }
        out.append("\n");
        out.append(crate::compose::tracking_boilerplate());
        proof {
            assert(out@ =~= spec_tracking_body(pr_number, rfc_title@, opt_text(feature)));
        }
        out
    }

    /// The gateway action this state is waiting on.
    pub fn pending_action(&self, config: &MergeConfig) -> (a: GatewayAction)
        ensures
            match *self {
                RfcMergePrInFlight::Init { pr_num } => {
                    &&& a matches GatewayAction::FetchPullRequest { repo_full_name, number }
                    &&& repo_full_name@ == config.rfcs_repo.full_name_spec()
                    &&& number == pr_num
                },
                RfcMergePrInFlight::PrResolved { pr_num, .. } => {
                    &&& a matches GatewayAction::FetchChangedFiles { repo_full_name, number }
                    &&& repo_full_name@ == config.rfcs_repo.full_name_spec()
                    &&& number == pr_num
                },
                RfcMergePrInFlight::FileLocated { source, filename, .. } => {
                    &&& a matches GatewayAction::FetchRawFile { repo_full_name, branch, path }
                    &&& repo_full_name == source.repo_full_name
                    &&& branch == source.branch
                    &&& path == filename
                },
                RfcMergePrInFlight::HeaderExtracted { pr_num, rfc_title, feature, .. } => {
                    &&& a matches GatewayAction::CreateIssue { repo_full_name, title, body }
                    &&& repo_full_name@ == config.rust_repo.full_name_spec()
                    &&& title@ == spec_tracking_title(pr_num, rfc_title@)
                    &&& body@ == spec_tracking_body(pr_num, rfc_title@, opt_text(&feature))
                },
                RfcMergePrInFlight::IssueCreated {
                    pr_num,
                    commit,
                    filename,
                    header,
                    feature,
                    tracking_issue_number,
                    ..
                } => {
                    &&& a matches GatewayAction::PostReviewComment {
                        repo_full_name,
                        number,
                        commit_id,
                        path,
                        first_line,
                        last_line,
                        side,
                        body,
                    }
                    &&& repo_full_name@ == config.rfcs_repo.full_name_spec()
                    &&& number == pr_num
                    &&& commit_id == commit
                    &&& path == filename
                    &&& first_line == 1u64
                    &&& last_line == 4u64
                    &&& side == DiffSide::Right
                    &&& body@ == spec_suggestion(
                        opt_text(&feature),
                        header.start_date@,
                        config.rfcs_repo.full_name_spec(),
                        config.rust_repo.full_name_spec(),
                        pr_num,
                        tracking_issue_number,
                    )
                },
                RfcMergePrInFlight::HeaderRewritten { pr_num, tracking_issue_number, feature } => {
                    &&& a matches GatewayAction::PostIssueComment { repo_full_name, number, body }
                    &&& repo_full_name@ == config.rfcs_repo.full_name_spec()
                    &&& number == pr_num
                    &&& body@ == spec_follow_up(tracking_issue_number, opt_text(&feature), pr_num)
                },
                RfcMergePrInFlight::Done { .. } => a matches GatewayAction::Halt,
                RfcMergePrInFlight::Failed { .. } => a matches GatewayAction::Halt,
            },
    {
        match self {
            RfcMergePrInFlight::Init { pr_num } => GatewayAction::FetchPullRequest {
                repo_full_name: config.rfcs_repo.full_name(),
                number: *pr_num,
            },
            RfcMergePrInFlight::PrResolved { pr_num, .. } => GatewayAction::FetchChangedFiles {
                repo_full_name: config.rfcs_repo.full_name(),
                number: *pr_num,
            },
            RfcMergePrInFlight::FileLocated { source, filename, .. } => {
                GatewayAction::FetchRawFile {
                    repo_full_name: source.repo_full_name.clone(),
                    branch: source.branch.clone(),
                    path: filename.clone(),
                }
            },
            RfcMergePrInFlight::HeaderExtracted { pr_num, rfc_title, feature, .. } => {
                let pr_ref = config.rfcs_repo.pull_request(*pr_num);
                let content = compose(&pr_ref, rfc_title.as_str(), feature);
                GatewayAction::CreateIssue {
                    repo_full_name: config.rust_repo.full_name(),
                    title: content.title,
                    body: content.body,
                }
            },
            RfcMergePrInFlight::IssueCreated {
                pr_num,
                commit,
                filename,
                header,
                feature,
                tracking_issue_number,
                ..
            } => {
                let body = compose_suggestion(
                    header,
                    feature,
                    *tracking_issue_number,
                    *pr_num,
                    &config.rfcs_repo,
                    &config.rust_repo,
                );
                GatewayAction::PostReviewComment {
                    repo_full_name: config.rfcs_repo.full_name(),
                    number: *pr_num,
                    commit_id: commit.clone(),
                    path: filename.clone(),
                    first_line: 1,
                    last_line: 4,
                    side: DiffSide::Right,
                    body,
                }
            },
            RfcMergePrInFlight::HeaderRewritten { pr_num, tracking_issue_number, feature } => {
                let body = compose_follow_up(*tracking_issue_number, feature, *pr_num);
                GatewayAction::PostIssueComment {
                    repo_full_name: config.rfcs_repo.full_name(),
                    number: *pr_num,
                    body,
                }
            },
            RfcMergePrInFlight::Done { .. } => GatewayAction::Halt,
            RfcMergePrInFlight::Failed { .. } => GatewayAction::Halt,
        }
    }

    /// Whether the run is over, successfully or not.
    pub fn is_terminal(&self) -> (r: bool)
        ensures
            r == ((*self matches RfcMergePrInFlight::Done { .. }) || (*self
                matches RfcMergePrInFlight::Failed { .. })),
    {
        match self {
            RfcMergePrInFlight::Done { .. } => true,
            RfcMergePrInFlight::Failed { .. } => true,
            _ => false,
        }
    }

    /// The tracking issue's number, once the run has created it: the one
    /// durable output later steps need.
    pub fn tracking_issue_number(&self) -> (r: Option<u64>)
        ensures
            match *self {
                RfcMergePrInFlight::IssueCreated { tracking_issue_number, .. } => r == Some(
                    tracking_issue_number,
                ),
                RfcMergePrInFlight::HeaderRewritten { tracking_issue_number, .. } => r == Some(
                    tracking_issue_number,
                ),
                RfcMergePrInFlight::Done { tracking_issue_number, .. } => r == Some(
                    tracking_issue_number,
                ),
                _ => r is None,
            },
    {
        match self {
            RfcMergePrInFlight::IssueCreated { tracking_issue_number, .. } => {
                Some(*tracking_issue_number)
            },
            RfcMergePrInFlight::HeaderRewritten { tracking_issue_number, .. } => {
                Some(*tracking_issue_number)
            },
            RfcMergePrInFlight::Done { tracking_issue_number, .. } => Some(
                *tracking_issue_number,
            ),
            _ => None,
        }
    }

    /// For a failed run, the stage it failed at and the cause, in words.
    pub fn failure_description(&self) -> (r: Option<String>)
        ensures
            match *self {
                RfcMergePrInFlight::Failed { stage, cause } => {
                    &&& r matches Some(m)
                    &&& m@ == "merge failed while "@ + spec_stage_name(stage) + ": "@
                        + crate::errors::spec_describe(&cause)
                },
                _ => r is None,
            },
    {
        match self {
            RfcMergePrInFlight::Failed { stage, cause } => {
                let mut out = String::from_str("merge failed while ");
                let name: &str = match stage {
                    MergeStage::ResolvePr => "resolving the pull request",
                    MergeStage::LocateFile => "locating the proposal document",
                    MergeStage::ExtractHeader => "extracting the header",
                    MergeStage::OpenTrackingIssue => "opening the tracking issue",
                    MergeStage::RewriteHeader => "rewriting the header",
                    MergeStage::PostFollowUp => "posting the follow-up comment",
                };
                out.append(name);
                out.append(": ");
                let described = cause.describe();
                out.append(described.as_str());
                proof {
                    assert(out@ =~= "merge failed while "@ + spec_stage_name(*stage) + ": "@
                        + crate::errors::spec_describe(cause));
                }
                Some(out)
            },
            _ => None,
        }
    }

    /// Advances the run by one step: consumes the event the gateway
    /// reported for the pending action and moves to the next state, as
    /// [`apply_rel`] prescribes.
    pub fn apply(self, event: GatewayEvent, config: &MergeConfig) -> (r: Self)
        ensures
            apply_rel(self, event, *config, r),
    {
        match (self, event) {
            (RfcMergePrInFlight::Failed { stage, cause }, _) => {
                RfcMergePrInFlight::Failed { stage, cause }
            },
            (RfcMergePrInFlight::Done { pr_num, tracking_issue_number }, _) => {
                RfcMergePrInFlight::Done { pr_num, tracking_issue_number }
            },
            (pre, GatewayEvent::TransportFailed { cause }) => {
                let stage = pre.stage_of();
                RfcMergePrInFlight::Failed {
                    stage,
                    cause: RfcMergePrError::GatewayTransport { cause },
                }
            },
            (
                RfcMergePrInFlight::Init { pr_num },
                GatewayEvent::PullRequestFetched {
                    title,
                    head_repo_full_name,
                    head_branch,
                    head_commit,
                },
            ) => {
                match head_repo_full_name {
                    Some(rf) => RfcMergePrInFlight::PrResolved {
                        pr_num,
                        rfc_title: title,
                        source: BranchSource { repo_full_name: rf, branch: head_branch },
                        commit: head_commit,
                    },
                    None => RfcMergePrInFlight::Failed {
                        stage: MergeStage::ResolvePr,
                        cause: RfcMergePrError::NoRemoteBranch,
                    },
                }
            },
            (
                RfcMergePrInFlight::PrResolved { pr_num, rfc_title, source, commit },
                GatewayEvent::ChangedFilesListed { paths },
            ) => {
                match locate_document(&paths, config.document_prefix.as_str()) {
                    Ok(filename) => RfcMergePrInFlight::FileLocated {
                        pr_num,
                        rfc_title,
                        source,
                        commit,
                        filename,
                    },
                    Err(e) => RfcMergePrInFlight::Failed {
                        stage: MergeStage::LocateFile,
                        cause: e,
                    },
                }
            },
            (
                RfcMergePrInFlight::FileLocated { pr_num, rfc_title, source, commit, filename },
                GatewayEvent::RawFileFetched { content },
            ) => {
                match content {
                    None => RfcMergePrInFlight::Failed {
                        stage: MergeStage::ExtractHeader,
                        cause: RfcMergePrError::DocumentNotFound,
                    },
                    Some(text) => {
                        match parse_header(text.as_str()) {
                            Ok(header) => {
                                let feature = match header.feature_name() {
                                    Ok(f) => f,
                                    Err(_) => {
                                        proof {
                                            assert(line_prefix(0).is_prefix_of(
                                                header.line_view(0),
                                            ));
                                            assert(line_prefix(0) == feature_prefix());
                                            assert(false);
                                        }
                                        unreached()
                                    },
                                };
                                proof {
                                    assert(header.line_view(0) == spec_line(text@, 0));
                                }
                                RfcMergePrInFlight::HeaderExtracted {
                                    pr_num,
                                    rfc_title,
                                    source,
                                    commit,
                                    filename,
                                    header,
                                    feature,
                                }
                            },
                            Err(e) => RfcMergePrInFlight::Failed {
                                stage: MergeStage::ExtractHeader,
                                cause: e,
                            },
                        }
                    },
                }
            },
            (
                RfcMergePrInFlight::HeaderExtracted {
                    pr_num,
                    rfc_title,
                    source,
                    commit,
                    filename,
                    header,
                    feature,
                },
                GatewayEvent::IssueOpened { number },
            ) => RfcMergePrInFlight::IssueCreated {
                pr_num,
                rfc_title,
                source,
                commit,
                filename,
                header,
                feature,
                tracking_issue_number: number,
            },
            (
                RfcMergePrInFlight::IssueCreated { pr_num, tracking_issue_number, feature, .. },
                GatewayEvent::ReviewCommentPosted,
            ) => RfcMergePrInFlight::HeaderRewritten { pr_num, tracking_issue_number, feature },
            (
                RfcMergePrInFlight::HeaderRewritten { pr_num, tracking_issue_number, .. },
                GatewayEvent::IssueCommentPosted,
            ) => RfcMergePrInFlight::Done { pr_num, tracking_issue_number },
            (RfcMergePrInFlight::IssueCreated { .. }, GatewayEvent::IssueOpened { .. }) => {
                RfcMergePrInFlight::Failed {
                    stage: MergeStage::OpenTrackingIssue,
                    cause: RfcMergePrError::DuplicateIssueRisk,
                }
            },
            (RfcMergePrInFlight::HeaderRewritten { .. }, GatewayEvent::IssueOpened { .. }) => {
                RfcMergePrInFlight::Failed {
                    stage: MergeStage::OpenTrackingIssue,
                    cause: RfcMergePrError::DuplicateIssueRisk,
                }
            },
            (pre, _) => {
                let stage = pre.stage_of();
                RfcMergePrInFlight::Failed {
                    stage,
                    cause: RfcMergePrError::GatewayTransport {
                        cause: String::from_str("unexpected gateway response"),
                    },
                }
            },
        }
    }
}

} // verus!
