//! Repository identity: a canonical {owner, name} pair and the identifiers
//! derived from it.

use vstd::prelude::*;

verus! {

/// An owner/name pair naming a repository, formatted through one canonical
/// accessor so no two call sites disagree on the full name.
#[derive(Debug)]
pub struct OrgRepo {
    pub org: String,
    pub repo: String,
}

/// A repository as the gateway addresses it: by its full name.
#[derive(Debug)]
pub struct Repository {
    pub full_name: String,
}

/// A pull request within a repository.
#[derive(Debug)]
pub struct PullRequestId {
    pub repo: Repository,
    pub pull_number: u64,
}

impl OrgRepo {
    /// The canonical `owner/name` rendering.
    pub open spec fn full_name_spec(&self) -> Seq<char> {
        self.org@ + "/"@ + self.repo@
    }

    /// Renders the canonical `owner/name` full name.
    pub fn full_name(&self) -> (r: String)
        ensures
            r@ == self.full_name_spec(),
    {
        let mut out = String::from_str(self.org.as_str());
        out.append("/");
        out.append(self.repo.as_str());
        proof {
            assert(out@ =~= self.full_name_spec());
        }
        out
    }

    /// The repository identifier the gateway uses.
    pub fn github_repo(&self) -> (r: Repository)
        ensures
            r.full_name@ == self.full_name_spec(),
    {
        Repository { full_name: self.full_name() }
    }

    /// Identifies pull request `pr_num` of this repository.
    pub fn pull_request(&self, pr_num: u64) -> (r: PullRequestId)
        ensures
            r.repo.full_name@ == self.full_name_spec(),
            r.pull_number == pr_num,
    {
        PullRequestId { repo: self.github_repo(), pull_number: pr_num }
    }
}

} // verus!
