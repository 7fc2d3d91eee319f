//! Pull request helpers: branch reference normalization and filtering a
//! project's pull requests down to one repository.

use crate::text::{is_prefix_of, str_starts_with};
use vstd::prelude::*;
use vstd::string::StringExecFns;

verus! {

/// Subcommands for working with pull requests.
#[derive(Clone)]
pub enum PullRequestsSubCommands {
    /// Create new pull request
    Create {
        project: Option<String>,
        repo: String,
        title: Option<String>,
        description: Option<String>,
        source: String,
        target: String,
    },
    /// List pull requests
    List { project: Option<String>, repo: String },
    /// Show details of a specific pull request
    Show { project: Option<String>, repo: String, id: String },
}

/// The fields of one pull request that the listing logic reads.
#[derive(Clone, Debug, PartialEq, Eq)]
pub struct PullRequestSummary {
    pub id: i32,
    pub title: String,
    pub repo_name: String,
}

/// A branch name normalized to a full reference: unchanged when it already
/// begins with `refs/heads/`, prefixed with it otherwise.
pub open spec fn branch_ref_spec(name: Seq<char>) -> Seq<char> {
    if is_prefix_of("refs/heads/"@, name) {
        name
    } else {
        "refs/heads/"@ + name
    }
}

/// Normalizes a branch name into a full `refs/heads/` reference.
pub fn branch_ref(name: &str) -> (r: String)
    ensures
        r@ == branch_ref_spec(name@),
{
    if str_starts_with(name, "refs/heads/") {
        name.to_owned()
    } else {
        let mut s = "refs/heads/".to_owned();
        s.append(name);
        s
    }
}

/// Holds of the pull requests that belong to the repository named `repo`.
pub open spec fn belongs_to_repo(repo: Seq<char>) -> spec_fn(PullRequestSummary) -> bool {
    |p: PullRequestSummary| p.repo_name@ == repo
}

/// Keeps exactly the pull requests of the named repository, in listing
/// order.
pub fn filter_pull_requests(prs: &Vec<PullRequestSummary>, repo: &str) -> (r: Vec<
    PullRequestSummary,
>)
    ensures
        r@ == prs@.filter(belongs_to_repo(repo@)),
{
    let ghost pred = belongs_to_repo(repo@);
    let mut out: Vec<PullRequestSummary> = Vec::new();
    let n = prs.len();
    let mut i: usize = 0;
    while i < n
        invariant
            0 <= i <= n,
            n == prs@.len(),
            pred == belongs_to_repo(repo@),
            out@ == prs@.take(i as int).filter(pred),
        decreases n - i,
    {
        let p = &prs[i];
        proof {
            crate::seqs::lemma_filter_take_step(prs@, i as int, pred);
        }
        if crate::text::str_eq(p.repo_name.as_str(), repo) {
            proof {
                assert(pred(prs@[i as int]));
            }
            let entry = PullRequestSummary {
                id: p.id,
                title: p.title.clone(),
                repo_name: p.repo_name.clone(),
            };
            proof {
                assert(entry == prs@[i as int]);
            }
            out.push(entry);
        } else {
            proof {
                assert(!pred(prs@[i as int]));
            }
        }
        i += 1;
    }
    proof {
        assert(prs@.take(n as int) =~= prs@);
    }
    out
}

} // verus!
