//! Bulk repository clone orchestration: concurrency policy, confirmation
//! gate decision, per-repository clone planning, outcome interpretation,
//! sequential batch state and result aggregation.
//!
//! Cloning itself is an external command invocation; the surrounding code
//! hands its observable result back as an [`InvocationOutcome`], and every
//! decision taken on it is made here.

use crate::text::str_eq;
use vstd::prelude::*;
use vstd::string::StringExecFns;

verus! {

/// Subcommands for working with repositories.
#[derive(Clone)]
pub enum ReposSubCommands {
    /// Create a new repository
    Create { project: Option<String>, name: Option<String> },
    /// List all repositories
    List { project: Option<String> },
    /// Clone all repositories from a project
    Clone {
        project: Option<String>,
        target_dir: Option<String>,
        yes: bool,
        parallel: bool,
        concurrency: usize,
    },
    /// Delete a repository
    Delete { id: String, project: Option<String>, hard: bool, yes: bool },
    /// Show details of a repository
    Show { id: String, project: Option<String> },
    /// Manage pull requests in repositories
    PR { subcommand: crate::pr::PullRequestsSubCommands },
}

/// An immutable record naming a remote repository and its optional clone
/// address.
#[derive(Clone, Debug, PartialEq, Eq)]
pub struct RepoDescriptor {
    pub name: String,
    pub ssh_url: Option<String>,
}

/// The one result produced for a single repository after a clone attempt.
#[derive(Clone, Debug, PartialEq, Eq)]
pub enum CloneOutcome {
    Success { name: String },
    Failure { name: String, reason: String },
}

/// Success and failure tallies over a batch of clone outcomes.
#[derive(Clone, Copy, Debug, PartialEq, Eq, Structural)]
pub struct Summary {
    pub success_count: usize,
    pub failed_count: usize,
}

/// How the batch is executed: strictly in listing order, or with up to
/// `bound` clones in flight at once.
#[derive(Clone, Copy, Debug, PartialEq, Eq, Structural)]
pub enum ExecutionMode {
    Sequential,
    Parallel { bound: usize },
}

/// What one repository contributes to the batch: an external invocation
/// with a source address and a destination path, or an immediate skip for
/// a repository without a usable address.
#[derive(Clone, Debug, PartialEq, Eq)]
pub enum CloneTask {
    Run { name: String, url: String, dest: String },
    Skip { name: String },
}

/// The observable result of trying to run the external clone tool once.
#[derive(Clone, Debug, PartialEq, Eq)]
pub enum InvocationOutcome {
    /// The tool started and exited; `success` is whether its status was zero.
    Exited { success: bool, stderr: String },
    /// The tool could not be found in the environment.
    ToolMissing,
    /// The tool could not be started for another reason.
    LaunchFailed { message: String },
}

/// Largest number of clone operations allowed to run at once.
pub const MAX_CONCURRENCY: usize = 8;

/// Lowest usable concurrency bound.
pub const MIN_CONCURRENCY: usize = 1;

/// The requested concurrency level clamped into
/// `[MIN_CONCURRENCY, MAX_CONCURRENCY]`.
pub open spec fn clamp_spec(requested: usize) -> usize {
    if requested > MAX_CONCURRENCY {
        MAX_CONCURRENCY
    } else if requested < MIN_CONCURRENCY {
        MIN_CONCURRENCY
    } else {
        requested
    }
}

/// Normalizes a requested concurrency level into the valid range.
/// The second component reports whether the request was out of range, so
/// that a warning can be shown; an out-of-range request is never an error.
pub fn clamp_concurrency(requested: usize) -> (r: (usize, bool))
    ensures
        r.0 == clamp_spec(requested),
        MIN_CONCURRENCY <= r.0 <= MAX_CONCURRENCY,
        MIN_CONCURRENCY <= requested <= MAX_CONCURRENCY ==> r.0 == requested && !r.1,
        requested > MAX_CONCURRENCY ==> r.0 == MAX_CONCURRENCY && r.1,
        requested < MIN_CONCURRENCY ==> r.0 == MIN_CONCURRENCY && r.1,
{
    if requested > MAX_CONCURRENCY {
        (MAX_CONCURRENCY, true)
    } else if requested < MIN_CONCURRENCY {
        (MIN_CONCURRENCY, true)
    } else {
        (requested, false)
    }
}

/// Selects the execution mode for a batch. Sequential unless parallel
/// execution was requested; a requested concurrency outside the valid
/// range is clamped, never rejected. The second component reports whether
/// a clamping warning should be shown.
pub fn resolve(requested_parallel: bool, requested_concurrency: usize) -> (r: (
    ExecutionMode,
    bool,
))
    ensures
        !requested_parallel ==> r.0 is Sequential && !r.1,
        requested_parallel ==> r.0 == (ExecutionMode::Parallel {
            bound: clamp_spec(requested_concurrency),
        }),
        requested_parallel ==> r.1 == (requested_concurrency < MIN_CONCURRENCY
            || requested_concurrency > MAX_CONCURRENCY),
{
    if requested_parallel {
        let (bound, clamped) = clamp_concurrency(requested_concurrency);
        (ExecutionMode::Parallel { bound }, clamped)
    } else {
        (ExecutionMode::Sequential, false)
    }
}

/// The confirmation gate's decision: work proceeds when confirmation was
/// bypassed or the user approved. Declining is a normal early return, not
/// an error.
pub fn should_proceed(skip_confirmation: bool, confirmed: bool) -> (r: bool)
    ensures
        r == (skip_confirmation || confirmed),
{
    skip_confirmation || confirmed
}

/// The destination path of one clone: the repository name alone when the
/// target directory is the current-directory sentinel `"."`, otherwise the
/// target directory joined with the name.
pub open spec fn dest_path_spec(target_dir: Seq<char>, name: Seq<char>) -> Seq<char> {
    if target_dir == "."@ {
        name
    } else {
        target_dir + "/"@ + name
    }
}

/// Computes the destination path for one repository.
pub fn clone_destination(target_dir: &str, name: &str) -> (r: String)
    ensures
        r@ == dest_path_spec(target_dir@, name@),
{
    if str_eq(target_dir, ".") {
        name.to_owned()
    } else {
        let mut s = target_dir.to_owned();
        s.append("/");
        s.append(name);
        s
    }
}

/// The failure reason recorded for a repository without a usable address.
pub open spec fn no_address_reason() -> Seq<char> {
    "no address available"@
}

/// The outcome of a repository that is skipped because it has no clone
/// address. No invocation is ever planned for such a repository.
pub fn skip_outcome(name: &str) -> (o: CloneOutcome)
    ensures
        o matches CloneOutcome::Failure { name: n, reason } && n@ == name@ && reason@
            == no_address_reason(),
{
    CloneOutcome::Failure { name: name.to_owned(), reason: "no address available".to_owned() }
}

/// Relates one repository descriptor to the task planned for it: a
/// repository without an address is skipped; any other is an invocation of
/// its address into the computed destination path.
pub open spec fn task_matches(repo: RepoDescriptor, target_dir: Seq<char>, task: CloneTask) -> bool {
    match repo.ssh_url {
        None => task matches CloneTask::Skip { name } && name@ == repo.name@,
        Some(u) => task matches CloneTask::Run { name, url, dest } && name@ == repo.name@ && url@
            == u@ && dest@ == dest_path_spec(target_dir, repo.name@),
    }
}

/// Plans the task for one repository. A repository without an address
/// yields a skip and no invocation; otherwise the invocation's destination
/// is computed from the target directory and the repository name.
pub fn plan_clone(repo: &RepoDescriptor, target_dir: &str) -> (task: CloneTask)
    ensures
        task_matches(*repo, target_dir@, task),
        repo.ssh_url is None <==> task is Skip,
{
    match &repo.ssh_url {
        Some(url) => {
            let dest = clone_destination(target_dir, repo.name.as_str());
            CloneTask::Run { name: clone_string(&repo.name), url: clone_string(url), dest }
        },
        None => CloneTask::Skip { name: clone_string(&repo.name) },
    }
}

/// Plans the whole batch: every descriptor yields exactly one task, in
/// listing order.
pub fn plan_batch(repos: &Vec<RepoDescriptor>, target_dir: &str) -> (tasks: Vec<CloneTask>)
    ensures
        tasks@.len() == repos@.len(),
        forall|i: int|
            0 <= i < repos@.len() ==> task_matches(repos@[i], target_dir@, #[trigger] tasks@[i]),
{
    let mut tasks: Vec<CloneTask> = Vec::new();
    let n = repos.len();
    let mut i: usize = 0;
    while i < n
        invariant
            0 <= i <= n,
            n == repos@.len(),
            tasks@.len() == i,
            forall|j: int|
                0 <= j < i ==> task_matches(repos@[j], target_dir@, #[trigger] tasks@[j]),
        decreases n - i,
    {
        let task = plan_clone(&repos[i], target_dir);
        tasks.push(task);
        i += 1;
    }
    tasks
}

fn clone_string(s: &String) -> (r: String)
    ensures
        r == *s,
        r@ == s@,
{
    s.clone()
}

/// The outcome recorded for one repository in parallel mode, given how its
/// invocation went. Every scheduled repository produces exactly one
/// outcome; in parallel mode even a missing clone tool is recorded as that
/// repository's own failure, never as a batch-level abort.
pub fn parallel_outcome(name: &str, inv: &InvocationOutcome) -> (o: CloneOutcome)
    ensures
        inv matches InvocationOutcome::Exited { success: true, .. } ==> (o matches
            CloneOutcome::Success { name: n } && n@ == name@),
        inv matches InvocationOutcome::Exited { success: false, stderr } ==> (o matches
            CloneOutcome::Failure { name: n, reason } && n@ == name@ && reason@ == stderr@),
        inv is ToolMissing ==> (o matches CloneOutcome::Failure { name: n, reason } && n@ == name@
            && reason@ == "Git command not found while cloning "@ + name@),
        inv matches InvocationOutcome::LaunchFailed { message } ==> (o matches
            CloneOutcome::Failure { name: n, reason } && n@ == name@ && reason@
            == "Failed to execute git command for "@ + name@ + ": "@ + message@),
{
    match inv {
        InvocationOutcome::Exited { success, stderr } => {
            if *success {
                CloneOutcome::Success { name: name.to_owned() }
            } else {
                CloneOutcome::Failure { name: name.to_owned(), reason: clone_string(stderr) }
            }
        },
        InvocationOutcome::ToolMissing => {
            let mut reason = "Git command not found while cloning ".to_owned();
            reason.append(name);
            CloneOutcome::Failure { name: name.to_owned(), reason }
        },
        InvocationOutcome::LaunchFailed { message } => {
            let mut reason = "Failed to execute git command for ".to_owned();
            reason.append(name);
            reason.append(": ");
            reason.append(message.as_str());
            CloneOutcome::Failure { name: name.to_owned(), reason }
        },
    }
}

/// The outcome recorded for a task whose scheduled unit of work could not
/// be joined at the barrier.
pub fn join_failure_outcome(name: &str, message: &str) -> (o: CloneOutcome)
    ensures
        o matches CloneOutcome::Failure { name: n, reason } && n@ == name@ && reason@
            == "Task failed: "@ + message@,
{
    let mut reason = "Task failed: ".to_owned();
    reason.append(message);
    CloneOutcome::Failure { name: name.to_owned(), reason }
}

/// The error message of the batch-fatal condition: the clone tool is
/// missing from the environment.
pub fn tool_missing_message() -> (r: String)
    ensures
        r@ == "Git command not found"@,
{
    "Git command not found".to_owned()
}

/// The state of one sequential batch run: the outcomes recorded so far,
/// and the fatal message once the batch has been aborted.
///
/// In sequential mode a missing clone tool is batch-fatal: it records no
/// outcome for the repository that hit it, and no further repository may
/// be attempted. Every other failure is isolated to its own repository.
pub struct SequentialRun {
    pub outcomes: Vec<CloneOutcome>,
    pub fatal: Option<String>,
}

impl SequentialRun {
    /// Starts a batch run with no outcomes and no fatal condition.
    pub fn new() -> (r: SequentialRun)
        ensures
            r.outcomes@ == Seq::<CloneOutcome>::empty(),
            r.fatal is None,
    {
        SequentialRun { outcomes: Vec::new(), fatal: None }
    }

    /// Whether the batch has been aborted by a fatal condition.
    pub fn is_aborted(&self) -> (r: bool)
        ensures
            r == (self.fatal is Some),
    {
        self.fatal.is_some()
    }

    /// Records the outcome of a repository skipped for want of a clone
    /// address. All previously recorded outcomes are left unchanged.
    pub fn record_skip(&mut self, name: &str)
        requires
            old(self).fatal is None,
        ensures
            final (self).fatal is None,
            final (self).outcomes@.len() == old(self).outcomes@.len() + 1,
            final (self).outcomes@.drop_last() == old(self).outcomes@,
            final (self).outcomes@.last() matches CloneOutcome::Failure { name: n, reason } && n@
                == name@ && reason@ == no_address_reason(),
    {
        let o = skip_outcome(name);
        self.outcomes.push(o);
        proof {
            assert(self.outcomes@.drop_last() =~= old(self).outcomes@);
        }
    }

    /// Records the result of one invocation. A missing clone tool aborts
    /// the batch and records no outcome; any other result is recorded as
    /// this repository's own outcome, leaving all previously recorded
    /// outcomes unchanged.
    pub fn record_invocation(&mut self, name: &str, inv: &InvocationOutcome)
        requires
            old(self).fatal is None,
        ensures
            inv is ToolMissing ==> {
                &&& final (self).outcomes@ == old(self).outcomes@
                &&& final (self).fatal matches Some(m) && m@ == "Git command not found"@
            },
            !(inv is ToolMissing) ==> {
                &&& final (self).fatal is None
                &&& final (self).outcomes@.len() == old(self).outcomes@.len() + 1
                &&& final (self).outcomes@.drop_last() == old(self).outcomes@
            },
            inv matches InvocationOutcome::Exited { success: true, .. } ==> (final (self).outcomes@.last() matches CloneOutcome::Success { name: n }
                && n@ == name@),
            inv matches InvocationOutcome::Exited { success: false, stderr } ==> (final (self).outcomes@.last() matches CloneOutcome::Failure { name: n, reason }
                && n@ == name@ && reason@ == stderr@),
            inv matches InvocationOutcome::LaunchFailed { message } ==> (final (self).outcomes@.last() matches CloneOutcome::Failure { name: n, reason }
                && n@ == name@ && reason@ == "Failed to execute git command for "@ + name@ + ": "@
                + message@),
    {
        match inv {
            InvocationOutcome::ToolMissing => {
                self.fatal = Some(tool_missing_message());
            },
            _ => {
                let o = parallel_outcome(name, inv);
                self.outcomes.push(o);
                proof {
                    assert(self.outcomes@.drop_last() =~= old(self).outcomes@);
                }
            },
        }
    }
}

/// Holds of the outcomes that report a successful clone.
pub open spec fn is_success() -> spec_fn(CloneOutcome) -> bool {
    |o: CloneOutcome| o is Success
}

/// How many of the outcomes report a successful clone.
pub open spec fn success_count_of(s: Seq<CloneOutcome>) -> nat {
    s.filter(is_success()).len()
}

/// Walks every outcome and tallies successes and failures. Every outcome
/// lands in exactly one tally, so the two counts always sum to the number
/// of outcomes, whatever order they were collected in.
pub fn aggregate(outcomes: &Vec<CloneOutcome>) -> (s: Summary)
    ensures
        s.success_count == success_count_of(outcomes@),
        s.failed_count == outcomes@.len() - success_count_of(outcomes@),
        s.success_count + s.failed_count == outcomes@.len(),
{
    let ghost pred = is_success();
    let mut success_count: usize = 0;
    let mut failed_count: usize = 0;
    let n = outcomes.len();
    let mut i: usize = 0;
    while i < n
        invariant
            0 <= i <= n,
            n == outcomes@.len(),
            pred == is_success(),
            success_count == success_count_of(outcomes@.take(i as int)),
            success_count + failed_count == i,
        decreases n - i,
    {
        proof {
            crate::seqs::lemma_filter_take_step(outcomes@, i as int, pred);
        }
        match &outcomes[i] {
            CloneOutcome::Success { .. } => {
                proof {
                    assert(pred(outcomes@[i as int]));
                }
                success_count += 1;
            },
            CloneOutcome::Failure { .. } => {
                proof {
                    assert(!pred(outcomes@[i as int]));
                }
                failed_count += 1;
            },
        }
        i += 1;
    }
    proof {
        assert(outcomes@.take(n as int) =~= outcomes@);
    }
    Summary { success_count, failed_count }
}

/// Aggregation is order-independent: two outcome collections holding the
/// same outcomes — however ordered, as completion order in parallel mode
/// is not guaranteed — have the same length and the same tallies.
pub proof fn lemma_aggregate_order_independent(a: Seq<CloneOutcome>, b: Seq<CloneOutcome>)
    requires
        a.to_multiset() == b.to_multiset(),
    ensures
        a.len() == b.len(),
        success_count_of(a) == success_count_of(b),
{
    a.to_multiset_ensures();
    b.to_multiset_ensures();
    crate::seqs::lemma_filter_len_permutation_invariant(a, b, is_success());
}

/// Failures are isolated per repository: recording one more outcome moves
/// exactly one tally by one and leaves every earlier outcome unchanged.
pub proof fn lemma_outcome_isolated(s: Seq<CloneOutcome>, o: CloneOutcome)
    ensures
        success_count_of(s.push(o)) == success_count_of(s) + (if o is Success {
            1nat
        } else {
            0nat
        }),
        forall|i: int| 0 <= i < s.len() ==> s.push(o)[i] == s[i],
{
    crate::seqs::lemma_filter_push(s, o, is_success());
}

/// Why a repository could not be looked up by name.
#[derive(Clone, Copy, Debug, PartialEq, Eq, Structural)]
pub enum RepoLookupError {
    /// The project holds no repositories at all.
    NoRepositories,
    /// The project holds repositories, but none with the requested name.
    NotFound,
}

/// Looks a repository up by name. Returns the first descriptor whose name
/// matches; otherwise says whether the project was empty or merely lacked
/// a repository of that name.
pub fn get_repo(repos: &Vec<RepoDescriptor>, repository_id: &str) -> (r: Result<
    RepoDescriptor,
    RepoLookupError,
>)
    ensures
        r matches Ok(repo) ==> exists|i: int|
            0 <= i < repos@.len() && repos@[i] == repo && repos@[i].name@ == repository_id@ && (
            forall|j: int| 0 <= j < i ==> (#[trigger] repos@[j]).name@ != repository_id@),
        r is Ok <==> exists|i: int|
            0 <= i < repos@.len() && (#[trigger] repos@[i]).name@ == repository_id@,
        r == Err::<RepoDescriptor, RepoLookupError>(RepoLookupError::NoRepositories) <==> repos@.len() == 0,
        r == Err::<RepoDescriptor, RepoLookupError>(RepoLookupError::NotFound) <==> (repos@.len()
            > 0 && forall|i: int|
            0 <= i < repos@.len() ==> (#[trigger] repos@[i]).name@ != repository_id@),
{
    let n = repos.len();
    let mut i: usize = 0;
    while i < n
        invariant
            0 <= i <= n,
            n == repos@.len(),
            forall|j: int| 0 <= j < i ==> (#[trigger] repos@[j]).name@ != repository_id@,
        decreases n - i,
    {
        let repo = &repos[i];
        if str_eq(repo.name.as_str(), repository_id) {
            let found = RepoDescriptor {
                name: clone_string(&repo.name),
                ssh_url: match &repo.ssh_url {
                    Some(u) => Some(clone_string(u)),
                    None => None,
                },
            };
            proof {
                assert(found == repos@[i as int]);
            }
            return Ok(found);
        }
        i += 1;
    }
    if n == 0 {
        Err(RepoLookupError::NoRepositories)
    } else {
        Err(RepoLookupError::NotFound)
    }
}

/// The names of the listed repositories, in listing order.
pub fn repo_names(repos: &Vec<RepoDescriptor>) -> (r: Vec<String>)
    ensures
        r@.len() == repos@.len(),
        forall|i: int| 0 <= i < repos@.len() ==> (#[trigger] r@[i])@ == repos@[i].name@,
{
    let mut out: Vec<String> = Vec::new();
    let n = repos.len();
    let mut i: usize = 0;
    while i < n
        invariant
            0 <= i <= n,
            n == repos@.len(),
            out@.len() == i,
            forall|j: int| 0 <= j < i ==> (#[trigger] out@[j])@ == repos@[j].name@,
        decreases n - i,
    {
        out.push(clone_string(&repos[i].name));
        i += 1;
    }
    out
}

/// The confirmation prompt shown before a repository is deleted.
pub fn delete_prompt(id: &str, hard: bool) -> (r: String)
    ensures
        hard ==> r@ == "Are you sure you want to hard delete repository '"@ + id@ + "'?"@,
        !hard ==> r@ == "Are you sure you want to soft delete repository '"@ + id@ + "'?"@,
{
    let mut prompt: String = if hard {
        "Are you sure you want to hard delete repository '".to_owned()
    } else {
        "Are you sure you want to soft delete repository '".to_owned()
    };
    prompt.append(id);
    prompt.append("'?");
    prompt
}

/// The line shown for one repository when the planned batch is listed for
/// confirmation: its name and its clone address, or a marker for a
/// repository without one.
pub fn repo_listing_line(repo: &RepoDescriptor) -> (r: String)
    ensures
        repo.ssh_url matches Some(u) ==> r@ == "  • "@ + repo.name@ + " ("@ + u@ + ")"@,
        repo.ssh_url is None ==> r@ == "  • "@ + repo.name@ + " (⚠  No SSH URL)"@,
{
    let mut line = "  • ".to_owned();
    line.append(repo.name.as_str());
    match &repo.ssh_url {
        Some(u) => {
            line.append(" (");
            line.append(u.as_str());
            line.append(")");
        },
        None => {
            line.append(" (⚠  No SSH URL)");
        },
    }
    line
}

} // verus!
