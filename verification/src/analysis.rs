//! Pairwise classification and the matrix loop.
//!
//! For each ordered pair of branches the classifier asks the repository for
//! a relationship analysis between the pair's tips; the primitive outcomes
//! are ranked fast-forward first, then normal merge, then up-to-date, then
//! no relationship. A normal merge is decided by a non-destructive three-way
//! merge trial, after which the working tree is hard-reset to the checkout
//! position captured before the first pair — never to an intermediate state
//! — so that every trial starts from the same clean baseline.

use crate::errors::GitError;
use crate::gitio;
use crate::outcome::MergeAnalysisResult;
use crate::outcome::MergeAnalysisStatus;
use crate::recent;
use vstd::prelude::*;

verus! {

use vstd::string::StringExecFns;

/// What the primitive relationship analysis says of a pair, before any
/// merge trial.
pub enum PairRelation {
    /// The target can simply be moved forward to the source's tip.
    FastForward,
    /// Both sides diverged: only a merge trial can tell clean from
    /// conflicting.
    NeedsTrial,
    /// The target already contains the source's history.
    UpToDate,
    /// The analysis reported no relationship at all.
    Unrelated,
    /// The analysis reported nothing recognizable.
    Unknown,
}

/// The ranking of the primitive analysis bits: fast-forward wins over a
/// normal merge, a normal merge over up-to-date, up-to-date over no
/// relationship; anything else is unknown.
pub open spec fn relation_of(
    fast_forward: bool,
    normal: bool,
    up_to_date: bool,
    none: bool,
) -> PairRelation {
    if fast_forward {
        PairRelation::FastForward
    } else if normal {
        PairRelation::NeedsTrial
    } else if up_to_date {
        PairRelation::UpToDate
    } else if none {
        PairRelation::Unrelated
    } else {
        PairRelation::Unknown
    }
}

/// Ranks the bits of a primitive relationship analysis.
pub fn classify_relation(fast_forward: bool, normal: bool, up_to_date: bool, none: bool) -> (r:
    PairRelation)
    ensures
        r == relation_of(fast_forward, normal, up_to_date, none),
{
    if fast_forward {
        PairRelation::FastForward
    } else if normal {
        PairRelation::NeedsTrial
    } else if up_to_date {
        PairRelation::UpToDate
    } else if none {
        PairRelation::Unrelated
    } else {
        PairRelation::Unknown
    }
}

/// How a three-way merge trial ended.
pub enum MergeTrialOutcome {
    /// The merged index has no conflicting entry.
    Clean,
    /// At least one entry of the merged index conflicts.
    Conflicting,
    /// The two tips have no common ancestor, so there is nothing to merge.
    NoMergeBase { message: String },
    /// Some step of the trial failed.
    Failed { message: String },
}

/// The status a trial outcome is reported as: a clean trial means an
/// automatic merge would succeed, a conflicting one means manual work; a
/// missing merge base means the branches are unrelated, and any other
/// failure is an error of that pair alone.
pub open spec fn trial_status(outcome: MergeTrialOutcome) -> MergeAnalysisStatus {
    match outcome {
        MergeTrialOutcome::Clean => MergeAnalysisStatus::Normal,
        MergeTrialOutcome::Conflicting => MergeAnalysisStatus::Conflicts,
        MergeTrialOutcome::NoMergeBase { message } => MergeAnalysisStatus::Unrelated { message },
        MergeTrialOutcome::Failed { message } => MergeAnalysisStatus::Error { message },
    }
}

/// Maps a trial outcome to the status it is reported as.
pub fn status_of_trial(outcome: MergeTrialOutcome) -> (s: MergeAnalysisStatus)
    ensures
        s == trial_status(outcome),
{
    match outcome {
        MergeTrialOutcome::Clean => MergeAnalysisStatus::Normal,
        MergeTrialOutcome::Conflicting => MergeAnalysisStatus::Conflicts,
        MergeTrialOutcome::NoMergeBase { message } => MergeAnalysisStatus::Unrelated { message },
        MergeTrialOutcome::Failed { message } => MergeAnalysisStatus::Error { message },
    }
}

/// The full reference name a branch is resolved under.
pub open spec fn remote_ref(branch: Seq<char>) -> Seq<char> {
    "refs/remotes/origin/"@ + branch
}

/// Builds the full remote-tracking reference name of a branch.
fn remote_ref_name(branch: &String) -> (r: String)
    ensures
        r@ == remote_ref(branch@),
{
    "refs/remotes/origin/".to_owned().concat(branch.as_str())
}

/// The status a ranked relation is reported as when no merge trial is
/// needed: fast-forward, up-to-date and unknown carry over, no relationship
/// at all is reported as unrelated with the fixed message, and a normal
/// merge has no status yet — only the trial can tell clean from
/// conflicting.
pub fn status_of_relation(relation: &PairRelation) -> (r: Option<MergeAnalysisStatus>)
    ensures
        relation is FastForward ==> r == Some(MergeAnalysisStatus::FastForward),
        relation is UpToDate ==> r == Some(MergeAnalysisStatus::UpToDate),
        relation is Unknown ==> r == Some(MergeAnalysisStatus::Unknown),
        relation is NeedsTrial ==> r is None,
        relation is Unrelated ==> (r matches Some(status) && status matches
            MergeAnalysisStatus::Unrelated { message } && message@ == "no merge base found"@),
{
    match relation {
        PairRelation::FastForward => Some(MergeAnalysisStatus::FastForward),
        PairRelation::NeedsTrial => None,
        PairRelation::UpToDate => Some(MergeAnalysisStatus::UpToDate),
        PairRelation::Unrelated => Some(
            MergeAnalysisStatus::Unrelated { message: "no merge base found".to_owned() },
        ),
        PairRelation::Unknown => Some(MergeAnalysisStatus::Unknown),
    }
}

/// The trial outcome of a failed merge-base lookup: the not-found kind
/// means the two histories share no ancestor at all; any other failure
/// fails the trial, keeping the diagnostic either way.
pub fn outcome_of_base_failure(details: GitError) -> (r: MergeTrialOutcome)
    ensures
        details.not_found ==> (r matches MergeTrialOutcome::NoMergeBase { message } && message
            == details.message),
        !details.not_found ==> (r matches MergeTrialOutcome::Failed { message } && message
            == details.message),
{
    if details.not_found {
        MergeTrialOutcome::NoMergeBase { message: details.message }
    } else {
        MergeTrialOutcome::Failed { message: details.message }
    }
}

/// The trial outcome of the merged index: a clean index means an automatic
/// merge would succeed; a conflicted index that could be materialized into
/// the working tree is the conflicting outcome; a conflicted index whose
/// materialization failed fails the trial.
pub fn outcome_of_merged_index(conflicted: bool, checkout_failure: Option<GitError>) -> (r:
    MergeTrialOutcome)
    ensures
        !conflicted ==> r is Clean,
        conflicted && checkout_failure is None ==> r is Conflicting,
        checkout_failure matches Some(failure) ==> conflicted ==> (r matches
            MergeTrialOutcome::Failed { message } && message == failure.message),
{
    if conflicted {
        match checkout_failure {
            None => MergeTrialOutcome::Conflicting,
            Some(failure) => MergeTrialOutcome::Failed { message: failure.message },
        }
    } else {
        MergeTrialOutcome::Clean
    }
}

/// A trial step failure that is confined to the pair under probe: the
/// outcome is failed and keeps the step's diagnostic.
fn trial_failure(details: GitError) -> (r: MergeTrialOutcome)
    ensures
        r matches MergeTrialOutcome::Failed { message } && message == details.message,
{
    MergeTrialOutcome::Failed { message: details.message }
}

/// Runs the non-destructive three-way merge trial for one pair: resolves
/// the merge base of the two tips, merges the base tree with the target's
/// and the source's trees into an in-memory index, and, when that index
/// conflicts, materializes the conflicted state into the working tree so a
/// human could inspect it. The caller restores the working tree afterwards.
/// Every failure is confined to this pair; a missing merge base is reported
/// as its own outcome because it means the histories are unrelated.
fn run_merge_trial<'a>(
    repo: &'a git2::Repository,
    their: &git2::AnnotatedCommit<'a>,
    our: &git2::AnnotatedCommit<'a>,
) -> MergeTrialOutcome {
    let base = match repo.merge_base(their.id(), our.id()) {
        Ok(oid) => oid,
        Err(error) => { return outcome_of_base_failure(GitError::from_git(&error)) },
    };
    let base_commit = match repo.find_commit(base) {
        Ok(commit) => commit,
        Err(error) => { return trial_failure(GitError::from_git(&error)) },
    };
    let ancestor_tree = match base_commit.tree() {
        Ok(tree) => tree,
        Err(error) => { return trial_failure(GitError::from_git(&error)) },
    };
    let our_commit = match repo.find_commit(our.id()) {
        Ok(commit) => commit,
        Err(error) => { return trial_failure(GitError::from_git(&error)) },
    };
    let our_tree = match our_commit.tree() {
        Ok(tree) => tree,
        Err(error) => { return trial_failure(GitError::from_git(&error)) },
    };
    let their_commit = match repo.find_commit(their.id()) {
        Ok(commit) => commit,
        Err(error) => { return trial_failure(GitError::from_git(&error)) },
    };
    let their_tree = match their_commit.tree() {
        Ok(tree) => tree,
        Err(error) => { return trial_failure(GitError::from_git(&error)) },
    };
    let mut merged = match repo.merge_trees(&ancestor_tree, &our_tree, &their_tree, None) {
        Ok(index) => index,
        Err(error) => { return trial_failure(GitError::from_git(&error)) },
    };
    let conflicted = merged.has_conflicts();
    let checkout_failure: Option<GitError> = if conflicted {
        match gitio::checkout_index(repo, &mut merged) {
            Ok(_) => None,
            Err(error) => Some(GitError::from_git(&error)),
        }
    } else {
        None
    };
    outcome_of_merged_index(conflicted, checkout_failure)
}

/// Classifies one ordered pair: resolves both branch names to their
/// remote-tracking references, ranks the primitive relationship analysis,
/// and, when both sides diverged, runs the merge trial and then hard-resets
/// the working tree to `baseline`. A failure to resolve a reference, to run
/// the analysis, or to restore the baseline is fatal for the whole run and
/// returned as the error; everything that goes wrong inside the trial is
/// confined to this pair's status.
pub(crate) fn classify_pair<'a>(
    repo: &'a git2::Repository,
    from_branch: &String,
    to_branch: &String,
    baseline: &git2::Commit<'a>,
) -> Result<MergeAnalysisStatus, GitError> {
    let their_name = remote_ref_name(from_branch);
    let their_ref = match repo.find_reference(their_name.as_str()) {
        Ok(reference) => reference,
        Err(error) => { return Err(GitError::from_git(&error)) },
    };
    let our_name = remote_ref_name(to_branch);
    let our_ref = match repo.find_reference(our_name.as_str()) {
        Ok(reference) => reference,
        Err(error) => { return Err(GitError::from_git(&error)) },
    };
    let their_commit = match repo.reference_to_annotated_commit(&their_ref) {
        Ok(commit) => commit,
        Err(error) => { return Err(GitError::from_git(&error)) },
    };
    let analysis = match gitio::merge_analysis_for_ref(repo, &our_ref, &their_commit) {
        Ok(analysis) => analysis,
        Err(error) => { return Err(GitError::from_git(&error)) },
    };
    let relation = classify_relation(
        analysis.is_fast_forward(),
        analysis.is_normal(),
        analysis.is_up_to_date(),
        analysis.is_none(),
    );
    match status_of_relation(&relation) {
        Some(status) => Ok(status),
        None => {
            // The relation needs the merge trial to tell clean from
            // conflicting, and the trial may dirty the working tree.
            let our_commit = match repo.reference_to_annotated_commit(&our_ref) {
                Ok(commit) => commit,
                Err(error) => { return Err(GitError::from_git(&error)) },
            };
            let outcome = run_merge_trial(repo, &their_commit, &our_commit);
            let status = status_of_trial(outcome);
            match gitio::reset_hard(repo, baseline) {
                Ok(_) => Ok(status),
                Err(error) => Err(GitError::from_git(&error)),
            }
        },
    }
}

/// The branch index a matrix entry's source is drawn from: entries are laid
/// out row by row, `n - 1` of them per source branch.
pub open spec fn pair_from(n: int, k: int) -> int {
    k / (n - 1)
}

/// The branch index a matrix entry's target is drawn from: within a row the
/// targets run through every index except the row's own.
pub open spec fn pair_to(n: int, k: int) -> int {
    let i = k / (n - 1);
    let j = k % (n - 1);
    if j < i {
        j
    } else {
        j + 1
    }
}

/// The shape of a finished matrix over a candidate set: one entry for every
/// ordered pair of distinct indices, in the fixed order of the double loop
/// (source index outer, target index inner), so the output is deterministic
/// for a given candidate list.
pub open spec fn matrix_shape(branches: Seq<String>, matrix: Seq<MergeAnalysisResult>) -> bool {
    let n = branches.len() as int;
    &&& matrix.len() == n * (n - 1)
    &&& forall|k: int|
        0 <= k < matrix.len() ==> (#[trigger] matrix[k]).from_branch == branches[pair_from(n, k)]
            && matrix[k].to_branch == branches[pair_to(n, k)]
}

proof fn lemma_pair_indices(n: int, k: int)
    requires
        n >= 2,
        0 <= k < n * (n - 1),
    ensures
        0 <= pair_from(n, k) < n,
        0 <= pair_to(n, k) < n,
        pair_from(n, k) != pair_to(n, k),
{
    vstd::arithmetic::div_mod::lemma_fundamental_div_mod(k, n - 1);
    vstd::arithmetic::div_mod::lemma_mod_bound(k, n - 1);
    let q = k / (n - 1);
    let r = k % (n - 1);
    assert(0 <= q < n) by (nonlinear_arith)
        requires
            k == q * (n - 1) + r,
            0 <= r < n - 1,
            0 <= k < n * (n - 1),
    ;
}

proof fn lemma_pair_index_of(n: int, i: int, j: int)
    requires
        n >= 2,
        0 <= i < n,
        0 <= j < n,
        i != j,
    ensures
        ({
            let adj = if j < i {
                j
            } else {
                j - 1
            };
            let k = i * (n - 1) + adj;
            &&& 0 <= k < n * (n - 1)
            &&& pair_from(n, k) == i
            &&& pair_to(n, k) == j
        }),
{
    let adj = if j < i {
        j
    } else {
        j - 1
    };
    let k = i * (n - 1) + adj;
    assert(0 <= k < n * (n - 1)) by (nonlinear_arith)
        requires
            0 <= i < n,
            0 <= adj < n - 1,
            k == i * (n - 1) + adj,
    ;
    vstd::arithmetic::div_mod::lemma_fundamental_div_mod_converse_div(k, n - 1, i, adj);
    vstd::arithmetic::div_mod::lemma_fundamental_div_mod_converse_mod(k, n - 1, i, adj);
}

/// Law: a candidate set with exactly one branch yields an empty matrix,
/// because there is no ordered pair of distinct branches to compare.
pub proof fn lemma_single_branch_empty_matrix(
    branches: Seq<String>,
    matrix: Seq<MergeAnalysisResult>,
)
    requires
        matrix_shape(branches, matrix),
        branches.len() == 1,
    ensures
        matrix.len() == 0,
{
}

/// Whether the matrix holds an entry for the ordered pair of branch
/// indices `i` and `j`.
pub open spec fn has_pair_entry(
    branches: Seq<String>,
    matrix: Seq<MergeAnalysisResult>,
    i: int,
    j: int,
) -> bool {
    exists|k: int|
        0 <= k < matrix.len() && (#[trigger] matrix[k]).from_branch == branches[i]
            && matrix[k].to_branch == branches[j]
}

/// Whether the matrix holds an entry for every ordered pair of distinct
/// branch indices.
pub open spec fn covers_all_pairs(branches: Seq<String>, matrix: Seq<MergeAnalysisResult>) -> bool {
    forall|i: int, j: int|
        0 <= i < branches.len() && 0 <= j < branches.len() && i != j ==> #[trigger] has_pair_entry(
            branches,
            matrix,
            i,
            j,
        )
}

/// Law: over distinct candidate branches the matrix has exactly
/// `n * (n - 1)` entries, no entry compares a branch with itself, and every
/// ordered pair of distinct branches has an entry.
pub proof fn lemma_matrix_covers_all_ordered_pairs(
    branches: Seq<String>,
    matrix: Seq<MergeAnalysisResult>,
)
    requires
        matrix_shape(branches, matrix),
        forall|x: int, y: int| 0 <= x < y < branches.len() ==> branches[x]@ != branches[y]@,
    ensures
        matrix.len() == branches.len() * (branches.len() - 1),
        forall|k: int|
            0 <= k < matrix.len() ==> (#[trigger] matrix[k]).from_branch@
                != matrix[k].to_branch@,
        covers_all_pairs(branches, matrix),
{
    let n = branches.len() as int;
    assert forall|k: int|
        0 <= k < matrix.len() implies (#[trigger] matrix[k]).from_branch@
        != matrix[k].to_branch@ by {
        assert(n * (n - 1) > 0);
        assert(n >= 2) by (nonlinear_arith)
            requires
                n * (n - 1) > 0,
                n >= 0,
        ;
        lemma_pair_indices(n, k);
        let fi = pair_from(n, k);
        let ti = pair_to(n, k);
        if fi < ti {
            assert(branches[fi]@ != branches[ti]@);
        } else {
            assert(branches[ti]@ != branches[fi]@);
        }
    }
    assert forall|i: int, j: int|
        0 <= i < branches.len() && 0 <= j < branches.len() && i != j implies #[trigger] has_pair_entry(
        branches,
        matrix,
        i,
        j,
    ) by {
        assert(n >= 2);
        lemma_pair_index_of(n, i, j);
        let adj = if j < i {
            j
        } else {
            j - 1
        };
        let k = i * (n - 1) + adj;
        assert(0 <= k < matrix.len() && matrix[k].from_branch == branches[i]
            && matrix[k].to_branch == branches[j]);
    }
    assert(covers_all_pairs(branches, matrix));
}

/// Law: the layout of the matrix is a function of the candidate list alone.
/// Two matrices built over the same branch list have the same length and
/// agree entry by entry on source and target branch. The statuses are read
/// from the repository, which this model cannot see; that the statuses of
/// two runs over an unchanged repository also agree is checked by test.
pub proof fn lemma_matrix_layout_deterministic(
    branches: Seq<String>,
    first: Seq<MergeAnalysisResult>,
    second: Seq<MergeAnalysisResult>,
)
    requires
        matrix_shape(branches, first),
        matrix_shape(branches, second),
    ensures
        first.len() == second.len(),
        forall|k: int|
            0 <= k < first.len() ==> (#[trigger] first[k]).from_branch == second[k].from_branch
                && first[k].to_branch == second[k].to_branch,
{
}

/// Assembles the merge compatibility matrix: the status of merging
/// `branches[i]` into `branches[j]` for every ordered pair `i != j`, in the
/// order of the double loop with the source index outer. When `branches` is
/// empty, the candidate set is the up-to-`recent` most recently committed
/// remote-tracking branches instead.
///
/// The checkout position is captured once, before the first pair, and every
/// merge trial is followed by a hard reset back to it. A branch of the
/// candidate set that cannot be resolved, or a baseline that cannot be
/// captured or restored, aborts the whole run; a failure inside a single
/// trial only marks that pair.
pub fn build_matrix(repo: &git2::Repository, branches: Vec<String>, recent: usize) -> (r: Result<
    Vec<MergeAnalysisResult>,
    GitError,
>)
    ensures
        branches@.len() > 0 ==> (r matches Ok(matrix) ==> matrix_shape(branches@, matrix@)),
        branches@.len() == 0 ==> (r matches Ok(matrix) ==> exists|selected: Seq<String>|
            selected.len() <= recent && #[trigger] matrix_shape(selected, matrix@)),
{
    let ghost given = branches@;
    let branches = if branches.len() == 0 {
        match recent::select_recent(repo, recent) {
            Ok(selected) => selected,
            Err(error) => { return Err(error) },
        }
    } else {
        branches
    };

    let starting_head = match repo.head() {
        Ok(head) => head,
        Err(error) => { return Err(GitError::from_git(&error)) },
    };
    let baseline = match starting_head.peel_to_commit() {
        Ok(commit) => commit,
        Err(error) => { return Err(GitError::from_git(&error)) },
    };

    let n = branches.len();
    let mut matrix: Vec<MergeAnalysisResult> = Vec::new();
    let mut i: usize = 0;
    while i < n
        invariant
            n == branches@.len(),
            i <= n,
            matrix@.len() == i * (n - 1),
            forall|k: int|
                0 <= k < matrix@.len() ==> (#[trigger] matrix@[k]).from_branch == branches@[
                    pair_from(n as int, k)
                ] && matrix@[k].to_branch == branches@[pair_to(n as int, k)],
        decreases n - i,
    {
        let mut j: usize = 0;
        while j < n
            invariant
                n == branches@.len(),
                i < n,
                j <= n,
                matrix@.len() == i * (n - 1) + (if j <= i {
                    j as int
                } else {
                    j - 1
                }),
                forall|k: int|
                    0 <= k < matrix@.len() ==> (#[trigger] matrix@[k]).from_branch == branches@[
                        pair_from(n as int, k)
                    ] && matrix@[k].to_branch == branches@[pair_to(n as int, k)],
            decreases n - j,
        {
            if i != j {
                let status = match classify_pair(repo, &branches[i], &branches[j], &baseline) {
                    Ok(status) => status,
                    Err(error) => { return Err(error) },
                };
                let entry = MergeAnalysisResult {
                    from_branch: branches[i].clone(),
                    to_branch: branches[j].clone(),
                    status,
                };
                proof {
                    let nn = n as int;
                    let ii = i as int;
                    let jj = j as int;
                    let adj = if jj < ii {
                        jj
                    } else {
                        jj - 1
                    };
                    let k = matrix@.len() as int;
                    assert(k == ii * (nn - 1) + adj);
                    vstd::arithmetic::div_mod::lemma_fundamental_div_mod_converse_div(
                        k,
                        nn - 1,
                        ii,
                        adj,
                    );
                    vstd::arithmetic::div_mod::lemma_fundamental_div_mod_converse_mod(
                        k,
                        nn - 1,
                        ii,
                        adj,
                    );
                    assert(pair_from(nn, k) == ii);
                    assert(pair_to(nn, k) == jj);
                }
                matrix.push(entry);
            }
            j = j + 1;
        }
        proof {
            let nn = n as int;
            let ii = i as int;
            assert(ii * (nn - 1) + (nn - 1) == (ii + 1) * (nn - 1)) by (nonlinear_arith);
        }
        i = i + 1;
    }

    let result: Result<Vec<MergeAnalysisResult>, GitError> = Ok(matrix);
    proof {
        let produced = result->Ok_0;
        if given.len() > 0 {
            assert(matrix_shape(given, produced@));
        } else {
            assert(branches@.len() <= recent);
            assert(matrix_shape(branches@, produced@));
            assert(exists|selected: Seq<String>|
                selected.len() <= recent && #[trigger] matrix_shape(selected, produced@));
        }
    }
    result
}

} // verus!
