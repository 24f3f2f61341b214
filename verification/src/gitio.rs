//! Trusted declarations for the git repository collaborator.
//!
//! Everything the engine knows about a repository on disk comes through the
//! items in this module. Each declaration names the `git2` item it relies on;
//! nothing here is verified, so the contracts state only what the `git2`
//! source shows for every outcome. Results that depend on the state of the
//! repository on disk carry no contract at all: the verified code treats each
//! such result as an arbitrary value of its type.

use vstd::prelude::*;

verus! {

#[verifier::external_type_specification]
#[verifier::external_body]
pub struct ExRepository(git2::Repository);

#[verifier::external_type_specification]
#[verifier::external_body]
pub struct ExReference<'a>(git2::Reference<'a>);

#[verifier::external_type_specification]
#[verifier::external_body]
pub struct ExAnnotatedCommit<'a>(git2::AnnotatedCommit<'a>);

#[verifier::external_type_specification]
#[verifier::external_body]
pub struct ExCommit<'a>(git2::Commit<'a>);

#[verifier::external_type_specification]
#[verifier::external_body]
pub struct ExTree<'a>(git2::Tree<'a>);

#[verifier::external_type_specification]
#[verifier::external_body]
pub struct ExIndex(git2::Index);

#[verifier::external_type_specification]
#[verifier::external_body]
pub struct ExOid(git2::Oid);

#[verifier::external_type_specification]
#[verifier::external_body]
pub struct ExGitDiagnostic(git2::Error);

#[verifier::external_type_specification]
#[verifier::external_body]
pub struct ExMergeAnalysis(git2::MergeAnalysis);

#[verifier::external_type_specification]
#[verifier::external_body]
pub struct ExMergeOptions(git2::MergeOptions);

/// Relies on git2::Repository::find_reference: looks a reference up by its
/// full name; which reference exists depends on the repository on disk, so
/// nothing is promised of the result.
pub assume_specification<'a>[ git2::Repository::find_reference ](
    repo: &'a git2::Repository,
    name: &str,
) -> Result<git2::Reference<'a>, git2::Error>;

/// Relies on git2::Repository::head: reads the current checkout position.
pub assume_specification<'a>[ git2::Repository::head ](
    repo: &'a git2::Repository,
) -> Result<git2::Reference<'a>, git2::Error>;

/// Relies on git2::Repository::reference_to_annotated_commit.
pub assume_specification<'a>[ git2::Repository::reference_to_annotated_commit ](
    repo: &'a git2::Repository,
    reference: &git2::Reference<'_>,
) -> Result<git2::AnnotatedCommit<'a>, git2::Error>;

/// Relies on git2::Repository::find_commit: looks a commit up by id.
pub assume_specification<'a>[ git2::Repository::find_commit ](
    repo: &'a git2::Repository,
    oid: git2::Oid,
) -> Result<git2::Commit<'a>, git2::Error>;

/// Relies on git2::Repository::merge_base: the nearest common ancestor of two
/// commits; fails with a not-found error when the histories are unrelated.
pub assume_specification[ git2::Repository::merge_base ](
    repo: &git2::Repository,
    one: git2::Oid,
    two: git2::Oid,
) -> Result<git2::Oid, git2::Error>;

/// Relies on git2::Repository::merge_trees: a three-way tree merge producing
/// an in-memory index, without touching the working tree.
pub assume_specification<'a>[ git2::Repository::merge_trees ](
    repo: &'a git2::Repository,
    ancestor_tree: &git2::Tree<'_>,
    our_tree: &git2::Tree<'_>,
    their_tree: &git2::Tree<'_>,
    opts: Option<&git2::MergeOptions>,
) -> Result<git2::Index, git2::Error>;

/// Relies on git2::Reference::peel_to_commit.
pub assume_specification<'repo>[ git2::Reference::<'repo>::peel_to_commit ](
    reference: &git2::Reference<'repo>,
) -> Result<git2::Commit<'repo>, git2::Error>;

/// Relies on git2::Commit::tree: the tree a commit points at.
pub assume_specification<'repo>[ git2::Commit::<'repo>::tree ](
    commit: &git2::Commit<'repo>,
) -> Result<git2::Tree<'repo>, git2::Error>;

/// Relies on git2::AnnotatedCommit::id: the commit id, a pure accessor.
pub assume_specification<'repo>[ git2::AnnotatedCommit::<'repo>::id ](
    commit: &git2::AnnotatedCommit<'repo>,
) -> git2::Oid;

/// Relies on git2::Index::has_conflicts: whether any entry of the index is in
/// a conflicted state.
pub assume_specification[ git2::Index::has_conflicts ](index: &git2::Index) -> bool;

/// Relies on git2::MergeAnalysis::is_fast_forward: whether the fast-forward
/// bit of the analysis is set.
pub assume_specification[ git2::MergeAnalysis::is_fast_forward ](
    analysis: &git2::MergeAnalysis,
) -> bool;

/// Relies on git2::MergeAnalysis::is_normal: whether the normal-merge bit of
/// the analysis is set.
pub assume_specification[ git2::MergeAnalysis::is_normal ](
    analysis: &git2::MergeAnalysis,
) -> bool;

/// Relies on git2::MergeAnalysis::is_up_to_date: whether the up-to-date bit
/// of the analysis is set.
pub assume_specification[ git2::MergeAnalysis::is_up_to_date ](
    analysis: &git2::MergeAnalysis,
) -> bool;

/// Relies on git2::MergeAnalysis::is_none: whether the no-merge-possible bit
/// of the analysis is set.
pub assume_specification[ git2::MergeAnalysis::is_none ](
    analysis: &git2::MergeAnalysis,
) -> bool;

/// Relies on git2::Repository::merge_analysis_for_ref: the merge
/// opportunities between a reference and one other commit. The preference
/// part of the answer is user configuration, not analysis, and is dropped.
#[verifier::external_body]
pub(crate) fn merge_analysis_for_ref(
    repo: &git2::Repository,
    our_ref: &git2::Reference<'_>,
    their_head: &git2::AnnotatedCommit<'_>,
) -> Result<git2::MergeAnalysis, git2::Error> {
    repo.merge_analysis_for_ref(our_ref, &[their_head]).map(|pair| pair.0)
}

/// Relies on git2::Repository::checkout_index: materializes the given index,
/// conflict markers included, into the working tree.
#[verifier::external_body]
pub(crate) fn checkout_index(
    repo: &git2::Repository,
    index: &mut git2::Index,
) -> Result<(), git2::Error> {
    repo.checkout_index(Some(index), None)
}

/// Relies on git2::Repository::reset with git2::ResetType::Hard: moves the
/// working tree and index back to the given commit.
#[verifier::external_body]
pub(crate) fn reset_hard(
    repo: &git2::Repository,
    target: &git2::Commit<'_>,
) -> Result<(), git2::Error> {
    repo.reset(target.as_object(), git2::ResetType::Hard, None)
}

/// Relies on git2::Repository::branches with git2::BranchType::Remote for
/// the listing, and on git2::Branch::name, git2::Reference::peel_to_commit,
/// git2::Commit::committer and git2::Time::seconds for each entry's name and
/// tip timestamp. A name or tip that cannot be read is reported as absent;
/// only a failure of the listing itself is an error, as the callers require.
#[verifier::external_body]
pub(crate) fn remote_branch_tips(
    repo: &git2::Repository,
) -> Result<Vec<crate::recent::BranchTip>, git2::Error> {
    let listing = repo.branches(Some(git2::BranchType::Remote))?;
    let mut tips = Vec::new();
    for entry in listing {
        let (branch, _kind) = entry?;
        let name = branch.name().ok().flatten().map(|text| text.to_string());
        let time = branch.get().peel_to_commit().ok().map(|c| c.committer().when().seconds());
        tips.push(crate::recent::BranchTip { name, time });
    }
    Ok(tips)
}

/// Relies on git2::Error::message: the diagnostic text of an error.
#[verifier::external_body]
pub(crate) fn error_message(error: &git2::Error) -> String {
    error.message().to_string()
}

/// Relies on git2::Error::code: whether the error is the not-found kind,
/// which is how an absent merge base is reported.
#[verifier::external_body]
pub(crate) fn error_is_not_found(error: &git2::Error) -> bool {
    error.code() == git2::ErrorCode::NotFound
}

} // verus!
