use vstd::prelude::*;

verus! {

/// An error reported by the repository layer.
///
/// `not_found` records whether the underlying failure was a lookup that found
/// nothing (in particular, a merge-base query between histories that share no
/// common ancestor); `message` carries the underlying diagnostic text.
#[derive(Debug)]
pub struct GitError {
    pub not_found: bool,
    pub message: String,
}

impl GitError {
    /// Reads the kind and the diagnostic text out of a repository-layer
    /// failure. Both parts depend on the failure itself, so nothing more can
    /// be said of the result.
    pub(crate) fn from_git(error: &git2::Error) -> GitError {
        GitError {
            not_found: crate::gitio::error_is_not_found(error),
            message: crate::gitio::error_message(error),
        }
    }
}

} // verus!
