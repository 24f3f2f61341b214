use vstd::prelude::*;

verus! {

use vstd::string::StringExecFns;

/// The outcome of probing one ordered pair of branches.
///
/// Merging is directional, so the same two branches can give different
/// statuses in the two directions. `Unrelated` and `Unknown` are ordinary
/// reportable outcomes, not failures of the probe itself.
#[derive(Debug, PartialEq, Eq)]
pub enum MergeAnalysisStatus {
    /// The target branch already contains the whole history of the source.
    UpToDate,
    /// The target can be moved to the source's tip without a merge commit.
    FastForward,
    /// A three-way merge is possible and produces no conflicting hunks.
    Normal,
    /// A three-way merge is possible but at least one hunk conflicts.
    Conflicts,
    /// The two branches share no common ancestor.
    Unrelated { message: String },
    /// Some other failure occurred while probing this pair.
    Error { message: String },
    /// The probe returned no recognizable classification.
    Unknown,
}

/// The text a status is reported as.
pub open spec fn status_text(status: MergeAnalysisStatus) -> Seq<char> {
    match status {
        MergeAnalysisStatus::UpToDate => "✅✅ No changes: already up-to-date."@,
        MergeAnalysisStatus::FastForward => "🚀✅ No confilcts: fast-forward merge is possible."@,
        MergeAnalysisStatus::Normal => "🤝✅ No conflicts: automatic merge is possible."@,
        MergeAnalysisStatus::Conflicts => "🚧🔧 Found conflicts, have to resolve them manually."@,
        MergeAnalysisStatus::Unrelated { message } => "❌❌ No merge is possible - "@ + message@
            + "."@,
        MergeAnalysisStatus::Error { message } => "❌❌ No merge is possible - "@ + message@
            + "."@,
        MergeAnalysisStatus::Unknown => "❌🤔 Unknown merge analysis result."@,
    }
}

impl MergeAnalysisStatus {
    /// Renders the status as the one-line text it is reported as.
    pub fn text(&self) -> (r: String)
        ensures
            r@ == status_text(*self),
    {
        match self {
            MergeAnalysisStatus::UpToDate => "✅✅ No changes: already up-to-date.".to_owned(),
            MergeAnalysisStatus::FastForward => "🚀✅ No confilcts: fast-forward merge is possible.".to_owned(),
            MergeAnalysisStatus::Normal => "🤝✅ No conflicts: automatic merge is possible.".to_owned(),
            MergeAnalysisStatus::Conflicts => "🚧🔧 Found conflicts, have to resolve them manually.".to_owned(),
            MergeAnalysisStatus::Unrelated { message } => {
                let r = "❌❌ No merge is possible - ".to_owned().concat(message.as_str()).concat(
                    ".",
                );
                proof {
                    assert(r@ =~= status_text(*self));
                }
                r
            },
            MergeAnalysisStatus::Error { message } => {
                let r = "❌❌ No merge is possible - ".to_owned().concat(message.as_str()).concat(
                    ".",
                );
                proof {
                    assert(r@ =~= status_text(*self));
                }
                r
            },
            MergeAnalysisStatus::Unknown => "❌🤔 Unknown merge analysis result.".to_owned(),
        }
    }
}

/// One entry of the result matrix: the status of merging `from_branch` into
/// `to_branch`. Entries are created once and never mutated again.
#[derive(Debug, PartialEq, Eq)]
pub struct MergeAnalysisResult {
    pub from_branch: String,
    pub to_branch: String,
    pub status: MergeAnalysisStatus,
}

/// The text a matrix entry is reported as.
pub open spec fn result_text(result: MergeAnalysisResult) -> Seq<char> {
    result.from_branch@ + " -> "@ + result.to_branch@ + " : "@ + status_text(result.status)
}

impl MergeAnalysisResult {
    /// Renders the entry as the one-line text it is reported as.
    pub fn text(&self) -> (r: String)
        ensures
            r@ == result_text(*self),
    {
        let r = self.from_branch.clone().concat(" -> ").concat(self.to_branch.as_str()).concat(
            " : ",
        ).concat(self.status.text().as_str());
        proof {
            assert(r@ =~= result_text(*self));
        }
        r
    }
}

} // verus!
