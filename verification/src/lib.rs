//! Merge compatibility matrix engine for git repositories.
//!
//! For every ordered pair of branches in a repository, this library decides
//! whether one branch could be merged into the other and by what mechanism:
//! already up to date, fast-forward, clean automatic three-way merge, or a
//! merge with conflicts. The pairwise relation is directional, so all
//! ordered pairs are probed, and every merge trial is followed by a hard
//! reset of the working tree to the checkout position captured before the
//! first pair.
//!
//! Everything the engine learns from the repository on disk comes through
//! the trusted declarations in `gitio`; the selection, ranking and matrix
//! assembly around them are verified.

mod analysis;
mod cli;
mod errors;
mod gitio;
mod interactive;
mod outcome;
mod recent;

pub use analysis::MergeTrialOutcome;
pub use analysis::PairRelation;
pub use analysis::build_matrix;
pub use analysis::classify_relation;
pub use analysis::covers_all_pairs;
pub use analysis::has_pair_entry;
pub use analysis::lemma_matrix_covers_all_ordered_pairs;
pub use analysis::lemma_matrix_layout_deterministic;
pub use analysis::lemma_single_branch_empty_matrix;
pub use analysis::matrix_shape;
pub use analysis::pair_from;
pub use analysis::pair_to;
pub use analysis::relation_of;
pub use analysis::remote_ref;
pub use analysis::outcome_of_base_failure;
pub use analysis::outcome_of_merged_index;
pub use analysis::status_of_relation;
pub use analysis::status_of_trial;
pub use analysis::trial_status;
pub use cli::BooleanCLI;
pub use cli::OutputType;
pub use cli::boolean_cli_text;
pub use cli::output_type_text;
pub use errors::GitError;
pub use interactive::App;
pub use interactive::next_selection;
pub use interactive::previous_selection;
pub use outcome::MergeAnalysisResult;
pub use outcome::MergeAnalysisStatus;
pub use outcome::result_text;
pub use outcome::status_text;
pub use recent::BranchTip;
pub use recent::Candidate;
pub use recent::candidates_of;
pub use recent::insert_desc;
pub use recent::keeps;
pub use recent::lemma_sort_desc_ordered;
pub use recent::lemma_strip_origin_prefixed;
pub use recent::most_recent_first;
pub use recent::select_from_tips;
pub use recent::select_recent;
pub use recent::selection;
pub use recent::sort_desc;
pub use recent::strip_origin;
