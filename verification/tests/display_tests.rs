use probranchinator::BooleanCLI;
use probranchinator::MergeAnalysisResult;
use probranchinator::MergeAnalysisStatus;
use probranchinator::OutputType;

#[test]
fn test_merge_analysis_status_display() {
    assert_eq!(
        MergeAnalysisStatus::UpToDate.text(),
        "✅✅ No changes: already up-to-date."
    );
    assert_eq!(
        MergeAnalysisStatus::FastForward.text(),
        "🚀✅ No confilcts: fast-forward merge is possible."
    );
    assert_eq!(
        MergeAnalysisStatus::Unrelated {
            message: "analysis gave none".to_owned()
        }
        .text(),
        "❌❌ No merge is possible - analysis gave none."
    );
    assert_eq!(
        MergeAnalysisStatus::Error {
            message: "error".to_owned()
        }
        .text(),
        "❌❌ No merge is possible - error."
    );
    assert_eq!(
        MergeAnalysisStatus::Unknown.text(),
        "❌🤔 Unknown merge analysis result."
    );
    assert_eq!(
        MergeAnalysisStatus::Conflicts.text(),
        "🚧🔧 Found conflicts, have to resolve them manually."
    );
    assert_eq!(
        MergeAnalysisStatus::Normal.text(),
        "🤝✅ No conflicts: automatic merge is possible."
    );
}

#[test]
fn test_merge_analysis_result_display() {
    assert_eq!(
        MergeAnalysisResult {
            from_branch: "from".to_owned(),
            to_branch: "to".to_owned(),
            status: MergeAnalysisStatus::UpToDate,
        }
        .text(),
        "from -> to : ✅✅ No changes: already up-to-date."
    );
}

#[test]
fn test_output_type_display() {
    assert_eq!(OutputType::Table.text(), "table");
    assert_eq!(OutputType::Markdown.text(), "markdown");
    assert_eq!(OutputType::Simple.text(), "simple");
    assert_eq!(OutputType::Json.text(), "json");
    assert_eq!(OutputType::Interactive.text(), "interactive");
}

#[test]
fn test_boolean_cli_display() {
    assert_eq!(BooleanCLI::True.text(), "true");
    assert_eq!(BooleanCLI::False.text(), "false");
}
