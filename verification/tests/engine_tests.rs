use probranchinator::MergeAnalysisResult;
use probranchinator::MergeAnalysisStatus;
use probranchinator::build_matrix;
use probranchinator::select_recent;

fn init_repo() -> (tempfile::TempDir, git2::Repository) {
    let dir = tempfile::tempdir().expect("failed to create a temporary directory");
    let repo = git2::Repository::init(dir.path()).expect("failed to init a repository");
    (dir, repo)
}

fn signature(time: i64) -> git2::Signature<'static> {
    git2::Signature::new("tester", "tester@example.com", &git2::Time::new(time, 0))
        .expect("failed to build a signature")
}

/// Writes a commit whose tree holds exactly `files`, without touching the
/// working tree.
fn commit_files(
    repo: &git2::Repository,
    update_ref: Option<&str>,
    message: &str,
    files: &[(&str, &str)],
    parents: &[&git2::Commit],
    time: i64,
) -> git2::Oid {
    let mut builder = repo.treebuilder(None).expect("failed to start a tree");
    for (name, content) in files {
        let blob = repo.blob(content.as_bytes()).expect("failed to write a blob");
        builder
            .insert(*name, blob, 0o100644)
            .expect("failed to add a tree entry");
    }
    let tree_id = builder.write().expect("failed to write a tree");
    let tree = repo.find_tree(tree_id).expect("failed to read the tree back");
    let author = signature(time);
    repo.commit(update_ref, &author, &author, message, &tree, parents)
        .expect("failed to commit")
}

fn remote_branch(repo: &git2::Repository, name: &str, target: git2::Oid) {
    let full = format!("refs/remotes/origin/{}", name);
    repo.reference(&full, target, true, "test setup")
        .expect("failed to create a remote-tracking ref");
}

fn remote_head_alias(repo: &git2::Repository, target_branch: &str) {
    let target = format!("refs/remotes/origin/{}", target_branch);
    repo.reference_symbolic("refs/remotes/origin/HEAD", &target, true, "test setup")
        .expect("failed to create the origin/HEAD alias");
}

fn assert_result(
    results: &[MergeAnalysisResult],
    from: &str,
    to: &str,
    expected: MergeAnalysisStatus,
) {
    let found = results
        .iter()
        .find(|entry| entry.from_branch == from && entry.to_branch == to)
        .expect("no entry for this ordered pair");
    assert_eq!(found.status, expected);
}

#[test]
fn test_analysis_one_branch() {
    let (_dir, repo) = init_repo();
    let initial = commit_files(&repo, Some("HEAD"), "initial commit", &[], &[], 1_000);
    remote_branch(&repo, "master", initial);
    remote_head_alias(&repo, "master");

    let result = build_matrix(&repo, vec![], 2).expect("analysis failed");

    // With only one branch there is nothing to merge.
    assert_eq!(result.len(), 0);
}

#[test]
fn test_analysis_up_to_date_and_fast_forward() {
    let (_dir, repo) = init_repo();
    let initial = commit_files(&repo, Some("HEAD"), "initial commit", &[], &[], 1_000);
    let base = repo.find_commit(initial).expect("missing base commit");
    let ahead = commit_files(
        &repo,
        None,
        "first commit",
        &[("note.txt", "note")],
        &[&base],
        2_000,
    );
    remote_branch(&repo, "master", initial);
    remote_branch(&repo, "test-branch", ahead);
    remote_head_alias(&repo, "master");

    let result = build_matrix(&repo, vec![], 2).expect("analysis failed");

    assert_eq!(result.len(), 2);
    // No commit of master is missing in test-branch.
    assert_result(&result, "master", "test-branch", MergeAnalysisStatus::UpToDate);
    // test-branch is one commit ahead of master on the same line of history.
    assert_result(
        &result,
        "test-branch",
        "master",
        MergeAnalysisStatus::FastForward,
    );
}

#[test]
fn test_analysis_unrelated_branches() {
    let (_dir, repo) = init_repo();
    let initial = commit_files(&repo, Some("HEAD"), "initial commit", &[], &[], 1_000);
    let separate = commit_files(&repo, None, "initial commit 2", &[], &[], 2_000);
    remote_branch(&repo, "master", initial);
    remote_branch(&repo, "test-branch", separate);

    let result = build_matrix(
        &repo,
        vec!["test-branch".to_string(), "master".to_string()],
        0,
    )
    .expect("analysis failed");

    let expected = MergeAnalysisStatus::Unrelated {
        message: "no merge base found".to_string(),
    };
    assert_result(&result, "master", "test-branch", expected);
    let expected = MergeAnalysisStatus::Unrelated {
        message: "no merge base found".to_string(),
    };
    assert_result(&result, "test-branch", "master", expected);
}

#[test]
fn test_analysis_normal_merge_no_conflicts() {
    let (_dir, repo) = init_repo();
    let initial = commit_files(&repo, Some("HEAD"), "initial commit", &[], &[], 1_000);
    let base = repo.find_commit(initial).expect("missing base commit");
    let on_master = commit_files(
        &repo,
        None,
        "test commit",
        &[("test.txt", "test")],
        &[&base],
        2_000,
    );
    let on_branch = commit_files(
        &repo,
        None,
        "test commit",
        &[("test2.txt", "test")],
        &[&base],
        3_000,
    );
    remote_branch(&repo, "master", on_master);
    remote_branch(&repo, "test-branch", on_branch);

    let result = build_matrix(
        &repo,
        vec!["test-branch".to_string(), "master".to_string()],
        0,
    )
    .expect("analysis failed");

    // The two branches touch disjoint files, so both directions merge
    // automatically.
    assert_result(&result, "master", "test-branch", MergeAnalysisStatus::Normal);
    assert_result(&result, "test-branch", "master", MergeAnalysisStatus::Normal);
}

#[test]
fn test_analysis_normal_merge_with_conflicts() {
    let (_dir, repo) = init_repo();
    let initial = commit_files(&repo, Some("HEAD"), "initial commit", &[], &[], 1_000);
    let base = repo.find_commit(initial).expect("missing base commit");
    let on_master = commit_files(
        &repo,
        None,
        "test commit",
        &[("test.txt", "text 1")],
        &[&base],
        2_000,
    );
    let on_branch = commit_files(
        &repo,
        None,
        "test commit",
        &[("test.txt", "text 2")],
        &[&base],
        3_000,
    );
    remote_branch(&repo, "master", on_master);
    remote_branch(&repo, "test-branch", on_branch);

    let result = build_matrix(
        &repo,
        vec!["test-branch".to_string(), "master".to_string()],
        0,
    )
    .expect("analysis failed");

    // Both sides changed the same region of the same file.
    assert_result(&result, "master", "test-branch", MergeAnalysisStatus::Conflicts);
    assert_result(&result, "test-branch", "master", MergeAnalysisStatus::Conflicts);
}

#[test]
fn test_recent() {
    let (_dir, repo) = init_repo();
    let initial = commit_files(&repo, Some("HEAD"), "initial commit", &[], &[], 1_000);
    let base = repo.find_commit(initial).expect("missing base commit");
    let newer = commit_files(
        &repo,
        None,
        "first commit",
        &[("note.txt", "note")],
        &[&base],
        2_000,
    );
    remote_branch(&repo, "master", initial);
    remote_branch(&repo, "test-branch", newer);
    remote_head_alias(&repo, "master");

    let recent_branches = select_recent(&repo, 2).expect("selection failed");

    // The most recently committed branch comes first.
    assert_eq!(recent_branches[0], "test-branch");
    assert_eq!(recent_branches[1], "master");
}

#[test]
fn test_matrix_idempotent_and_restores_checkout() {
    let (_dir, repo) = init_repo();
    let initial = commit_files(&repo, Some("HEAD"), "initial commit", &[], &[], 1_000);
    let base = repo.find_commit(initial).expect("missing base commit");
    let on_master = commit_files(
        &repo,
        None,
        "test commit",
        &[("test.txt", "text 1")],
        &[&base],
        2_000,
    );
    let on_branch = commit_files(
        &repo,
        None,
        "test commit",
        &[("test.txt", "text 2")],
        &[&base],
        3_000,
    );
    remote_branch(&repo, "master", on_master);
    remote_branch(&repo, "test-branch", on_branch);
    remote_head_alias(&repo, "master");

    let head_before = repo
        .head()
        .expect("no HEAD")
        .peel_to_commit()
        .expect("HEAD is not a commit")
        .id();

    let first = build_matrix(&repo, vec![], 5).expect("first run failed");
    let second = build_matrix(&repo, vec![], 5).expect("second run failed");

    assert_eq!(first, second);

    let head_after = repo
        .head()
        .expect("no HEAD")
        .peel_to_commit()
        .expect("HEAD is not a commit")
        .id();
    assert_eq!(head_before, head_after);
}

#[test]
fn test_matrix_order_covers_all_ordered_pairs() {
    let (_dir, repo) = init_repo();
    let initial = commit_files(&repo, Some("HEAD"), "initial commit", &[], &[], 1_000);
    remote_branch(&repo, "alpha", initial);
    remote_branch(&repo, "beta", initial);
    remote_branch(&repo, "gamma", initial);

    let branches = vec![
        "alpha".to_string(),
        "beta".to_string(),
        "gamma".to_string(),
    ];
    let result = build_matrix(&repo, branches, 0).expect("analysis failed");

    // Three distinct branches give 3 * 2 ordered pairs, source index outer.
    let pairs: Vec<(&str, &str)> = result
        .iter()
        .map(|entry| (entry.from_branch.as_str(), entry.to_branch.as_str()))
        .collect();
    assert_eq!(
        pairs,
        vec![
            ("alpha", "beta"),
            ("alpha", "gamma"),
            ("beta", "alpha"),
            ("beta", "gamma"),
            ("gamma", "alpha"),
            ("gamma", "beta"),
        ]
    );
    for entry in &result {
        assert_ne!(entry.from_branch, entry.to_branch);
        // All three names point at the same tip.
        assert_eq!(entry.status, MergeAnalysisStatus::UpToDate);
    }
}

#[test]
fn test_matrix_missing_branch_is_fatal() {
    let (_dir, repo) = init_repo();
    let initial = commit_files(&repo, Some("HEAD"), "initial commit", &[], &[], 1_000);
    remote_branch(&repo, "master", initial);

    let error = build_matrix(&repo, vec!["ghost".to_string(), "master".to_string()], 0)
        .err()
        .expect("a missing branch must abort the run");
    assert!(error.not_found);
    assert!(!error.message.is_empty());
}
