use grove::add::build_add_worktree_args;
use grove::bare_clone::{build_fetch_origin_command, build_set_head_command};
use grove::command::{build_git_command, normalize_path_for_git, GitTarget};
use grove::porcelain::parse_worktree_lines;
use grove::tracking::{
    normalize_tracking_reference, normalize_tracking_reference_input,
    parse_remote_tracking_reference, tracked_branch_name,
};
use grove::worktree::{match_worktree_by_name, Worktree};

fn make_worktree(path: &str, branch: &str) -> Worktree {
    Worktree {
        path: path.to_string(),
        branch: branch.to_string(),
        head: "abc123".to_string(),
        created_at: 0,
        is_dirty: false,
        is_locked: false,
        is_prunable: false,
        is_main: false,
    }
}

#[test]
fn parse_locked_worktree() {
    let output = "worktree /path/to/worktree\nHEAD abc123def456\nbranch refs/heads/feature-branch\nlocked\n";
    let worktrees = parse_worktree_lines(output);
    assert_eq!(worktrees.len(), 1);
    assert!(worktrees[0].is_locked);
}

#[test]
fn parse_prunable_worktree() {
    let output = "worktree /path/to/worktree\nHEAD abc123def456\nbranch refs/heads/stale-branch\nprunable\n";
    let worktrees = parse_worktree_lines(output);
    assert_eq!(worktrees.len(), 1);
    assert!(worktrees[0].is_prunable);
}

#[test]
fn parse_detached_head() {
    let output = "worktree /path/to/worktree\nHEAD abc123def456\ndetached\n";
    let worktrees = parse_worktree_lines(output);
    assert_eq!(worktrees.len(), 1);
    assert_eq!(worktrees[0].branch.as_deref(), Some("detached HEAD"));
}

#[test]
fn parse_main_branch() {
    let output = "worktree /path/to/main-worktree\nHEAD abc123def456\nbranch refs/heads/main\n";
    let worktrees = parse_worktree_lines(output);
    assert_eq!(worktrees.len(), 1);
    assert_eq!(worktrees[0].branch.as_deref(), Some("main"));
}

#[test]
fn parse_master_branch() {
    let output =
        "worktree /path/to/master-worktree\nHEAD abc123def456\nbranch refs/heads/master\n";
    let worktrees = parse_worktree_lines(output);
    assert_eq!(worktrees.len(), 1);
    assert_eq!(worktrees[0].branch.as_deref(), Some("master"));
}

#[test]
fn skip_bare_repository() {
    let output = "worktree /path/to/bare-repo\nbare\n\nworktree /path/to/regular-worktree\nHEAD abc123def456\nbranch refs/heads/feature\n";
    let worktrees = parse_worktree_lines(output);
    assert_eq!(worktrees.len(), 1);
    assert_eq!(worktrees[0].branch.as_deref(), Some("feature"));
}

#[test]
fn parse_multiple_worktrees() {
    let output = "worktree /path/to/main\nHEAD abc123\nbranch refs/heads/main\n\nworktree /path/to/feature1\nHEAD def456\nbranch refs/heads/feature/one\nlocked\n\nworktree /path/to/feature2\nHEAD 789abc\nbranch refs/heads/feature/two\nprunable\n";
    let worktrees = parse_worktree_lines(output);
    assert_eq!(worktrees.len(), 3);
    assert_eq!(worktrees[0].branch.as_deref(), Some("main"));
    assert!(worktrees[1].is_locked);
    assert!(worktrees[2].is_prunable);
}

#[test]
fn normalize_path_for_git_strips_windows_extended_prefix() {
    assert_eq!(
        normalize_path_for_git(r"\\?\C:\Users\dev\repo\feature-worktree"),
        r"C:\Users\dev\repo\feature-worktree"
    );
}

#[test]
fn normalize_path_for_git_converts_unc_extended_prefix() {
    assert_eq!(
        normalize_path_for_git(r"\\?\UNC\server\share\repo\feature-worktree"),
        r"\\server\share\repo\feature-worktree"
    );
}

#[test]
fn normalize_path_for_git_preserves_normal_paths() {
    let path = "/home/dev/repo/feature-worktree";
    assert_eq!(normalize_path_for_git(path), path);
}

#[test]
fn match_worktree_by_name_trims_trailing_slashes() {
    let worktrees = vec![
        make_worktree("/repo/main", "main"),
        make_worktree("/repo/feature/my-branch", "feature/my-branch"),
    ];

    let found = match_worktree_by_name(&worktrees, "feature/my-branch/");
    assert_eq!(
        found.map(|wt| wt.branch.as_str()),
        Some("feature/my-branch")
    );
}

#[test]
fn match_worktree_by_name_suffix_match_with_trailing_slash() {
    let worktrees = vec![make_worktree(
        "/repo/feature/my-branch",
        "feature/my-branch",
    )];

    let found = match_worktree_by_name(&worktrees, "my-branch/");
    assert_eq!(
        found.map(|wt| wt.branch.as_str()),
        Some("feature/my-branch")
    );
}

#[test]
fn build_add_worktree_args_for_new_branch_with_track() {
    let args = build_add_worktree_args(
        "/tmp/repo/pr-9148",
        "pr-9148",
        true,
        Some("origin/some-remote-branch"),
    );

    assert_eq!(
        args,
        vec![
            "worktree",
            "add",
            "-b",
            "pr-9148",
            "--track",
            "/tmp/repo/pr-9148",
            "origin/some-remote-branch",
        ]
    );
}

#[test]
fn build_add_worktree_args_for_new_branch_without_track() {
    let args = build_add_worktree_args("/tmp/repo/feature", "feature", true, None);

    assert_eq!(
        args,
        vec!["worktree", "add", "-b", "feature", "/tmp/repo/feature"]
    );
}

#[test]
fn build_add_worktree_args_for_existing_branch_ignores_track() {
    let args = build_add_worktree_args(
        "/tmp/repo/existing",
        "existing",
        false,
        Some("origin/existing"),
    );

    assert_eq!(
        args,
        vec!["worktree", "add", "/tmp/repo/existing", "existing"]
    );
}

#[test]
fn parse_remote_tracking_reference_short_form() {
    assert_eq!(
        parse_remote_tracking_reference("origin/feature/test"),
        Some(("origin", "feature/test"))
    );
}

#[test]
fn parse_remote_tracking_reference_full_ref_form() {
    assert_eq!(
        parse_remote_tracking_reference("refs/remotes/upstream/main"),
        Some(("upstream", "main"))
    );
}

#[test]
fn parse_remote_tracking_reference_rejects_non_remote_refs() {
    assert_eq!(
        parse_remote_tracking_reference("refs/heads/feature/test"),
        None
    );
    assert_eq!(parse_remote_tracking_reference("origin"), None);
}

#[test]
fn normalize_tracking_reference_input_trims_trailing_slash() {
    assert_eq!(
        normalize_tracking_reference_input("origin/feature/test/").unwrap(),
        "origin/feature/test"
    );
}

#[test]
fn normalize_tracking_reference_input_normalizes_full_ref() {
    assert_eq!(
        normalize_tracking_reference_input("refs/remotes/origin/feature/test/").unwrap(),
        "origin/feature/test"
    );
}

#[test]
fn normalize_tracking_reference_input_rejects_empty_branch() {
    assert!(normalize_tracking_reference_input("origin/").is_err());
}

#[test]
fn normalize_tracking_reference_input_rejects_empty_path_segment() {
    assert!(normalize_tracking_reference_input("origin/feature//test").is_err());
}

#[test]
fn tracked_branch_name_returns_remote_branch_part() {
    assert_eq!(
        tracked_branch_name("origin/cursor/track-flag-worktree-issue-94b3"),
        Some("cursor/track-flag-worktree-issue-94b3")
    );
}

#[test]
fn normalize_tracking_reference_for_full_ref() {
    assert_eq!(
        normalize_tracking_reference("refs/remotes/origin/feature/test"),
        "origin/feature/test"
    );
}

#[test]
fn normalize_tracking_reference_keeps_short_form() {
    assert_eq!(
        normalize_tracking_reference("origin/feature/test"),
        "origin/feature/test"
    );
}

#[test]
fn build_git_command_bare_repo_sets_git_dir_env_var() {
    let repo_path = "/tmp/grove-test/repo.git";
    let cmd = build_git_command(GitTarget::BareRepo(repo_path), &["worktree", "list"]);

    assert!(
        cmd.git_dir.is_some(),
        "BareRepo target must set GIT_DIR so git operates explicitly on the \
         bare repository, satisfying safe.bareRepository=explicit"
    );
    assert_eq!(
        cmd.git_dir.as_deref(),
        Some(repo_path),
        "GIT_DIR must point at the bare repository path"
    );
}

#[test]
fn build_git_command_bare_repo_does_not_set_current_dir() {
    let repo_path = "/tmp/grove-test/repo.git";
    let cmd = build_git_command(GitTarget::BareRepo(repo_path), &["worktree", "list"]);

    // A working directory on the bare repo path would re-enable the
    // safe.bareRepository=explicit failure mode that GIT_DIR is meant to avoid.
    let working_dir = cmd.current_dir;
    assert!(
        working_dir.is_none(),
        "BareRepo target must not set a working directory; rely on GIT_DIR. \
         Got working_dir={:?}",
        working_dir
    );
}

#[test]
fn build_git_command_bare_repo_normalizes_windows_extended_prefix() {
    let repo_path = r"\\?\D:\repo\bare.git";
    let cmd = build_git_command(GitTarget::BareRepo(repo_path), &["worktree", "list"]);

    assert_eq!(
        cmd.git_dir.as_deref(),
        Some(r"D:\repo\bare.git"),
        "GIT_DIR must have the Windows extended-length prefix stripped"
    );
}

#[test]
fn build_git_command_work_tree_sets_current_dir_and_no_git_dir() {
    let worktree_path = "/tmp/grove-test/feature-x";
    let cmd = build_git_command(
        GitTarget::WorkTree(worktree_path),
        &["status", "--porcelain"],
    );

    assert_eq!(
        cmd.current_dir.as_deref(),
        Some(worktree_path),
        "WorkTree target must set current_dir to the worktree path so git's \
         CWD-based discovery finds the repository"
    );
    assert!(
        cmd.git_dir.is_none(),
        "WorkTree target must not set GIT_DIR; that would override git's \
         CWD-based discovery and could point at the wrong repository"
    );
}

#[test]
fn build_git_command_unbound_sets_neither_current_dir_nor_git_dir() {
    let cmd = build_git_command(
        GitTarget::Unbound,
        &["clone", "--bare", "https://x/y.git", "y.git"],
    );

    assert!(
        cmd.current_dir.is_none(),
        "Unbound target must not set current_dir"
    );
    assert!(cmd.git_dir.is_none(), "Unbound target must not set GIT_DIR");
}

#[test]
fn build_git_command_forwards_args_in_order() {
    let repo_path = "/tmp/grove-test/repo.git";
    let cmd = build_git_command(
        GitTarget::BareRepo(repo_path),
        &["worktree", "list", "--porcelain"],
    );

    assert_eq!(cmd.args, vec!["worktree", "list", "--porcelain"]);
}

#[test]
fn build_fetch_origin_command_uses_bare_repo_target() {
    let target_dir = "/tmp/grove-test/just-cloned.git";
    let cmd = build_fetch_origin_command(target_dir);

    assert_eq!(
        cmd.git_dir.as_deref(),
        Some(target_dir),
        "fetch-origin command must identify the bare repo via GIT_DIR \
         (not via current_dir) so it works under \
         safe.bareRepository=explicit"
    );
    assert!(
        cmd.current_dir.is_none(),
        "fetch-origin command must not set current_dir on the bare repo \
         path; that re-enables the safe.bareRepository=explicit failure \
         mode. Got current_dir={:?}",
        cmd.current_dir
    );
    assert_eq!(cmd.args, vec!["fetch", "origin"]);
}

#[test]
fn build_set_head_command_uses_bare_repo_target() {
    let target_dir = "/tmp/grove-test/just-cloned.git";
    let cmd = build_set_head_command(target_dir);

    assert_eq!(
        cmd.git_dir.as_deref(),
        Some(target_dir),
        "set-head command must identify the bare repo via GIT_DIR \
         (not via current_dir) so it works under \
         safe.bareRepository=explicit"
    );
    assert!(
        cmd.current_dir.is_none(),
        "set-head command must not set current_dir on the bare repo \
         path; that re-enables the safe.bareRepository=explicit failure \
         mode. Got current_dir={:?}",
        cmd.current_dir
    );
    assert_eq!(cmd.args, vec!["remote", "set-head", "origin", "--auto"]);
}
