use chrono::{DateTime, Utc};
use grove::add::{
    add_worktree, auto_setup_merge_disabled, branch_has_upstream, ensure_tracking_reference,
    maybe_set_default_upstream, set_branch_upstream,
};
use grove::bare_clone::clone_bare_repository;
use grove::branch::{
    branch_exists, get_default_branch, is_branch_merged, is_squash_merged, reference_exists,
    sync_branch,
};
use grove::command::{project_root, repo_command, repo_path, GitCommand, RepoContext};
use grove::list::{find_worktree_by_name, list_worktrees};
use grove::porcelain::{parse_worktree_lines, PartialWorktree, DETACHED_HEAD};
use grove::remove::{remove_worktree, remove_worktrees};
use grove::session::{git_raw, GitReply, Step};
use grove::times::{
    metadata_created_at, system_time_to_datetime, ClockTime, FallbackTimes, FileTimes,
};
use grove::tracking::{
    contains_invalid_ref_char, invalid_tracking_reference, is_valid_ref_component,
    is_valid_ref_path, normalize_tracking_reference, normalize_tracking_reference_input,
    parse_remote_tracking_reference, tracked_branch_name, trim_trailing_branch_slashes,
};
use grove::worktree::{
    complete_worktree_info, match_worktree_by_name, position_by_name, Worktree, MAIN_BRANCHES,
};

const REPO: &str = "/work/demo/demo.git";

fn context() -> RepoContext {
    RepoContext::new(REPO.to_string(), "/work/demo".to_string())
}

fn ok(stdout: &str) -> GitReply {
    GitReply::exited(true, stdout.as_bytes(), b"")
}

fn fails(stderr: &str) -> GitReply {
    GitReply::exited(false, b"", stderr.as_bytes())
}

fn not_run() -> GitReply {
    GitReply::NotRun("no such file".to_string())
}

fn bare<T>(args: &[&str]) -> Step<T> {
    bare_at(REPO, args)
}

fn bare_at<T>(git_dir: &str, args: &[&str]) -> Step<T> {
    Step::Run(GitCommand {
        git_dir: Some(git_dir.to_string()),
        current_dir: None,
        args: args.iter().map(|arg| arg.to_string()).collect(),
    })
}

fn status_in<T>(path: &str) -> Step<T> {
    Step::Run(GitCommand {
        git_dir: None,
        current_dir: Some(path.to_string()),
        args: vec!["status".to_string(), "--porcelain".to_string()],
    })
}

fn failed<T>(message: &str) -> Step<T> {
    Step::Failed(message.to_string())
}

fn make_worktree(path: &str, branch: &str) -> Worktree {
    Worktree {
        path: path.to_string(),
        branch: branch.to_string(),
        head: "abc123".to_string(),
        created_at: 0,
        is_dirty: false,
        is_locked: false,
        is_prunable: false,
        is_main: false,
    }
}

// ---- replies and commands ----

#[test]
fn context_keeps_its_paths() {
    let context = context();
    assert_eq!(repo_path(&context), REPO);
    assert_eq!(project_root(&context), "/work/demo");
    let command = repo_command(&context, &["gc"]);
    assert_eq!(command.git_dir.as_deref(), Some(REPO));
    assert_eq!(command.current_dir, None);
    assert_eq!(command.args, vec!["gc"]);
}

#[test]
fn replies_are_read_as_output_or_error() {
    assert_eq!(git_raw(&ok(" out \n")), Ok(" out \n".to_string()));
    assert_eq!(git_raw(&fails(" fatal: bad \n")), Err("fatal: bad".to_string()));
    assert_eq!(
        git_raw(&not_run()),
        Err("Failed to execute git: no such file".to_string())
    );
}

#[test]
fn output_that_is_no_utf8_is_replaced() {
    let reply = GitReply::exited(true, b"caf\xe9 \xc3\xa9", b"");
    assert_eq!(git_raw(&reply), Ok("caf\u{fffd} \u{e9}".to_string()));
    let reply = GitReply::exited(false, b"", b"\xff!\n");
    assert_eq!(git_raw(&reply), Err("\u{fffd}!".to_string()));
    let reply = GitReply::exited(true, "grün\n".as_bytes(), b"");
    assert_eq!(
        reply,
        GitReply::Exited {
            success: true,
            stdout: "grün\n".to_string(),
            stderr: String::new(),
        }
    );
}

// ---- branches ----

#[test]
fn references_are_verified() {
    let context = context();
    assert_eq!(
        reference_exists(&context, "origin/main", &[]),
        bare(&["rev-parse", "--verify", "origin/main"])
    );
    assert_eq!(reference_exists(&context, "origin/main", &[ok("abc\n")]), Step::Done(true));
    assert_eq!(reference_exists(&context, "origin/main", &[fails("")]), Step::Done(false));
    assert_eq!(reference_exists(&context, "origin/main", &[not_run()]), Step::Done(false));
    assert_eq!(
        branch_exists(&context, "feature/x", &[]),
        bare(&["rev-parse", "--verify", "refs/heads/feature/x"])
    );
    assert_eq!(branch_exists(&context, "feature/x", &[ok("")]), Step::Done(true));
    assert_eq!(branch_exists(&context, "feature/x", &[fails("")]), Step::Done(false));
}

#[test]
fn merged_branches_are_listed() {
    let context = context();
    assert_eq!(
        is_branch_merged(&context, "feature", "main", &[]),
        bare(&["branch", "--merged", "main"])
    );
    for output in ["  feature\n* main\n", "* feature\n  main\n", "  main\r\n  feature\r\n"] {
        assert_eq!(
            is_branch_merged(&context, "feature", "main", &[ok(output)]),
            Step::Done(true)
        );
    }
    assert_eq!(
        is_branch_merged(&context, "feature", "main", &[fails("fatal: bad base\n")]),
        failed("Failed to check if branch feature is merged: fatal: bad base")
    );
    assert_eq!(
        is_branch_merged(&context, "feature", "main", &[not_run()]),
        failed("Failed to check if branch feature is merged: Failed to execute git: no such file")
    );
}

#[test]
fn an_unlisted_branch_may_be_squash_merged() {
    let context = context();
    let listed = "  feature-2\n+ feature\n* main\n";
    assert_eq!(
        is_branch_merged(&context, "feature", "main", &[ok(listed)]),
        bare(&["diff", "--name-only", "main...feature"])
    );
    assert_eq!(
        is_branch_merged(&context, "feature", "main", &[ok(listed), ok("a.rs\n\nb c.rs\n")]),
        bare(&["diff", "--name-only", "main", "feature", "--", "a.rs", "b c.rs"])
    );
    assert_eq!(
        is_branch_merged(
            &context,
            "feature",
            "main",
            &[ok(listed), ok("a.rs\n"), ok("\n")]
        ),
        Step::Done(true)
    );
    assert_eq!(
        is_branch_merged(
            &context,
            "feature",
            "main",
            &[ok(listed), ok("a.rs\n"), ok("a.rs\n")]
        ),
        Step::Done(false)
    );
}

#[test]
fn an_empty_branch_name_is_never_listed() {
    assert_eq!(
        is_branch_merged(&context(), "", "main", &[ok("\n* \n")]),
        bare(&["diff", "--name-only", "main..."])
    );
}

#[test]
fn a_branch_without_changes_is_squash_merged() {
    let context = context();
    assert_eq!(is_squash_merged(&context, "f", "main", &[ok("")]), Step::Done(true));
    assert_eq!(is_squash_merged(&context, "f", "main", &[ok("\n\n")]), Step::Done(true));
    assert_eq!(is_squash_merged(&context, "f", "main", &[fails("bad")]), Step::Done(true));
    assert_eq!(
        is_squash_merged(&context, "f", "main", &[ok("x\n"), fails("bad")]),
        Step::Done(true)
    );
    assert_eq!(
        is_squash_merged(&context, "f", "main", &[ok("x\n"), ok("x\n")]),
        Step::Done(false)
    );
}

#[test]
fn the_default_branch_is_that_of_origin() {
    let context = context();
    assert_eq!(
        get_default_branch(&context, &[]),
        bare(&["symbolic-ref", "refs/remotes/origin/HEAD"])
    );
    assert_eq!(
        get_default_branch(&context, &[ok("refs/remotes/origin/release/next\n")]),
        Step::Done("release/next".to_string())
    );
}

#[test]
fn the_default_branch_falls_back_to_main_and_master() {
    let context = context();
    assert_eq!(
        get_default_branch(&context, &[fails("")]),
        bare(&["rev-parse", "--verify", "refs/heads/main"])
    );
    assert_eq!(
        get_default_branch(&context, &[fails(""), ok("")]),
        Step::Done("main".to_string())
    );
    assert_eq!(
        get_default_branch(&context, &[fails(""), fails("")]),
        bare(&["rev-parse", "--verify", "refs/heads/master"])
    );
    assert_eq!(
        get_default_branch(&context, &[fails(""), fails(""), ok("")]),
        Step::Done("master".to_string())
    );
    assert_eq!(
        get_default_branch(&context, &[fails(""), fails(""), fails("")]),
        failed("Could not determine default branch. Please specify with --branch.")
    );
}

#[test]
fn a_branch_is_synchronised_from_origin() {
    let context = context();
    assert_eq!(
        sync_branch(&context, "main", &[]),
        bare(&["fetch", "origin", "main:main"])
    );
    assert_eq!(sync_branch(&context, "main", &[ok("")]), Step::Done(()));
    assert_eq!(
        sync_branch(&context, "main", &[fails("rejected\n")]),
        failed("Failed to sync branch 'main': rejected")
    );
}

// ---- cloning ----

#[test]
fn cloning_runs_four_commands() {
    let url = "https://example.com/demo.git";
    assert_eq!(
        clone_bare_repository(url, "demo.git", &[]),
        Step::Run(GitCommand {
            git_dir: None,
            current_dir: None,
            args: vec![
                "clone".to_string(),
                "--bare".to_string(),
                url.to_string(),
                "demo.git".to_string(),
            ],
        })
    );
    assert_eq!(
        clone_bare_repository(url, "demo.git", &[ok("")]),
        bare_at(
            "demo.git",
            &[
                "config",
                "remote.origin.fetch",
                "+refs/heads/*:refs/remotes/origin/*"
            ]
        )
    );
    assert_eq!(
        clone_bare_repository(url, "demo.git", &[ok(""), ok("")]),
        bare_at("demo.git", &["fetch", "origin"])
    );
    assert_eq!(
        clone_bare_repository(url, "demo.git", &[ok(""), ok(""), ok("")]),
        bare_at("demo.git", &["remote", "set-head", "origin", "--auto"])
    );
    assert_eq!(
        clone_bare_repository(url, "demo.git", &[ok(""), ok(""), ok(""), ok("")]),
        Step::Done(())
    );
}

#[test]
fn cloning_survives_a_missing_head() {
    assert_eq!(
        clone_bare_repository("url", "demo.git", &[ok(""), ok(""), ok(""), fails("no HEAD")]),
        Step::Done(())
    );
    assert_eq!(
        clone_bare_repository("url", "demo.git", &[ok(""), ok(""), ok(""), not_run()]),
        Step::Done(())
    );
}

#[test]
fn cloning_reports_what_failed() {
    assert_eq!(
        clone_bare_repository("url", "demo.git", &[fails(" fatal: not found\n")]),
        failed("Failed to clone repository: fatal: not found")
    );
    assert_eq!(
        clone_bare_repository("url", "demo.git", &[not_run()]),
        failed("Failed to clone repository: no such file")
    );
    assert_eq!(
        clone_bare_repository("url", "demo.git", &[ok(""), fails("locked")]),
        failed("Failed to configure repository: locked")
    );
    assert_eq!(
        clone_bare_repository("url", "demo.git", &[ok(""), ok(""), fails("offline")]),
        failed("Failed to fetch from origin: offline")
    );
}

// ---- adding ----

#[test]
fn a_worktree_is_added_with_a_default_upstream() {
    let context = context();
    let path = r"\\?\C:\demo\feature";
    assert_eq!(
        add_worktree(&context, path, "feature", true, None, &[]),
        bare(&["worktree", "add", "-b", "feature", r"C:\demo\feature"])
    );
    assert_eq!(
        add_worktree(&context, path, "feature", true, None, &[ok("")]),
        bare(&["config", "--get", "branch.autoSetupMerge"])
    );
    assert_eq!(
        add_worktree(&context, path, "feature", true, None, &[ok(""), fails("")]),
        bare(&["rev-parse", "--verify", "refs/remotes/origin/feature"])
    );
    assert_eq!(
        add_worktree(&context, path, "feature", true, None, &[ok(""), fails(""), ok("")]),
        bare(&[
            "rev-parse",
            "--abbrev-ref",
            "--symbolic-full-name",
            "feature@{u}"
        ])
    );
    assert_eq!(
        add_worktree(
            &context,
            path,
            "feature",
            true,
            None,
            &[ok(""), fails(""), ok(""), fails("")]
        ),
        bare(&["branch", "--set-upstream-to", "origin/feature", "feature"])
    );
    assert_eq!(
        add_worktree(
            &context,
            path,
            "feature",
            true,
            None,
            &[ok(""), fails(""), ok(""), fails(""), fails("cannot")]
        ),
        Step::Done(())
    );
    assert_eq!(
        add_worktree(&context, path, "feature", true, None, &[fails("exists already\n")]),
        failed("Failed to add worktree: exists already")
    );
}

#[test]
fn a_worktree_is_added_with_a_tracking_branch() {
    let context = context();
    let track = Some("refs/remotes/origin/fix/");
    let add = |replies: &[GitReply]| add_worktree(&context, "/w/fix", "mine", true, track, replies);
    assert_eq!(add(&[]), bare(&["rev-parse", "--verify", "origin/fix"]));
    assert_eq!(
        add(&[ok("")]),
        bare(&[
            "worktree",
            "add",
            "-b",
            "mine",
            "--track",
            "/w/fix",
            "origin/fix"
        ])
    );
    assert_eq!(
        add(&[ok(""), ok("")]),
        bare(&["branch", "--set-upstream-to", "origin/fix", "mine"])
    );
    assert_eq!(add(&[ok(""), ok(""), ok("")]), Step::Done(()));
    assert_eq!(
        add(&[ok(""), ok(""), fails("no such branch")]),
        failed("Failed to set upstream 'origin/fix' for branch 'mine': no such branch")
    );
    assert_eq!(
        add(&[ok(""), fails("taken")]),
        failed("Failed to add worktree: taken")
    );
    assert_eq!(
        add(&[fails(""), ok("")]),
        bare(&[
            "worktree",
            "add",
            "-b",
            "mine",
            "--track",
            "/w/fix",
            "origin/fix"
        ])
    );
    assert_eq!(
        add(&[fails(""), fails(""), ok(""), fails(""), ok(""), ok(""), ok("")]),
        Step::Done(())
    );
}

#[test]
fn an_invalid_tracking_branch_is_refused() {
    for reference in ["origin", "refs/heads/x", "origin/a..b", "origin/x.lock", ""] {
        assert_eq!(
            add_worktree(&context(), "/w/x", "x", false, Some(reference), &[]),
            Step::Failed(invalid_tracking_reference(reference))
        );
    }
    assert_eq!(
        invalid_tracking_reference("x"),
        "Invalid tracking branch 'x'. Use '<remote>/<branch>' or 'refs/remotes/<remote>/<branch>'."
    );
}

#[test]
fn a_missing_tracking_reference_is_fetched() {
    let context = context();
    let ensure = |replies: &[GitReply]| ensure_tracking_reference(&context, "up/a/b", replies);
    assert_eq!(ensure(&[]), bare(&["rev-parse", "--verify", "up/a/b"]));
    assert_eq!(ensure(&[ok("")]), Step::Done(1));
    assert_eq!(
        ensure(&[fails("")]),
        bare(&["rev-parse", "--verify", "refs/remotes/up/a/b"])
    );
    assert_eq!(ensure(&[fails(""), ok("")]), Step::Done(2));
    assert_eq!(
        ensure(&[fails(""), fails("")]),
        bare(&["fetch", "up", "a/b:refs/remotes/up/a/b"])
    );
    assert_eq!(
        ensure(&[fails(""), fails(""), fails("offline")]),
        failed("Failed to fetch tracking branch 'up/a/b': offline")
    );
    assert_eq!(
        ensure(&[fails(""), fails(""), ok("")]),
        bare(&["rev-parse", "--verify", "up/a/b"])
    );
    assert_eq!(ensure(&[fails(""), fails(""), ok(""), ok("")]), Step::Done(4));
    assert_eq!(
        ensure(&[fails(""), fails(""), ok(""), fails("")]),
        bare(&["rev-parse", "--verify", "refs/remotes/up/a/b"])
    );
    assert_eq!(
        ensure(&[fails(""), fails(""), ok(""), fails(""), ok("")]),
        Step::Done(5)
    );
    assert_eq!(
        ensure(&[fails(""), fails(""), ok(""), fails(""), fails("")]),
        failed("Tracking reference 'up/a/b' is still unavailable after fetching from remote 'up'.")
    );
    assert_eq!(
        ensure_tracking_reference(&context, "nowhere", &[fails("")]),
        failed(
            "Tracking reference 'nowhere' does not exist. Use a valid remote-tracking branch like 'origin/main'."
        )
    );
}

#[test]
fn automatic_upstreams_can_be_switched_off() {
    let context = context();
    for value in ["false\n", " FALSE ", "False"] {
        assert_eq!(auto_setup_merge_disabled(&context, &[ok(value)]), Step::Done(true));
        assert_eq!(maybe_set_default_upstream(&context, "x", &[ok(value)]), Step::Done(()));
    }
    for value in ["true\n", "always", "simple", "inherit", "", "falsely"] {
        assert_eq!(auto_setup_merge_disabled(&context, &[ok(value)]), Step::Done(false));
    }
    assert_eq!(auto_setup_merge_disabled(&context, &[fails("")]), Step::Done(false));
}

#[test]
fn an_upstream_is_kept() {
    let context = context();
    assert_eq!(branch_has_upstream(&context, "x", &[ok("origin/x\n")]), Step::Done(true));
    assert_eq!(branch_has_upstream(&context, "x", &[fails("")]), Step::Done(false));
    assert_eq!(
        maybe_set_default_upstream(&context, "x", &[fails(""), fails("")]),
        Step::Done(())
    );
    assert_eq!(
        maybe_set_default_upstream(&context, "x", &[fails(""), ok(""), ok("")]),
        Step::Done(())
    );
}

#[test]
fn an_upstream_is_set_in_its_short_form() {
    let context = context();
    assert_eq!(
        set_branch_upstream(&context, "x", "refs/remotes/origin/y", &[]),
        bare(&["branch", "--set-upstream-to", "origin/y", "x"])
    );
    assert_eq!(
        set_branch_upstream(&context, "x", "refs/heads/y", &[]),
        bare(&["branch", "--set-upstream-to", "refs/heads/y", "x"])
    );
}

// ---- removing ----

#[test]
fn a_worktree_is_removed() {
    let context = context();
    assert_eq!(
        remove_worktree(&context, "/w/x", false, &[]),
        bare(&["worktree", "remove", "/w/x"])
    );
    assert_eq!(
        remove_worktree(&context, r"\\?\UNC\host\x", true, &[]),
        bare(&["worktree", "remove", "--force", r"\\host\x"])
    );
    assert_eq!(remove_worktree(&context, "/w/x", false, &[ok("")]), Step::Done(()));
    assert_eq!(
        remove_worktree(&context, "/w/x", false, &[fails("dirty\n")]),
        failed("Failed to remove worktree: dirty")
    );
}

#[test]
fn removals_go_on_after_an_error() {
    let context = context();
    let worktrees = [
        make_worktree("/w/a", "a"),
        make_worktree("/w/b", "b"),
        make_worktree("/w/c", "c"),
    ];
    assert_eq!(
        remove_worktrees(&context, &worktrees, true, &[ok("")]),
        bare(&["worktree", "remove", "--force", "/w/b"])
    );
    assert_eq!(
        remove_worktrees(&context, &worktrees, true, &[ok(""), fails("locked")]),
        bare(&["worktree", "remove", "--force", "/w/c"])
    );
    assert_eq!(
        remove_worktrees(&context, &worktrees, true, &[ok(""), fails("locked"), ok("")]),
        Step::Done((
            vec!["/w/a".to_string(), "/w/c".to_string()],
            vec![(
                "/w/b".to_string(),
                "Failed to remove worktree: locked".to_string()
            )]
        ))
    );
    assert_eq!(
        remove_worktrees(&context, &[], false, &[]),
        Step::Done((vec![], vec![]))
    );
}

// ---- listing ----

fn unix_times(ctime: i64, mtime: i64) -> FileTimes {
    FileTimes {
        created: None,
        fallback: FallbackTimes::Unix { ctime, mtime },
    }
}

#[test]
fn worktrees_are_listed_one_by_one() {
    let context = context();
    let listing = "worktree /work/demo/demo.git\nbare\n\nworktree /work/demo/main\nHEAD aaa\nbranch refs/heads/main\n\nworktree /work/demo/fix\nHEAD bbb\ndetached\nlocked\n\n";
    assert_eq!(
        list_worktrees(&context, &[], &[]),
        bare(&["worktree", "list", "--porcelain"])
    );
    assert_eq!(
        list_worktrees(&context, &[ok(listing)], &[]),
        status_in("/work/demo/main")
    );
    assert_eq!(
        list_worktrees(&context, &[ok(listing), ok("")], &[]),
        Step::ReadTimes("/work/demo/main".to_string())
    );
    let times = [Some(unix_times(1_700_000_000, 5)), None];
    assert_eq!(
        list_worktrees(&context, &[ok(listing), ok("")], &times[..1]),
        status_in("/work/demo/fix")
    );
    assert_eq!(
        list_worktrees(&context, &[ok(listing), ok(""), ok(" M a\n")], &times[..1]),
        Step::ReadTimes("/work/demo/fix".to_string())
    );
    let main = Worktree {
        path: "/work/demo/main".to_string(),
        branch: "main".to_string(),
        head: "aaa".to_string(),
        created_at: 1_700_000_000,
        is_dirty: false,
        is_locked: false,
        is_prunable: false,
        is_main: true,
    };
    let fix = Worktree {
        path: "/work/demo/fix".to_string(),
        branch: "detached HEAD".to_string(),
        head: "bbb".to_string(),
        created_at: 0,
        is_dirty: true,
        is_locked: true,
        is_prunable: false,
        is_main: false,
    };
    let replies = [ok(listing), ok(""), ok(" M a\n")];
    assert_eq!(
        list_worktrees(&context, &replies, &times),
        Step::Done(vec![main.clone(), fix.clone()])
    );
    assert_eq!(
        find_worktree_by_name(&context, "fix/", &replies, &times),
        Step::Done(Some(fix))
    );
    assert_eq!(
        find_worktree_by_name(&context, "other", &replies, &times),
        Step::Done(None)
    );
    assert_eq!(
        find_worktree_by_name(&context, "main", &[], &[]),
        bare(&["worktree", "list", "--porcelain"])
    );
}

#[test]
fn a_listing_can_fail() {
    let context = context();
    assert_eq!(
        list_worktrees(&context, &[fails("not a repository\n")], &[]),
        failed("Failed to list worktrees: not a repository")
    );
    assert_eq!(
        find_worktree_by_name(&context, "x", &[fails("gone")], &[]),
        failed("Failed to list worktrees: gone")
    );
    assert_eq!(list_worktrees(&context, &[ok("")], &[]), Step::Done(vec![]));
}

#[test]
fn a_status_that_wrote_nothing_is_clean() {
    let partial = || parse_worktree_lines("worktree /w/x\nHEAD a\nbranch refs/heads/x\n").remove(0);
    let dirty = |status: GitReply| complete_worktree_info(partial(), &status, None).is_dirty;
    assert!(!dirty(ok("")));
    assert!(dirty(ok("?? new\n")));
    assert!(!dirty(fails("fatal")));
    assert!(!dirty(not_run()));
    assert!(dirty(GitReply::exited(false, b"\xff", b"")));
}

#[test]
fn main_worktrees_are_on_main_branches() {
    assert_eq!(MAIN_BRANCHES, ["main", "master"]);
    for (branch, expected) in [("main", true), ("master", true), ("mainline", false), ("Main", false)] {
        let mut partial = PartialWorktree {
            path: Some("/w/x".to_string()),
            head: None,
            branch: Some(branch.to_string()),
            is_locked: false,
            is_prunable: true,
            is_bare: false,
        };
        let worktree = complete_worktree_info(partial, &ok(""), None);
        assert_eq!(worktree.is_main, expected);
        assert_eq!(worktree.head, "");
        assert!(worktree.is_prunable);
        partial = PartialWorktree {
            path: None,
            head: None,
            branch: None,
            is_locked: false,
            is_prunable: false,
            is_bare: false,
        };
        let worktree = complete_worktree_info(partial, &ok(""), None);
        assert_eq!((worktree.path.as_str(), worktree.branch.as_str()), ("", ""));
    }
}

#[test]
fn lines_outside_entries_are_ignored() {
    assert_eq!(parse_worktree_lines(""), vec![]);
    assert_eq!(parse_worktree_lines("HEAD abc\nlocked\n"), vec![]);
    let worktrees =
        parse_worktree_lines("bare\nworktree /a b \r\nHEAD 1\r\nlocked by me\r\nwhatever\r\n");
    assert_eq!(
        worktrees,
        vec![PartialWorktree {
            path: Some("/a b ".to_string()),
            head: Some("1".to_string()),
            branch: None,
            is_locked: false,
            is_prunable: false,
            is_bare: false,
        }]
    );
    let worktrees = parse_worktree_lines("worktree /a\nHEAD 1\nHEAD 2\nbranch odd/refs/heads/x\n");
    assert_eq!(worktrees[0].head.as_deref(), Some("2"));
    assert_eq!(worktrees[0].branch.as_deref(), Some("odd/x"));
    assert_eq!(DETACHED_HEAD, "detached HEAD");
}

// ---- times ----

const FIRST_SECOND: i64 = -8_334_601_228_800;
const LAST_SECOND: i64 = 8_210_266_876_799;

#[test]
fn clock_readings_become_timestamps() {
    assert_eq!(system_time_to_datetime(ClockTime::BeforeEpoch), None);
    assert_eq!(system_time_to_datetime(ClockTime::SinceEpoch(0)), Some(0));
    assert_eq!(
        system_time_to_datetime(ClockTime::SinceEpoch(1_700_000_000)),
        Some(1_700_000_000)
    );
    assert_eq!(
        system_time_to_datetime(ClockTime::SinceEpoch(LAST_SECOND as u64)),
        Some(LAST_SECOND)
    );
    assert_eq!(
        system_time_to_datetime(ClockTime::SinceEpoch(LAST_SECOND as u64 + 1)),
        None
    );
    assert_eq!(system_time_to_datetime(ClockTime::SinceEpoch(i64::MAX as u64)), None);
    assert_eq!(system_time_to_datetime(ClockTime::SinceEpoch(1 << 63)), None);
    assert_eq!(system_time_to_datetime(ClockTime::SinceEpoch(u64::MAX)), Some(-1));
    assert_eq!(
        system_time_to_datetime(ClockTime::SinceEpoch(FIRST_SECOND as u64)),
        Some(FIRST_SECOND)
    );
    assert_eq!(
        system_time_to_datetime(ClockTime::SinceEpoch((FIRST_SECOND - 1) as u64)),
        None
    );
}

#[test]
fn timestamps_span_the_range_of_dates() {
    assert_eq!(DateTime::<Utc>::MAX_UTC.timestamp(), LAST_SECOND);
    assert_eq!(DateTime::<Utc>::MIN_UTC.timestamp(), FIRST_SECOND);
}

#[test]
fn a_kept_creation_time_decides() {
    let times = |created| FileTimes {
        created: Some(created),
        fallback: FallbackTimes::Unix { ctime: 7, mtime: 8 },
    };
    assert_eq!(metadata_created_at(&times(ClockTime::SinceEpoch(5))), Some(5));
    assert_eq!(metadata_created_at(&times(ClockTime::BeforeEpoch)), None);
}

#[test]
fn other_times_stand_in_for_a_creation_time() {
    assert_eq!(metadata_created_at(&unix_times(7, 8)), Some(7));
    assert_eq!(metadata_created_at(&unix_times(0, 8)), Some(8));
    assert_eq!(metadata_created_at(&unix_times(-3, 8)), Some(8));
    assert_eq!(metadata_created_at(&unix_times(0, 0)), None);
    assert_eq!(metadata_created_at(&unix_times(i64::MAX, 8)), None);
    let other = |modified| FileTimes {
        created: None,
        fallback: FallbackTimes::Other { modified },
    };
    assert_eq!(metadata_created_at(&other(None)), None);
    assert_eq!(
        metadata_created_at(&other(Some(ClockTime::SinceEpoch(9)))),
        Some(9)
    );
    assert_eq!(metadata_created_at(&other(Some(ClockTime::BeforeEpoch))), None);
}

// ---- names ----

#[test]
fn directory_names_are_those_of_the_standard_library() {
    for path in [
        "", "/", "a", "/a", "/a/", "/a//", "a/b", "./a", "a/.", "a/./", "a/..", "..", ".", "./.",
        "/..", "//x//y//", "/a/...", "/...", "/w/grün", "C:/w/x", "C:/", "C:", "C:x", r"C:\w\x",
        r"C:\w\", r"\\host\share\y", r"\\?\C:\w\b", r"/w/a\b", "//host/share", "x:a/..",
    ] {
        let worktrees = [make_worktree(path, "?")];
        let name = std::path::Path::new(path).file_name().and_then(|name| name.to_str());
        for candidate in [
            "a", "b", "y", "...", "grün", "x", ".", "..", "C:", "C:x", "share", r"a\b", r"C:\w\x",
        ] {
            let found = match_worktree_by_name(&worktrees, candidate).is_some();
            assert_eq!(found, name == Some(candidate), "{:?} {:?}", path, candidate);
        }
    }
}

#[test]
fn given_directory_names_decide() {
    let worktrees = [
        make_worktree(r"C:\w\fix", "main"),
        make_worktree("C:/", "team/fix"),
        make_worktree("/w/other", "other"),
    ];
    let none = [None, None, None];
    let windows = [Some("fix".to_string()), None, Some("other".to_string())];
    assert_eq!(position_by_name(&worktrees, &windows, "fix/"), Some(0));
    assert_eq!(position_by_name(&worktrees, &none, "fix"), Some(1));
    assert_eq!(position_by_name(&worktrees, &windows, "main"), Some(0));
    assert_eq!(position_by_name(&worktrees, &windows, "C:"), None);
    assert_eq!(position_by_name(&worktrees, &windows, "other"), Some(2));
    assert_eq!(position_by_name(&worktrees, &windows, "/"), None);
    assert_eq!(position_by_name(&[], &[], "fix"), None);
}

#[test]
fn names_match_in_order() {
    let worktrees = [
        make_worktree("/w/one", "team/login"),
        make_worktree("/w/login", "other"),
        make_worktree("/w/three", "login"),
        make_worktree("/w/four", "login"),
    ];
    let path = |worktrees: &[Worktree], name: &str| {
        match_worktree_by_name(worktrees, name).map(|worktree| worktree.path.clone())
    };
    assert_eq!(path(&worktrees, "login").as_deref(), Some("/w/three"));
    assert_eq!(path(&worktrees[..2], "login").as_deref(), Some("/w/login"));
    assert_eq!(path(&worktrees[..1], "login").as_deref(), Some("/w/one"));
    assert_eq!(path(&worktrees, "team/login//").as_deref(), Some("/w/one"));
    assert_eq!(path(&worktrees, "ogin"), None);
    assert_eq!(path(&worktrees, ""), None);
    assert_eq!(path(&worktrees, "//"), None);
    assert_eq!(path(&[], "login"), None);
}

#[test]
fn trailing_slashes_are_taken_off() {
    assert_eq!(trim_trailing_branch_slashes("a/b///"), "a/b");
    assert_eq!(trim_trailing_branch_slashes("/"), "");
    assert_eq!(trim_trailing_branch_slashes("grün/"), "grün");
    assert_eq!(trim_trailing_branch_slashes("a"), "a");
}

// ---- tracking references ----

#[test]
fn remotes_and_branches_are_told_apart() {
    assert_eq!(parse_remote_tracking_reference("grün/ä/b"), Some(("grün", "ä/b")));
    assert_eq!(parse_remote_tracking_reference("/x"), None);
    assert_eq!(parse_remote_tracking_reference("x/"), None);
    assert_eq!(parse_remote_tracking_reference("refs/remotes/"), None);
    assert_eq!(parse_remote_tracking_reference("refs/remotes/x"), None);
    assert_eq!(parse_remote_tracking_reference("refs/x"), None);
    assert_eq!(parse_remote_tracking_reference("a//"), Some(("a", "/")));
    assert_eq!(
        parse_remote_tracking_reference("refs/remotes/refs/x"),
        Some(("refs", "x"))
    );
    assert_eq!(tracked_branch_name("refs/heads/x"), None);
    assert_eq!(tracked_branch_name("refs/remotes/up/a/b"), Some("a/b"));
    assert_eq!(normalize_tracking_reference("refs/heads/x"), "refs/heads/x");
    assert_eq!(normalize_tracking_reference("plain"), "plain");
}

#[test]
fn components_of_references_are_checked() {
    for component in ["a", "a.b", "a-b_c", "grün", "lock", "a.locks", "@", "a@", "-"] {
        assert!(is_valid_ref_component(component), "{:?}", component);
    }
    for component in [
        "", ".", "..", ".a", "a..b", "x.lock", ".lock", "a b", "a~", "a^", "a:b", "a?", "a*", "[a",
        "a\\b", "a\tb", "a\u{7f}", "\u{0}",
    ] {
        assert!(!is_valid_ref_component(component), "{:?}", component);
    }
}

#[test]
fn characters_of_references_are_checked() {
    for code in 0..=0x10ffff_u32 {
        if let Some(c) = char::from_u32(code) {
            let invalid = c.is_ascii_control()
                || matches!(c, ' ' | '~' | '^' | ':' | '?' | '*' | '[' | '\\');
            assert_eq!(contains_invalid_ref_char(c), invalid, "{:?}", c);
        }
    }
}

#[test]
fn paths_of_references_are_checked() {
    for path in ["a", "a/b", "feature/x.y", "a/@", "a{b"] {
        assert!(is_valid_ref_path(path), "{:?}", path);
    }
    for path in ["", "/", "a/", "/a", "a//b", "a/.b", "a.", "a/b.", "a@{1}", "a.lock/b", "a/b c"] {
        assert!(!is_valid_ref_path(path), "{:?}", path);
    }
}

#[test]
fn tracking_branches_are_normalised() {
    assert_eq!(
        normalize_tracking_reference_input("origin/a/b//"),
        Ok("origin/a/b".to_string())
    );
    for reference in ["", "/", "origin", "refs/tags/v1", "or igin/a", ".o/a", "origin/a.", "refs/x/y"] {
        assert_eq!(
            normalize_tracking_reference_input(reference),
            Err(invalid_tracking_reference(reference))
        );
    }
}
