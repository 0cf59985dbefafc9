use grove::add::{
    add_worktree, build_add_worktree_args, ensure_tracking_reference, maybe_set_default_upstream,
};
use grove::bare_clone::clone_bare_repository;
use grove::branch::{
    branch_exists, get_default_branch, is_branch_merged, is_squash_merged, reference_exists,
    sync_branch,
};
use grove::command::{normalize_path_for_git, GitCommand, RepoContext};
use grove::list::{find_worktree_by_name, list_worktrees};
use grove::porcelain::{parse_worktree_lines, PartialWorktree};
use grove::remove::{remove_worktree, remove_worktrees};
use grove::session::{GitReply, Step};
use grove::times::{ClockTime, FallbackTimes, FileTimes};
use grove::tracking::{
    contains_invalid_ref_char, is_valid_ref_path, normalize_tracking_reference,
    normalize_tracking_reference_input, parse_remote_tracking_reference, tracked_branch_name,
    trim_trailing_branch_slashes,
};
use grove::worktree::{match_worktree_by_name, Worktree, MAIN_BRANCHES};

const REPO: &str = r"\\?\D:\demo.git";
const GIT_DIR: &str = r"D:\demo.git";

fn context() -> RepoContext {
    RepoContext::new(REPO.to_string(), r"\\?\D:\".to_string())
}

fn ok(stdout: &str) -> GitReply {
    GitReply::exited(true, stdout.as_bytes(), b"")
}

fn fails() -> GitReply {
    GitReply::exited(false, b"", b"fatal\n")
}

fn worktree(path: &str, branch: &str) -> Worktree {
    Worktree {
        path: path.to_string(),
        branch: branch.to_string(),
        head: "abc123".to_string(),
        created_at: 0,
        is_dirty: false,
        is_locked: false,
        is_prunable: false,
        is_main: false,
    }
}

/// Every list of as many replies, each of them a success or a failure.
fn all_replies(len: usize) -> Vec<Vec<GitReply>> {
    let mut all = Vec::new();
    for bits in 0..(1usize << len) {
        let mut replies = Vec::new();
        for i in 0..len {
            replies.push(if bits >> i & 1 == 1 { ok("x\n") } else { fails() });
        }
        all.push(replies);
    }
    all
}

fn succeeded(reply: &GitReply) -> bool {
    matches!(reply, GitReply::Exited { success: true, .. })
}

fn command_of<T>(step: Step<T>) -> Option<GitCommand> {
    match step {
        Step::Run(command) => Some(command),
        _ => None,
    }
}

fn is_over<T>(step: &Step<T>) -> bool {
    matches!(step, Step::Done(_) | Step::Failed(_))
}

fn assert_on_bare_clone<T>(step: Step<T>, git_dir: &str) {
    if let Some(command) = command_of(step) {
        assert_eq!(command.git_dir.as_deref(), Some(git_dir));
        assert_eq!(command.current_dir, None);
    }
}

// ---- sessions ----

#[test]
fn branch_commands_use_git_dir() {
    for len in 0..4 {
        for replies in all_replies(len) {
            assert_on_bare_clone(reference_exists(&context(), "r", &replies), GIT_DIR);
            assert_on_bare_clone(branch_exists(&context(), "r", &replies), GIT_DIR);
            assert_on_bare_clone(is_branch_merged(&context(), "b", "main", &replies), GIT_DIR);
            assert_on_bare_clone(is_squash_merged(&context(), "b", "main", &replies), GIT_DIR);
            assert_on_bare_clone(get_default_branch(&context(), &replies), GIT_DIR);
            assert_on_bare_clone(sync_branch(&context(), "b", &replies), GIT_DIR);
        }
    }
}

#[test]
fn worktree_commands_use_git_dir() {
    let worktrees = [worktree("/w/a", "a"), worktree("/w/b", "b")];
    for len in 0..8 {
        for replies in all_replies(len) {
            for track in [None, Some("origin/x")] {
                let step = add_worktree(&context(), "/w/x", "x", true, track, &replies);
                assert_on_bare_clone(step, GIT_DIR);
            }
            assert_on_bare_clone(remove_worktree(&context(), "/w/x", true, &replies), GIT_DIR);
            let step = remove_worktrees(&context(), &worktrees, false, &replies);
            assert_on_bare_clone(step, GIT_DIR);
        }
    }
}

#[test]
fn status_commands_run_inside_listed_worktrees() {
    let listing = ok("worktree /w/a\nHEAD 1\n\nworktree /w/b\nHEAD 2\n");
    assert_on_bare_clone(list_worktrees(&context(), &[], &[]), GIT_DIR);
    let first = command_of(list_worktrees(&context(), &[listing], &[])).unwrap();
    assert_eq!(first.git_dir, None);
    assert_eq!(first.current_dir.as_deref(), Some("/w/a"));
    let listing = ok("worktree /w/a\nHEAD 1\n\nworktree /w/b\nHEAD 2\n");
    let second = command_of(list_worktrees(&context(), &[listing, fails()], &[None])).unwrap();
    assert_eq!(second.git_dir, None);
    assert_eq!(second.current_dir.as_deref(), Some("/w/b"));
}

#[test]
fn clone_commands_are_scoped() {
    let first = command_of(clone_bare_repository("url", REPO, &[])).unwrap();
    assert_eq!((first.git_dir, first.current_dir), (None, None));
    for len in 1..5 {
        for replies in all_replies(len) {
            assert_on_bare_clone(clone_bare_repository("url", REPO, &replies), GIT_DIR);
        }
    }
}

#[test]
fn operations_end() {
    for replies in all_replies(7) {
        assert!(is_over(&reference_exists(&context(), "r", &replies[..1])));
        assert!(is_over(&sync_branch(&context(), "b", &replies[..1])));
        assert!(is_over(&is_branch_merged(&context(), "b", "main", &replies[..3])));
        assert!(is_over(&get_default_branch(&context(), &replies[..3])));
        assert!(is_over(&clone_bare_repository("url", REPO, &replies[..4])));
        let step = add_worktree(&context(), "/w/x", "x", false, None, &replies[..5]);
        assert!(is_over(&step));
        let step = add_worktree(&context(), "/w/x", "x", false, Some("o/x"), &replies);
        assert!(is_over(&step));
    }
}

#[test]
fn listing_ends() {
    let listing = ok("worktree /w/a\nHEAD 1\n\nworktree /w/b\nHEAD 2\n");
    let step = list_worktrees(&context(), &[listing, fails(), ok("")], &[None, None]);
    assert!(is_over(&step));
}

#[test]
fn further_replies_change_nothing() {
    let worktrees = [worktree("/w/a", "a"), worktree("/w/b", "b")];
    for replies in all_replies(7) {
        for len in 0..7 {
            let (some, more) = (&replies[..len], &replies[..len + 1]);
            let step = is_branch_merged(&context(), "b", "main", some);
            if is_over(&step) {
                assert_eq!(is_branch_merged(&context(), "b", "main", more), step);
            }
            let step = get_default_branch(&context(), some);
            if is_over(&step) {
                assert_eq!(get_default_branch(&context(), more), step);
            }
            for track in [None, Some("origin/x")] {
                let step = add_worktree(&context(), "/w/x", "x", true, track, some);
                if is_over(&step) {
                    assert_eq!(add_worktree(&context(), "/w/x", "x", true, track, more), step);
                }
            }
            let step = clone_bare_repository("url", REPO, some);
            if is_over(&step) {
                assert_eq!(clone_bare_repository("url", REPO, more), step);
            }
            let step = remove_worktrees(&context(), &worktrees, true, some);
            if is_over(&step) {
                assert_eq!(remove_worktrees(&context(), &worktrees, true, more), step);
            }
        }
    }
}

#[test]
fn further_times_change_nothing() {
    let replies = [ok("worktree /w/a\nHEAD 1\n"), ok(""), fails()];
    let before = list_worktrees(&context(), &replies[..2], &[None]);
    assert!(is_over(&before));
    assert_eq!(list_worktrees(&context(), &replies, &[None, None]), before);
    let before = find_worktree_by_name(&context(), "a", &replies[..2], &[None]);
    assert_eq!(find_worktree_by_name(&context(), "a", &replies, &[None, None]), before);
}

#[test]
fn invalid_tracking_branches_are_refused_at_once() {
    for replies in all_replies(2) {
        let step = add_worktree(&context(), "/w/x", "x", true, Some("x"), &replies);
        assert!(matches!(step, Step::Failed(_)));
    }
}

#[test]
fn default_upstreams_never_fail() {
    for len in 0..6 {
        for replies in all_replies(len) {
            let step = add_worktree(&context(), "/w/x", "x", true, None, &replies);
            assert_eq!(
                matches!(step, Step::Failed(_)),
                len > 0 && !succeeded(&replies[0])
            );
            let step = maybe_set_default_upstream(&context(), "x", &replies);
            assert!(!matches!(step, Step::Failed(_)));
        }
    }
}

#[test]
fn auto_setup_merge_opts_out() {
    let step = maybe_set_default_upstream(&context(), "x", &[ok(" False\n")]);
    assert_eq!(step, Step::Done(()));
}

#[test]
fn default_upstreams_are_set_where_missing() {
    for replies in all_replies(3) {
        let step = maybe_set_default_upstream(&context(), "x", &replies);
        let wanted = succeeded(&replies[1]) && !succeeded(&replies[2]);
        assert_eq!(matches!(step, Step::Run(_)), wanted);
        if let Some(command) = command_of(step) {
            assert_eq!(command.args, vec!["branch", "--set-upstream-to", "origin/x", "x"]);
        }
    }
}

#[test]
fn tracking_references_are_resolved() {
    for replies in all_replies(5) {
        let step = ensure_tracking_reference(&context(), "origin/x", &replies);
        if let Step::Done(n) = step {
            assert!(succeeded(&replies[n - 1]));
            let before = ensure_tracking_reference(&context(), "origin/x", &replies[..n - 1]);
            let args = command_of(before).unwrap().args;
            assert_eq!(args[..2], ["rev-parse", "--verify"]);
            assert!(args[2] == "origin/x" || args[2] == "refs/remotes/origin/x");
        }
        if succeeded(&replies[0]) {
            assert_eq!(step, Step::Done(1));
        }
    }
}

#[test]
fn adding_with_a_tracking_branch_succeeds() {
    for replies in all_replies(7) {
        let step = add_worktree(&context(), "/w/x", "x", true, Some("origin/x"), &replies);
        let expected = match ensure_tracking_reference(&context(), "origin/x", &replies) {
            Step::Done(n) => succeeded(&replies[n]) && succeeded(&replies[n + 1]),
            _ => false,
        };
        assert_eq!(step == Step::Done(()), expected);
    }
}

#[test]
fn existing_branches_ignore_tracking_branches() {
    assert_eq!(
        build_add_worktree_args("/w/x", "x", false, Some("origin/y")),
        build_add_worktree_args("/w/x", "x", false, None)
    );
}

#[test]
fn set_head_is_not_needed() {
    for replies in all_replies(4) {
        assert_eq!(
            clone_bare_repository("url", REPO, &replies) == Step::Done(()),
            replies[..3].iter().all(succeeded)
        );
    }
}

#[test]
fn every_removal_is_reported() {
    let worktrees = [worktree("/w/a", "a"), worktree("/w/b", "b"), worktree("/w/c", "c")];
    for replies in all_replies(3) {
        match remove_worktrees(&context(), &worktrees, false, &replies) {
            Step::Done((removed, failed)) => {
                assert_eq!(removed.len() + failed.len(), 3);
                for (worktree, reply) in worktrees.iter().zip(&replies) {
                    let error = "Failed to remove worktree: fatal".to_string();
                    if succeeded(reply) {
                        assert!(removed.contains(&worktree.path));
                    } else {
                        assert!(failed.contains(&(worktree.path.clone(), error)));
                    }
                }
            }
            step => panic!("{:?}", step),
        }
    }
}

#[test]
fn all_worktrees_are_removed() {
    let worktrees = [worktree("/w/a", "a"), worktree("/w/b", "b")];
    assert_eq!(
        remove_worktrees(&context(), &worktrees, false, &[ok(""), ok("")]),
        Step::Done((vec!["/w/a".to_string(), "/w/b".to_string()], vec![]))
    );
}

#[test]
fn listed_branches_are_merged() {
    assert_eq!(
        is_branch_merged(&context(), "b", "main", &[ok("* main\n  b\n"), fails()]),
        Step::Done(true)
    );
    for replies in all_replies(3) {
        let step = is_branch_merged(&context(), "b", "main", &replies);
        assert_eq!(matches!(step, Step::Failed(_)), !succeeded(&replies[0]));
    }
}

#[test]
fn squash_merges_are_decided() {
    for replies in all_replies(2) {
        let merged = !succeeded(&replies[0]) || !succeeded(&replies[1]);
        assert_eq!(is_squash_merged(&context(), "b", "main", &replies), Step::Done(merged));
    }
}

#[test]
fn the_default_branch_can_be_unknown() {
    for replies in all_replies(3) {
        let step = get_default_branch(&context(), &replies);
        assert_eq!(
            matches!(step, Step::Failed(_)),
            replies.iter().all(|reply| !succeeded(reply))
        );
    }
}

#[test]
fn origin_names_the_default_branch() {
    for name in ["main", "release/1.0", "grün"] {
        let reply = ok(&format!("refs/remotes/origin/{}\n", name));
        assert_eq!(get_default_branch(&context(), &[reply]), Step::Done(name.to_string()));
    }
}

#[test]
fn branches_with_a_line_are_listed() {
    for name in ["feature/x", "*", "+x", "a b"] {
        for mark in ["  ", "* "] {
            let reply = ok(&format!("  first\n{}{}\n  last\n", mark, name));
            assert_eq!(is_branch_merged(&context(), name, "main", &[reply]), Step::Done(true));
        }
    }
}

// ---- listings ----

fn entry(path: &str, branch: Option<&str>, head: Option<&str>) -> PartialWorktree {
    PartialWorktree {
        path: Some(path.to_string()),
        head: head.map(|head| head.to_string()),
        branch: branch.map(|branch| branch.to_string()),
        is_locked: false,
        is_prunable: false,
        is_bare: false,
    }
}

fn written(entry: &PartialWorktree) -> String {
    let mut lines = vec![format!("worktree {}", entry.path.as_deref().unwrap())];
    if entry.is_bare {
        lines.push("bare".to_string());
    }
    if let Some(head) = &entry.head {
        lines.push(format!("HEAD {}", head));
    }
    match entry.branch.as_deref() {
        None => {}
        Some("detached HEAD") => lines.push("detached".to_string()),
        Some(branch) => lines.push(format!("branch refs/heads/{}", branch)),
    }
    if entry.is_locked {
        lines.push("locked".to_string());
    }
    if entry.is_prunable {
        lines.push("prunable".to_string());
    }
    lines.join("\n") + "\n"
}

#[test]
fn written_entries_are_read_back() {
    for bits in 0..8 {
        for branch in [None, Some("main"), Some("detached HEAD"), Some("heads/x y")] {
            for head in [None, Some("abc")] {
                let mut sample = entry("/w/with space", branch, head);
                sample.is_locked = bits & 1 > 0;
                sample.is_prunable = bits & 2 > 0;
                sample.is_bare = bits & 4 > 0;
                let read = parse_worktree_lines(&written(&sample));
                if sample.is_bare {
                    assert_eq!(read, vec![]);
                } else {
                    assert_eq!(read, vec![sample]);
                }
            }
        }
    }
}

#[test]
fn written_listings_are_read_back() {
    let mut bare = entry("/w/demo.git", None, None);
    bare.is_bare = true;
    let mut locked = entry("/w/b", Some("detached HEAD"), Some("2"));
    locked.is_locked = true;
    let entries = [bare, entry("/w/a", Some("main"), Some("1")), locked];
    let output = entries.iter().map(written).collect::<Vec<String>>().join("\n") + "\n";
    let listed = parse_worktree_lines(&output);
    assert_eq!(listed[..], entries[1..]);
    let replies = [ok(&output), ok(""), ok("?? x\n")];
    match list_worktrees(&context(), &replies, &[None, None]) {
        Step::Done(worktrees) => {
            assert_eq!(worktrees.len(), 2);
            assert_eq!(worktrees[0].path, "/w/a");
            assert!(worktrees[0].is_main && !worktrees[0].is_dirty);
            assert_eq!(worktrees[1].branch, "detached HEAD");
            assert!(worktrees[1].is_locked && worktrees[1].is_dirty);
        }
        step => panic!("{:?}", step),
    }
    assert_eq!(parse_worktree_lines("\n"), vec![]);
}

#[test]
fn listings_concatenate() {
    let first = "HEAD 0\nworktree /w/a\nHEAD 1\nlocked\n";
    let second = "worktree /w/b\nbranch refs/heads/b\n";
    let mut both = parse_worktree_lines(first);
    both.extend(parse_worktree_lines(second));
    assert_eq!(parse_worktree_lines(&format!("{}{}", first, second)), both);
    assert_eq!(parse_worktree_lines(&format!("{}\n{}", first, second)), both);
    assert_eq!(both.len(), 2);
}

#[test]
fn listed_worktrees_have_a_path() {
    let output = "locked\nworktree /w/a\nworktree /w/b\nbare\nworktree \nHEAD 1\n";
    let listed = parse_worktree_lines(output);
    assert_eq!(listed.len(), 2);
    for partial in listed {
        assert!(partial.path.is_some() && !partial.is_bare);
    }
}

#[test]
fn worktrees_are_the_listed_ones() {
    let output = "worktree /w/a\nbranch refs/heads/main\n\nworktree /w/b\nbranch refs/heads/b\n";
    let times = FileTimes {
        created: Some(ClockTime::SinceEpoch(u64::MAX / 2)),
        fallback: FallbackTimes::Unix { ctime: 1, mtime: 1 },
    };
    let step = list_worktrees(&context(), &[ok(output), ok(""), ok("")], &[Some(times), None]);
    match step {
        Step::Done(worktrees) => {
            for (worktree, partial) in worktrees.iter().zip(parse_worktree_lines(output)) {
                assert_eq!(Some(&worktree.path), partial.path.as_ref());
                assert_eq!(Some(&worktree.branch), partial.branch.as_ref());
                assert_eq!(worktree.is_main, MAIN_BRANCHES.contains(&worktree.branch.as_str()));
                assert_eq!(worktree.created_at, 0);
            }
        }
        step => panic!("{:?}", step),
    }
}

// ---- names ----

#[test]
fn branch_names_ignore_trailing_slashes() {
    for name in ["", "a", "a/b", "a//"] {
        let short = trim_trailing_branch_slashes(name);
        assert_eq!(trim_trailing_branch_slashes(&format!("{}/", name)), short);
        assert_eq!(trim_trailing_branch_slashes(short), short);
    }
    assert_eq!(trim_trailing_branch_slashes("a/b"), "a/b");
}

#[test]
fn matches_ignore_trailing_slashes() {
    let worktrees = [worktree("/w/x", "a/b"), worktree("/w/y", "c")];
    for name in ["a/b", "x", "b", "c", "none", ""] {
        assert_eq!(
            match_worktree_by_name(&worktrees, &format!("{}/", name)),
            match_worktree_by_name(&worktrees, name)
        );
    }
}

#[test]
fn matches_stand_for_their_name() {
    let worktrees = [
        worktree("/w/one", "team/fix"),
        worktree("/w/fix", "other"),
        worktree("/w/two", "fix"),
        worktree("/w/two", "fix"),
    ];
    let found = |name: &str| match_worktree_by_name(&worktrees, name).unwrap();
    assert!(std::ptr::eq(found("fix"), &worktrees[2]));
    assert!(std::ptr::eq(found("two"), &worktrees[2]));
    assert!(std::ptr::eq(found("other"), &worktrees[1]));
    assert!(std::ptr::eq(found("one"), &worktrees[0]));
    let directory = match_worktree_by_name(&worktrees[..2], "fix").unwrap();
    assert_eq!(directory.path, "/w/fix");
    let suffix = match_worktree_by_name(&worktrees[..1], "fix").unwrap();
    assert_eq!(suffix.branch, "team/fix");
    assert!(match_worktree_by_name(&worktrees, "tea").is_none());
}

#[test]
fn directories_have_the_last_name_of_their_path() {
    for path in ["/w/x", "/w/x/", "w/./x", "//w//x"] {
        let worktrees = [worktree(path, "?")];
        assert!(match_worktree_by_name(&worktrees, "x").is_some(), "{:?}", path);
        assert!(match_worktree_by_name(&worktrees, "w").is_none(), "{:?}", path);
        assert!(match_worktree_by_name(&worktrees, "w/x").is_none(), "{:?}", path);
    }
}

#[test]
fn matches_hold_their_name() {
    for path in [r"C:\w\x", "C:/w/x", "/w/x", r"/w\x", "//host/share/x"] {
        let worktrees = [worktree(path, "main"), worktree("/w/y", "team/x")];
        let found = match_worktree_by_name(&worktrees, "x").unwrap();
        assert!(found.path.contains('x') || found.branch.ends_with("/x"), "{:?}", path);
    }
}

#[test]
fn drives_do_not_change_directory_names() {
    for path in ["/w/x", "/x", "/w/./x/", "/a:b/x"] {
        for full in [path.to_string(), format!("C:{}", path)] {
            let worktrees = [worktree(&full, "main")];
            assert!(match_worktree_by_name(&worktrees, "x").is_some(), "{:?}", full);
        }
    }
}

#[test]
fn network_paths_keep_directory_names() {
    for path in ["//server/share/w/x", "//server/share/x", "//s/t/x/"] {
        let worktrees = [worktree(path, "main")];
        assert!(match_worktree_by_name(&worktrees, "x").is_some(), "{:?}", path);
        assert!(match_worktree_by_name(&worktrees, "share").is_none(), "{:?}", path);
    }
}

#[test]
fn backslashes_before_the_name_do_not_count() {
    for path in [r"/a\b/feature", r"a\b/feature", r"\a/feature"] {
        let worktrees = [worktree(path, "main")];
        assert!(match_worktree_by_name(&worktrees, "feature").is_some(), "{:?}", path);
    }
}

// ---- tracking references and paths ----

#[test]
fn short_and_full_forms_are_the_same() {
    for (remote, branch) in [("origin", "main"), ("up", "a/b"), ("r", "x/")] {
        let short = format!("{}/{}", remote, branch);
        let full = format!("refs/remotes/{}", short);
        assert_eq!(parse_remote_tracking_reference(&short), Some((remote, branch)));
        assert_eq!(parse_remote_tracking_reference(&full), Some((remote, branch)));
        assert_eq!(
            normalize_tracking_reference_input(&full),
            normalize_tracking_reference_input(&short)
        );
    }
    assert_eq!(parse_remote_tracking_reference("refs/main"), None);
    assert_eq!(
        parse_remote_tracking_reference("refs/remotes/refs/main"),
        Some(("refs", "main"))
    );
}

#[test]
fn tracking_names_ignore_trailing_slashes() {
    for reference in ["origin/x", "origin/x/", "refs/remotes/o/y"] {
        assert_eq!(
            normalize_tracking_reference_input(&format!("{}/", reference)),
            normalize_tracking_reference_input(reference)
        );
    }
    assert_eq!(
        normalize_tracking_reference_input("origin/x/"),
        Ok("origin/x".to_string())
    );
}

#[test]
fn tracking_names_are_stable() {
    for reference in ["origin/a/b//", "refs/remotes/up/x"] {
        let name = normalize_tracking_reference_input(reference).unwrap();
        assert_eq!(normalize_tracking_reference_input(&name), Ok(name.clone()));
        assert_eq!(normalize_tracking_reference(&name), name);
        assert_eq!(
            tracked_branch_name(&name),
            tracked_branch_name(trim_trailing_branch_slashes(reference))
        );
    }
    let name = normalize_tracking_reference_input("refs/remotes/refs/x").unwrap();
    assert_eq!(name, "refs/x");
    assert!(normalize_tracking_reference_input(&name).is_err());
}

#[test]
fn valid_branches_have_valid_parts() {
    for path in ["a/b", "feature/x.y", "grün"] {
        assert!(is_valid_ref_path(path));
        assert!(!path.starts_with('/') && !path.ends_with('/') && !path.contains("//"));
        assert!(!path.chars().any(contains_invalid_ref_char));
        let (remote, branch) = ("origin", path);
        assert_eq!(
            normalize_tracking_reference_input(&format!("{}/{}", remote, branch)),
            Ok(format!("{}/{}", remote, branch))
        );
    }
}

#[test]
fn extended_prefixes_are_stripped() {
    assert_eq!(normalize_path_for_git(r"\\?\C:\x"), r"C:\x");
    assert_eq!(normalize_path_for_git(r"\\?\UNC\host\x"), r"\\host\x");
    for path in ["", "/a", r"C:\x", r"\\host\x", r"\\?", r"\\.\x"] {
        assert_eq!(normalize_path_for_git(path), path);
    }
}
