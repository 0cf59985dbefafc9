//! Adding a worktree.

use vstd::prelude::*;

use crate::branch;
use crate::branch::reference_exists;
use crate::command;
use crate::command::{normalize_path_for_git, repo_command, RepoContext};
use crate::session;
use crate::session::{git_raw, GitReply, Outcome, Stage, Step};
use crate::text;
use crate::tracking;
use crate::tracking::{
    normalize_tracking_reference, normalize_tracking_reference_input,
    parse_remote_tracking_reference,
};

verus! {

// ---- making sure that a tracking reference exists ----

/// The full name of a remote-tracking branch.
pub open spec fn canonical_ref(remote: Seq<char>, branch: Seq<char>) -> Seq<char> {
    "refs/remotes/"@ + remote + "/"@ + branch
}

/// The stages of [`ensure_tracking_reference`].  The value is the number of
/// replies that were read.
pub open spec fn ensure_tracking_reference_stage(
    repo: Seq<char>,
    track_ref: Seq<char>,
    replies: Seq<Outcome>,
) -> Stage<usize> {
    match branch::reference_exists_stage(repo, track_ref, replies) {
        Stage::Done(known) => if known {
            Stage::Done(1)
        } else {
            match tracking::remote_and_branch(track_ref) {
                None => Stage::Failed(
                    "Tracking reference '"@ + track_ref
                        + "' does not exist. Use a valid remote-tracking branch like 'origin/main'."@,
                ),
                Some((remote, branch)) => ensure_remote_branch_stage(
                    repo,
                    track_ref,
                    remote,
                    branch,
                    replies,
                ),
            }
        },
        stage => stage.unfinished(),
    }
}

/// The stages of [`ensure_tracking_reference`] after git has not found the
/// reference under the given name: look for its full name, fetch it, look again
/// for both.
pub open spec fn ensure_remote_branch_stage(
    repo: Seq<char>,
    track_ref: Seq<char>,
    remote: Seq<char>,
    branch: Seq<char>,
    replies: Seq<Outcome>,
) -> Stage<usize> {
    let full = canonical_ref(remote, branch);
    match branch::reference_exists_stage(repo, full, replies.skip(1)) {
        Stage::Done(known) => if known {
            Stage::Done(2)
        } else if replies.len() == 2 {
            Stage::Run(
                command::bare_invocation(repo, seq!["fetch"@, remote, branch + ":"@ + full]),
            )
        } else {
            match session::git_result(replies[2]) {
                Err(error) => Stage::Failed(
                    "Failed to fetch tracking branch '"@ + track_ref + "': "@ + error,
                ),
                Ok(_) => match branch::reference_exists_stage(repo, track_ref, replies.skip(3)) {
                    Stage::Done(found) => if found {
                        Stage::Done(4)
                    } else {
                        match branch::reference_exists_stage(repo, full, replies.skip(4)) {
                            Stage::Done(found_full) => if found_full {
                                Stage::Done(5)
                            } else {
                                Stage::Failed(
                                    "Tracking reference '"@ + track_ref
                                        + "' is still unavailable after fetching from remote '"@
                                        + remote + "'."@,
                                )
                            },
                            stage => stage.unfinished(),
                        }
                    },
                    stage => stage.unfinished(),
                },
            }
        },
        stage => stage.unfinished(),
    }
}

/// Makes sure that a tracking reference exists, and fetches it where it does not.
/// The value is the number of replies that were read.
pub fn ensure_tracking_reference(
    context: &RepoContext,
    track_ref: &str,
    replies: &[GitReply],
) -> (step: Step<usize>)
    ensures
        step.deep_view() == ensure_tracking_reference_stage(
            context@.repo_path,
            track_ref@,
            replies.deep_view(),
        ),
        step matches Step::Done(n) ==> n <= replies@.len(),
{
    match reference_exists(context, track_ref, replies) {
        Step::Done(known) => {
            if known {
                return Step::Done(1);
            }
        },
        step => {
            return step.unfinished();
        },
    }
    let (remote, branch) = match parse_remote_tracking_reference(track_ref) {
        Some(parts) => parts,
        None => {
            let mut message = "Tracking reference '".to_owned();
            message.append(track_ref);
            message.append(
                "' does not exist. Use a valid remote-tracking branch like 'origin/main'.",
            );
            return Step::Failed(message);
        },
    };
    let mut full = "refs/remotes/".to_owned();
    full.append(remote);
    full.append("/");
    full.append(branch);
    match reference_exists(context, full.as_str(), session::after(replies, 1)) {
        Step::Done(known) => {
            if known {
                return Step::Done(2);
            }
        },
        step => {
            return step.unfinished();
        },
    }
    if replies.len() == 2 {
        let mut refspec = branch.to_owned();
        refspec.append(":");
        refspec.append(full.as_str());
        return Step::Run(repo_command(context, &["fetch", remote, refspec.as_str()]));
    }
    if let Err(error) = git_raw(&replies[2]) {
        let mut message = "Failed to fetch tracking branch '".to_owned();
        message.append(track_ref);
        message.append("': ");
        message.append(error.as_str());
        return Step::Failed(message);
    }
    match reference_exists(context, track_ref, session::after(replies, 3)) {
        Step::Done(found) => {
            if found {
                return Step::Done(4);
            }
        },
        step => {
            return step.unfinished();
        },
    }
    match reference_exists(context, full.as_str(), session::after(replies, 4)) {
        Step::Done(found) => {
            if found {
                return Step::Done(5);
            }
            let mut message = "Tracking reference '".to_owned();
            message.append(track_ref);
            message.append("' is still unavailable after fetching from remote '");
            message.append(remote);
            message.append("'.");
            Step::Failed(message)
        },
        step => step.unfinished(),
    }
}

// ---- upstreams ----

/// `git branch --set-upstream-to <upstream> <branch>`.
pub open spec fn set_upstream_invocation(
    repo: Seq<char>,
    upstream: Seq<char>,
    branch_name: Seq<char>,
) -> command::Invocation {
    command::bare_invocation(
        repo,
        seq!["branch"@, "--set-upstream-to"@, upstream, branch_name],
    )
}

/// The stages of [`set_branch_upstream`].
pub open spec fn set_branch_upstream_stage(
    repo: Seq<char>,
    branch_name: Seq<char>,
    track_ref: Seq<char>,
    replies: Seq<Outcome>,
) -> Stage<()> {
    let upstream = tracking::upstream_name(track_ref);
    if replies.len() == 0 {
        Stage::Run(set_upstream_invocation(repo, upstream, branch_name))
    } else {
        match session::git_result(replies[0]) {
            Ok(_) => Stage::Done(()),
            Err(error) => Stage::Failed(
                "Failed to set upstream '"@ + upstream + "' for branch '"@ + branch_name + "': "@
                    + error,
            ),
        }
    }
}

/// Sets the upstream of a branch.
pub fn set_branch_upstream(
    context: &RepoContext,
    branch_name: &str,
    track_ref: &str,
    replies: &[GitReply],
) -> (step: Step<()>)
    ensures
        step.deep_view() == set_branch_upstream_stage(
            context@.repo_path,
            branch_name@,
            track_ref@,
            replies.deep_view(),
        ),
{
    let upstream = normalize_tracking_reference(track_ref);
    if replies.len() == 0 {
        return Step::Run(
            repo_command(
                context,
                &["branch", "--set-upstream-to", upstream.as_str(), branch_name],
            ),
        );
    }
    match git_raw(&replies[0]) {
        Ok(_) => Step::Done(()),
        Err(error) => {
            let mut message = "Failed to set upstream '".to_owned();
            message.append(upstream.as_str());
            message.append("' for branch '");
            message.append(branch_name);
            message.append("': ");
            message.append(error.as_str());
            Step::Failed(message)
        },
    }
}

/// The value of `branch.autoSetupMerge` switches automatic upstreams off: it is
/// `false`, in any case and with white space around it or not.
pub open spec fn says_false(value: Seq<char>) -> bool {
    text::equal_ignoring_case(text::trim(value), "false"@)
}

/// The stages of [`auto_setup_merge_disabled`].
pub open spec fn auto_setup_merge_disabled_stage(repo: Seq<char>, replies: Seq<Outcome>) -> Stage<
    bool,
> {
    if replies.len() == 0 {
        Stage::Run(
            command::bare_invocation(repo, seq!["config"@, "--get"@, "branch.autoSetupMerge"@]),
        )
    } else {
        match session::git_result(replies[0]) {
            Ok(value) => Stage::Done(says_false(value)),
            Err(_) => Stage::Done(false),
        }
    }
}

/// Whether the user has switched automatic upstreams off.
pub fn auto_setup_merge_disabled(context: &RepoContext, replies: &[GitReply]) -> (step: Step<bool>)
    ensures
        step.deep_view() == auto_setup_merge_disabled_stage(
            context@.repo_path,
            replies.deep_view(),
        ),
{
    if replies.len() == 0 {
        return Step::Run(repo_command(context, &["config", "--get", "branch.autoSetupMerge"]));
    }
    match git_raw(&replies[0]) {
        Ok(value) => {
            let chars = text::to_chars(value.as_str());
            let disabled = text::to_chars("false");
            Step::Done(
                text::is_equal_ignoring_case(text::trimmed(chars.as_slice()), disabled.as_slice()),
            )
        },
        Err(_) => Step::Done(false),
    }
}

/// The stages of [`branch_has_upstream`].
pub open spec fn branch_has_upstream_stage(
    repo: Seq<char>,
    branch_name: Seq<char>,
    replies: Seq<Outcome>,
) -> Stage<bool> {
    if replies.len() == 0 {
        Stage::Run(
            command::bare_invocation(
                repo,
                seq![
                    "rev-parse"@,
                    "--abbrev-ref"@,
                    "--symbolic-full-name"@,
                    branch_name + "@{u}"@,
                ],
            ),
        )
    } else {
        Stage::Done(session::succeeded(replies[0]))
    }
}

/// Whether a branch has an upstream.
pub fn branch_has_upstream(
    context: &RepoContext,
    branch_name: &str,
    replies: &[GitReply],
) -> (step: Step<bool>)
    ensures
        step.deep_view() == branch_has_upstream_stage(
            context@.repo_path,
            branch_name@,
            replies.deep_view(),
        ),
{
    if replies.len() == 0 {
        let mut upstream = branch_name.to_owned();
        upstream.append("@{u}");
        return Step::Run(
            repo_command(
                context,
                &["rev-parse", "--abbrev-ref", "--symbolic-full-name", upstream.as_str()],
            ),
        );
    }
    Step::Done(git_raw(&replies[0]).is_ok())
}

/// The stages of [`maybe_set_default_upstream`].
pub open spec fn maybe_set_default_upstream_stage(
    repo: Seq<char>,
    branch_name: Seq<char>,
    replies: Seq<Outcome>,
) -> Stage<()> {
    match auto_setup_merge_disabled_stage(repo, replies) {
        Stage::Done(disabled) => if disabled {
            Stage::Done(())
        } else {
            match branch::reference_exists_stage(
                repo,
                "refs/remotes/origin/"@ + branch_name,
                replies.skip(1),
            ) {
                Stage::Done(on_remote) => if !on_remote {
                    Stage::Done(())
                } else {
                    match branch_has_upstream_stage(repo, branch_name, replies.skip(2)) {
                        Stage::Done(has_upstream) => if has_upstream || replies.len() > 3 {
                            Stage::Done(())
                        } else {
                            Stage::Run(
                                set_upstream_invocation(
                                    repo,
                                    "origin/"@ + branch_name,
                                    branch_name,
                                ),
                            )
                        },
                        stage => stage.unfinished(),
                    }
                },
                stage => stage.unfinished(),
            }
        },
        stage => stage.unfinished(),
    }
}

/// Sets the upstream of a branch to `origin/<branch>` where that exists, the
/// branch has no upstream yet, and the user has not set
/// `branch.autoSetupMerge=false`.
///
/// A bare clone makes local branches without upstreams, which breaks `git push`
/// and `git status` in their worktrees.  Nothing here fails: at worst no upstream
/// is set.
pub fn maybe_set_default_upstream(
    context: &RepoContext,
    branch_name: &str,
    replies: &[GitReply],
) -> (step: Step<()>)
    ensures
        step.deep_view() == maybe_set_default_upstream_stage(
            context@.repo_path,
            branch_name@,
            replies.deep_view(),
        ),
{
    match auto_setup_merge_disabled(context, replies) {
        Step::Done(disabled) => {
            if disabled {
                return Step::Done(());
            }
        },
        step => {
            return step.unfinished();
        },
    }
    let mut remote_ref = "refs/remotes/origin/".to_owned();
    remote_ref.append(branch_name);
    match reference_exists(context, remote_ref.as_str(), session::after(replies, 1)) {
        Step::Done(on_remote) => {
            if !on_remote {
                return Step::Done(());
            }
        },
        step => {
            return step.unfinished();
        },
    }
    match branch_has_upstream(context, branch_name, session::after(replies, 2)) {
        Step::Done(has_upstream) => {
            if has_upstream {
                return Step::Done(());
            }
        },
        step => {
            return step.unfinished();
        },
    }
    if replies.len() > 3 {
        return Step::Done(());
    }
    let mut upstream = "origin/".to_owned();
    upstream.append(branch_name);
    Step::Run(
        repo_command(context, &["branch", "--set-upstream-to", upstream.as_str(), branch_name]),
    )
}

// ---- the operation ----

/// The arguments of `git worktree add`.  The tracking branch counts only for a
/// branch that is created.
pub open spec fn add_worktree_args(
    worktree_path: Seq<char>,
    branch_name: Seq<char>,
    create_branch: bool,
    track: Option<Seq<char>>,
) -> Seq<Seq<char>> {
    if !create_branch {
        seq!["worktree"@, "add"@, worktree_path, branch_name]
    } else {
        match track {
            None => seq!["worktree"@, "add"@, "-b"@, branch_name, worktree_path],
            Some(track_branch) => seq![
                "worktree"@,
                "add"@,
                "-b"@,
                branch_name,
                "--track"@,
                worktree_path,
                track_branch,
            ],
        }
    }
}

/// The arguments of `git worktree add`, see [`add_worktree_args`].
pub fn build_add_worktree_args<'a>(
    worktree_path: &'a str,
    branch_name: &'a str,
    create_branch: bool,
    track: Option<&'a str>,
) -> (args: Vec<&'a str>)
    ensures
        args.deep_view() == add_worktree_args(
            worktree_path@,
            branch_name@,
            create_branch,
            track.deep_view(),
        ),
{
    let mut args: Vec<&'a str> = vec!["worktree", "add"];
    if create_branch {
        args.push("-b");
        args.push(branch_name);
        if track.is_some() {
            args.push("--track");
        }
        args.push(worktree_path);
        if let Some(track_branch) = track {
            args.push(track_branch);
        }
    } else {
        args.push(worktree_path);
        args.push(branch_name);
    }
    assert(args.deep_view() =~= add_worktree_args(
        worktree_path@,
        branch_name@,
        create_branch,
        track.deep_view(),
    ));
    args
}

/// The stages of [`add_worktree`] once the tracking reference, if there is one,
/// is known to exist.
pub open spec fn add_checked_worktree_stage(
    repo: Seq<char>,
    worktree_path: Seq<char>,
    branch_name: Seq<char>,
    create_branch: bool,
    track: Option<Seq<char>>,
    replies: Seq<Outcome>,
) -> Stage<()> {
    if replies.len() == 0 {
        Stage::Run(
            command::bare_invocation(
                repo,
                add_worktree_args(
                    command::git_path(worktree_path),
                    branch_name,
                    create_branch,
                    track,
                ),
            ),
        )
    } else {
        match session::git_result(replies[0]) {
            Err(error) => Stage::Failed("Failed to add worktree: "@ + error),
            Ok(_) => match track {
                Some(track_branch) => set_branch_upstream_stage(
                    repo,
                    branch_name,
                    track_branch,
                    replies.skip(1),
                ),
                None => maybe_set_default_upstream_stage(repo, branch_name, replies.skip(1)),
            },
        }
    }
}

/// The stages of [`add_worktree`]: check the tracking branch, if one is given,
/// and make sure that it exists; add the worktree; set the upstream.
pub open spec fn add_worktree_stage(
    repo: Seq<char>,
    worktree_path: Seq<char>,
    branch_name: Seq<char>,
    create_branch: bool,
    track: Option<Seq<char>>,
    replies: Seq<Outcome>,
) -> Stage<()> {
    match track {
        None => add_checked_worktree_stage(
            repo,
            worktree_path,
            branch_name,
            create_branch,
            None,
            replies,
        ),
        Some(reference) => match tracking::tracking_name(reference) {
            None => Stage::Failed(tracking::invalid_tracking_message(reference)),
            Some(name) => match ensure_tracking_reference_stage(repo, name, replies) {
                Stage::Done(n) => add_checked_worktree_stage(
                    repo,
                    worktree_path,
                    branch_name,
                    create_branch,
                    Some(name),
                    replies.skip(n as int),
                ),
                stage => stage.unfinished(),
            },
        },
    }
}

fn add_checked_worktree(
    context: &RepoContext,
    worktree_path: &str,
    branch_name: &str,
    create_branch: bool,
    track: Option<&str>,
    replies: &[GitReply],
) -> (step: Step<()>)
    ensures
        step.deep_view() == add_checked_worktree_stage(
            context@.repo_path,
            worktree_path@,
            branch_name@,
            create_branch,
            track.deep_view(),
            replies.deep_view(),
        ),
{
    if replies.len() == 0 {
        let path = normalize_path_for_git(worktree_path);
        let args = build_add_worktree_args(path.as_str(), branch_name, create_branch, track);
        return Step::Run(repo_command(context, args.as_slice()));
    }
    if let Err(error) = git_raw(&replies[0]) {
        let mut message = "Failed to add worktree: ".to_owned();
        message.append(error.as_str());
        return Step::Failed(message);
    }
    match track {
        Some(track_branch) => set_branch_upstream(
            context,
            branch_name,
            track_branch,
            session::after(replies, 1),
        ),
        None => maybe_set_default_upstream(context, branch_name, session::after(replies, 1)),
    }
}

/// Adds a worktree for a branch, which is created or exists already, and sets the
/// branch's upstream.
pub fn add_worktree(
    context: &RepoContext,
    worktree_path: &str,
    branch_name: &str,
    create_branch: bool,
    track: Option<&str>,
    replies: &[GitReply],
) -> (step: Step<()>)
    ensures
        step.deep_view() == add_worktree_stage(
            context@.repo_path,
            worktree_path@,
            branch_name@,
            create_branch,
            track.deep_view(),
            replies.deep_view(),
        ),
{
    let reference = match track {
        None => {
            return add_checked_worktree(
                context,
                worktree_path,
                branch_name,
                create_branch,
                None,
                replies,
            );
        },
        Some(reference) => reference,
    };
    let name = match normalize_tracking_reference_input(reference) {
        Ok(name) => name,
        Err(message) => {
            return Step::Failed(message);
        },
    };
    match ensure_tracking_reference(context, name.as_str(), replies) {
        Step::Done(n) => add_checked_worktree(
            context,
            worktree_path,
            branch_name,
            create_branch,
            Some(name.as_str()),
            session::after(replies, n),
        ),
        step => step.unfinished(),
    }
}

} // verus!
