//! Removing worktrees.

use vstd::prelude::*;

use crate::command;
use crate::command::{normalize_path_for_git, repo_command, RepoContext};
use crate::session;
use crate::session::{git_raw, GitReply, Outcome, Stage, Step};
use crate::worktree::{Worktree, WorktreeInfo};

verus! {

/// The arguments of `git worktree remove`.
pub open spec fn remove_worktree_args(worktree_path: Seq<char>, force: bool) -> Seq<Seq<char>> {
    if force {
        seq!["worktree"@, "remove"@, "--force"@, command::git_path(worktree_path)]
    } else {
        seq!["worktree"@, "remove"@, command::git_path(worktree_path)]
    }
}

/// The error of [`remove_worktree`], if the reply shows one.
pub open spec fn removal_error(outcome: Outcome) -> Option<Seq<char>> {
    match session::git_result(outcome) {
        Ok(_) => None,
        Err(error) => Some("Failed to remove worktree: "@ + error),
    }
}

/// The stages of [`remove_worktree`].
pub open spec fn remove_worktree_stage(
    repo: Seq<char>,
    worktree_path: Seq<char>,
    force: bool,
    replies: Seq<Outcome>,
) -> Stage<()> {
    if replies.len() == 0 {
        Stage::Run(command::bare_invocation(repo, remove_worktree_args(worktree_path, force)))
    } else {
        match removal_error(replies[0]) {
            None => Stage::Done(()),
            Some(error) => Stage::Failed(error),
        }
    }
}

/// Removes a worktree, even with uncommitted changes where `force` is set.
pub fn remove_worktree(
    context: &RepoContext,
    worktree_path: &str,
    force: bool,
    replies: &[GitReply],
) -> (step: Step<()>)
    ensures
        step.deep_view() == remove_worktree_stage(
            context@.repo_path,
            worktree_path@,
            force,
            replies.deep_view(),
        ),
{
    if replies.len() == 0 {
        let path = normalize_path_for_git(worktree_path);
        let mut args: Vec<&str> = vec!["worktree", "remove"];
        if force {
            args.push("--force");
        }
        args.push(path.as_str());
        assert(args.deep_view() =~= remove_worktree_args(worktree_path@, force));
        return Step::Run(repo_command(context, args.as_slice()));
    }
    match git_raw(&replies[0]) {
        Ok(_) => Step::Done(()),
        Err(error) => {
            let mut message = "Failed to remove worktree: ".to_owned();
            message.append(error.as_str());
            Step::Failed(message)
        },
    }
}

/// The paths of the worktrees that were removed, in their order.
pub open spec fn removed_paths(worktrees: Seq<WorktreeInfo>, replies: Seq<Outcome>) -> Seq<
    Seq<char>,
>
    decreases worktrees.len(),
{
    if worktrees.len() == 0 {
        Seq::empty()
    } else {
        let n = worktrees.len() - 1;
        let before = removed_paths(worktrees.drop_last(), replies);
        match removal_error(replies[n]) {
            None => before.push(worktrees[n].path),
            Some(_) => before,
        }
    }
}

/// The paths of the worktrees that were not removed, in their order, each with
/// its error.
pub open spec fn failed_removals(worktrees: Seq<WorktreeInfo>, replies: Seq<Outcome>) -> Seq<
    (Seq<char>, Seq<char>),
>
    decreases worktrees.len(),
{
    if worktrees.len() == 0 {
        Seq::empty()
    } else {
        let n = worktrees.len() - 1;
        let before = failed_removals(worktrees.drop_last(), replies);
        match removal_error(replies[n]) {
            None => before,
            Some(error) => before.push((worktrees[n].path, error)),
        }
    }
}

/// The stages of [`remove_worktrees`]: each worktree in turn, whatever became of
/// those before it.
pub open spec fn remove_worktrees_stage(
    repo: Seq<char>,
    worktrees: Seq<WorktreeInfo>,
    force: bool,
    replies: Seq<Outcome>,
) -> Stage<(Seq<Seq<char>>, Seq<(Seq<char>, Seq<char>)>)> {
    let n = replies.len() as int;
    if n < worktrees.len() {
        Stage::Run(command::bare_invocation(repo, remove_worktree_args(worktrees[n].path, force)))
    } else {
        Stage::Done((removed_paths(worktrees, replies), failed_removals(worktrees, replies)))
    }
}

/// Removes several worktrees.  The value holds the paths that were removed, and
/// those that were not, each with its error.
pub fn remove_worktrees(
    context: &RepoContext,
    worktrees: &[Worktree],
    force: bool,
    replies: &[GitReply],
) -> (step: Step<(Vec<String>, Vec<(String, String)>)>)
    ensures
        step.deep_view() == remove_worktrees_stage(
            context@.repo_path,
            worktrees.deep_view(),
            force,
            replies.deep_view(),
        ),
{
    let ghost infos = worktrees.deep_view();
    let ghost outcomes = replies.deep_view();
    let mut removed: Vec<String> = Vec::new();
    let mut failed: Vec<(String, String)> = Vec::new();
    let mut i: usize = 0;
    assert(infos.take(0) =~= Seq::empty());
    while i < worktrees.len()
        invariant
            i <= worktrees@.len(),
            i <= replies@.len(),
            infos == worktrees.deep_view(),
            outcomes == replies.deep_view(),
            removed.deep_view() == removed_paths(infos.take(i as int), outcomes),
            failed.deep_view() == failed_removals(infos.take(i as int), outcomes),
        decreases worktrees@.len() - i,
    {
        let path = worktrees[i].path.clone();
        assert(infos.take(i + 1).drop_last() =~= infos.take(i as int));
        assert(outcomes.skip(i as int).len() > 0 ==> outcomes.skip(i as int)[0]
            == outcomes[i as int]);
        match remove_worktree(context, path.as_str(), force, session::after(replies, i)) {
            Step::Done(()) => {
                let ghost before = removed.deep_view();
                removed.push(path);
                assert(removed.deep_view() =~= before.push(infos[i as int].path));
            },
            Step::Failed(error) => {
                let ghost before = failed.deep_view();
                let ghost text = error@;
                failed.push((path, error));
                assert(failed.deep_view() =~= before.push((infos[i as int].path, text)));
            },
            step => {
                return step.unfinished();
            },
        }
        i += 1;
    }
    assert(infos.take(i as int) =~= infos);
    Step::Done((removed, failed))
}

} // verus!
