//! Laws on removing worktrees.

use vstd::prelude::*;

use crate::command;
use crate::laws::replies;
use crate::remove;
use crate::session::{Outcome, Stage};
use crate::worktree::WorktreeInfo;

verus! {

/// Removing a worktree runs `git worktree remove <path>`, with `--force` exactly
/// where force is set, and then ends as the reply says.
pub proof fn law_removal_is_forced_only_on_request(
    repo: Seq<char>,
    path: Seq<char>,
    force: bool,
    replies: Seq<Outcome>,
)
    ensures
        ({
            let stage = remove::remove_worktree_stage(repo, path, force, replies);
            let given = command::git_path(path);
            &&& replies.len() == 0 && !force ==> stage == Stage::<()>::Run(
                replies::on_clone(repo, seq!["worktree"@, "remove"@, given]),
            )
            &&& replies.len() == 0 && force ==> stage == Stage::<()>::Run(
                replies::on_clone(repo, seq!["worktree"@, "remove"@, "--force"@, given]),
            )
            &&& replies.len() > 0 && replies::went_well(replies[0]) ==> stage == Stage::<
                (),
            >::Done(())
            &&& replies.len() > 0 && !replies::went_well(replies[0]) ==> stage == Stage::<
                (),
            >::Failed("Failed to remove worktree: "@ + replies::complaint(replies[0]))
        }),
{
}

/// A command of this stage holds the argument `--force` after `worktree remove`
/// exactly where force is set, and then the path.
pub open spec fn forces_as_told<V>(stage: Stage<V>, path: Seq<char>, force: bool) -> bool {
    stage matches Stage::Run(invocation) && invocation.args == (if force {
        seq!["worktree"@, "remove"@, "--force"@, command::git_path(path)]
    } else {
        seq!["worktree"@, "remove"@, command::git_path(path)]
    })
}

/// Removing several worktrees runs one command for each, in their order and whatever
/// became of those before it: after `n` replies, the very command that removing the
/// worktree at position `n` alone with the same force runs.  Without force `--force`
/// is nowhere among the arguments, unless that is the path itself.
pub proof fn law_each_removal_is_forced_only_on_request(
    repo: Seq<char>,
    worktrees: Seq<WorktreeInfo>,
    force: bool,
    replies: Seq<Outcome>,
)
    requires
        replies.len() < worktrees.len(),
    ensures
        ({
            let path = worktrees[replies.len() as int].path;
            let stage = remove::remove_worktrees_stage(repo, worktrees, force, replies);
            &&& forces_as_told(stage, path, force)
            &&& remove::remove_worktree_stage(repo, path, force, Seq::empty()) matches Stage::Run(
                alone,
            )
            &&& stage matches Stage::Run(invocation)
            &&& invocation == alone
        }),
        !force && command::git_path(worktrees[replies.len() as int].path) != "--force"@ ==> (
        remove::remove_worktrees_stage(repo, worktrees, force, replies) matches Stage::Run(
            invocation,
        ) && !invocation.args.contains("--force"@)),
{
    reveal_strlit("worktree");
    reveal_strlit("remove");
    reveal_strlit("--force");
    assert("worktree"@.len() != "--force"@.len());
    assert("remove"@.len() != "--force"@.len());
}

/// What removing a list of worktrees reports is what removing its parts reports, one
/// part after the other.
pub proof fn law_removals_concatenate(
    first: Seq<WorktreeInfo>,
    second: Seq<WorktreeInfo>,
    replies: Seq<Outcome>,
)
    requires
        replies.len() >= first.len() + second.len(),
    ensures
        remove::removed_paths(first + second, replies) == remove::removed_paths(first, replies)
            + remove::removed_paths(second, replies.skip(first.len() as int)),
        remove::failed_removals(first + second, replies) == remove::failed_removals(
            first,
            replies,
        ) + remove::failed_removals(second, replies.skip(first.len() as int)),
    decreases second.len(),
{
    let rest = replies.skip(first.len() as int);
    if second.len() == 0 {
        assert(first + second =~= first);
        assert(remove::removed_paths(second, rest) =~= Seq::empty());
        assert(remove::failed_removals(second, rest) =~= Seq::empty());
    } else {
        law_removals_concatenate(first, second.drop_last(), replies);
        assert((first + second).drop_last() =~= first + second.drop_last());
        assert(rest[second.len() - 1] == replies[(first + second).len() - 1]);
    }
    assert(remove::removed_paths(first + second, replies) =~= remove::removed_paths(first, replies)
        + remove::removed_paths(second, rest));
    assert(remove::failed_removals(first + second, replies) =~= remove::failed_removals(
        first,
        replies,
    ) + remove::failed_removals(second, rest));
}

/// One worktree is reported as removed where git went well, and as failed with its
/// error where it did not, but never as both.
pub proof fn law_one_removal_is_reported(worktree: WorktreeInfo, replies: Seq<Outcome>)
    requires
        replies.len() > 0,
    ensures
        remove::removed_paths(seq![worktree], replies) == (if replies::went_well(replies[0]) {
            seq![worktree.path]
        } else {
            Seq::empty()
        }),
        remove::failed_removals(seq![worktree], replies) == (if replies::went_well(replies[0]) {
            Seq::empty()
        } else {
            seq![
                (
                    worktree.path,
                    "Failed to remove worktree: "@ + replies::complaint(replies[0]),
                ),
            ]
        }),
{
    reveal_with_fuel(remove::removed_paths, 2);
    reveal_with_fuel(remove::failed_removals, 2);
    assert(seq![worktree].drop_last() =~= Seq::empty());
    assert(remove::removed_paths(seq![worktree], replies) =~= (if replies::went_well(replies[0]) {
        seq![worktree.path]
    } else {
        Seq::empty()
    }));
    assert(remove::failed_removals(seq![worktree], replies) =~= (if replies::went_well(
        replies[0],
    ) {
        Seq::empty()
    } else {
        seq![
            (worktree.path, "Failed to remove worktree: "@ + replies::complaint(replies[0])),
        ]
    }));
}

/// When every worktree has its reply, removing them is over with these reports: each
/// path is under the removed ones or under the failed ones, in the order of the
/// worktrees.
pub proof fn law_removals_are_over(
    repo: Seq<char>,
    worktrees: Seq<WorktreeInfo>,
    force: bool,
    replies: Seq<Outcome>,
)
    requires
        replies.len() >= worktrees.len(),
    ensures
        remove::remove_worktrees_stage(repo, worktrees, force, replies) == Stage::Done(
            (
                remove::removed_paths(worktrees, replies),
                remove::failed_removals(worktrees, replies),
            ),
        ),
{
}

} // verus!
