//! Laws on the operations that talk to git.

use vstd::prelude::*;

use crate::add;
use crate::bare_clone;
use crate::branch;
use crate::command;
use crate::list;
use crate::porcelain;
use crate::remove;
use crate::session;
use crate::session::{Outcome, Stage};
use crate::text;
use crate::times::FileTimes;
use crate::tracking;
use crate::worktree;
use crate::worktree::WorktreeInfo;

verus! {

// ---- which repository a command works on ----

/// A command of this stage identifies the bare clone by `GIT_DIR`, in the form
/// that git accepts, and sets no working directory.
pub open spec fn on_bare_clone<V>(stage: Stage<V>, repo: Seq<char>) -> bool {
    stage matches Stage::Run(invocation) ==> {
        &&& invocation.git_dir == Some(command::git_path(repo))
        &&& invocation.current_dir is None
    }
}

/// Every command on a branch works on the bare clone by `GIT_DIR`.
pub proof fn law_branch_commands_use_git_dir(
    repo: Seq<char>,
    branch: Seq<char>,
    base: Seq<char>,
    replies: Seq<Outcome>,
)
    ensures
        on_bare_clone(branch::reference_exists_stage(repo, branch, replies), repo),
        on_bare_clone(branch::is_branch_merged_stage(repo, branch, base, replies), repo),
        on_bare_clone(branch::is_squash_merged_stage(repo, branch, base, replies), repo),
        on_bare_clone(branch::get_default_branch_stage(repo, replies), repo),
        on_bare_clone(branch::sync_branch_stage(repo, branch, replies), repo),
{
}

/// Every command that adds or removes a worktree works on the bare clone by
/// `GIT_DIR`.
pub proof fn law_worktree_commands_use_git_dir(
    repo: Seq<char>,
    path: Seq<char>,
    branch_name: Seq<char>,
    create_branch: bool,
    track: Option<Seq<char>>,
    worktrees: Seq<WorktreeInfo>,
    force: bool,
    replies: Seq<Outcome>,
)
    ensures
        on_bare_clone(
            add::add_worktree_stage(repo, path, branch_name, create_branch, track, replies),
            repo,
        ),
        on_bare_clone(remove::remove_worktree_stage(repo, path, force, replies), repo),
        on_bare_clone(remove::remove_worktrees_stage(repo, worktrees, force, replies), repo),
{
}

/// Listing the worktrees runs one command on the bare clone by `GIT_DIR`; every
/// other command is a status inside a worktree that was listed, which it reaches
/// by the working directory and without `GIT_DIR`.
pub proof fn law_list_commands_are_scoped(
    repo: Seq<char>,
    replies: Seq<Outcome>,
    times: Seq<Option<FileTimes>>,
)
    ensures
        replies.len() == 0 ==> on_bare_clone(
            list::list_worktrees_stage(repo, replies, times),
            repo,
        ),
        replies.len() > 0 ==> (list::list_worktrees_stage(repo, replies, times) matches Stage::Run(
            invocation,
        ) ==> {
            let entries = porcelain::listing(session::output_or_empty(replies[0]));
            let n = replies.len() - 1;
            &&& n < entries.len()
            &&& invocation.git_dir is None
            &&& invocation.current_dir == Some(worktree::or_empty(entries[n].path))
        }),
{
}

/// Cloning runs one command that targets no repository; every other works on the
/// new bare clone by `GIT_DIR`.
pub proof fn law_clone_commands_are_scoped(
    git_url: Seq<char>,
    target_dir: Seq<char>,
    replies: Seq<Outcome>,
)
    ensures
        replies.len() == 0 ==> (bare_clone::clone_bare_repository_stage(
            git_url,
            target_dir,
            replies,
        ) matches Stage::Run(invocation) && invocation.git_dir is None
            && invocation.current_dir is None),
        replies.len() > 0 ==> on_bare_clone(
            bare_clone::clone_bare_repository_stage(git_url, target_dir, replies),
            target_dir,
        ),
{
}

// ---- every operation ends ----

/// Each operation on branches is over after at most three replies.
pub proof fn law_branch_operations_end(
    repo: Seq<char>,
    branch: Seq<char>,
    base: Seq<char>,
    replies: Seq<Outcome>,
)
    ensures
        replies.len() >= 1 ==> branch::reference_exists_stage(repo, branch, replies).is_over(),
        replies.len() >= 1 ==> branch::sync_branch_stage(repo, branch, replies).is_over(),
        replies.len() >= 3 ==> branch::is_branch_merged_stage(
            repo,
            branch,
            base,
            replies,
        ).is_over(),
        replies.len() >= 3 ==> branch::get_default_branch_stage(repo, replies).is_over(),
{
}

/// Adding a worktree is over after at most five replies, or seven with a tracking
/// branch.  Cloning is over after four, removing worktrees after one each.
pub proof fn law_worktree_operations_end(
    repo: Seq<char>,
    path: Seq<char>,
    branch_name: Seq<char>,
    create_branch: bool,
    track: Option<Seq<char>>,
    worktrees: Seq<WorktreeInfo>,
    force: bool,
    replies: Seq<Outcome>,
)
    ensures
        replies.len() >= (if track is Some {
            7int
        } else {
            5
        }) ==> add::add_worktree_stage(
            repo,
            path,
            branch_name,
            create_branch,
            track,
            replies,
        ).is_over(),
        replies.len() >= 4 ==> bare_clone::clone_bare_repository_stage(
            branch_name,
            path,
            replies,
        ).is_over(),
        replies.len() >= 1 ==> remove::remove_worktree_stage(repo, path, force, replies).is_over(),
        replies.len() >= worktrees.len() ==> remove::remove_worktrees_stage(
            repo,
            worktrees,
            force,
            replies,
        ).is_over(),
{
}

/// Listing is over when the listing has been read and each listed worktree has
/// its status and its file times.
pub proof fn law_list_ends(repo: Seq<char>, replies: Seq<Outcome>, times: Seq<Option<FileTimes>>)
    requires
        replies.len() > 0,
        ({
            let entries = porcelain::listing(session::output_or_empty(replies[0]));
            replies.len() > entries.len() && times.len() >= entries.len()
        }),
    ensures
        list::list_worktrees_stage(repo, replies, times).is_over(),
{
}

// ---- an operation that is over stays as it is ----

/// Once an operation on branches is over, further replies do not change its
/// outcome.
pub proof fn law_branch_operations_settle(
    repo: Seq<char>,
    branch: Seq<char>,
    base: Seq<char>,
    replies: Seq<Outcome>,
    more: Seq<Outcome>,
)
    ensures
        branch::reference_exists_stage(repo, branch, replies).is_over()
            ==> branch::reference_exists_stage(repo, branch, replies + more)
            == branch::reference_exists_stage(repo, branch, replies),
        branch::sync_branch_stage(repo, branch, replies).is_over() ==> branch::sync_branch_stage(
            repo,
            branch,
            replies + more,
        ) == branch::sync_branch_stage(repo, branch, replies),
        branch::is_branch_merged_stage(repo, branch, base, replies).is_over()
            ==> branch::is_branch_merged_stage(repo, branch, base, replies + more)
            == branch::is_branch_merged_stage(repo, branch, base, replies),
        branch::get_default_branch_stage(repo, replies).is_over()
            ==> branch::get_default_branch_stage(repo, replies + more)
            == branch::get_default_branch_stage(repo, replies),
{
}

/// Once adding a worktree is over, further replies do not change its outcome.
pub proof fn law_add_worktree_settles(
    repo: Seq<char>,
    path: Seq<char>,
    branch_name: Seq<char>,
    create_branch: bool,
    track: Option<Seq<char>>,
    replies: Seq<Outcome>,
    more: Seq<Outcome>,
)
    requires
        add::add_worktree_stage(
            repo,
            path,
            branch_name,
            create_branch,
            track,
            replies,
        ).is_over(),
    ensures
        add::add_worktree_stage(repo, path, branch_name, create_branch, track, replies + more)
            == add::add_worktree_stage(repo, path, branch_name, create_branch, track, replies),
{
}

/// Once cloning is over, further replies do not change its outcome.
pub proof fn law_clone_settles(
    git_url: Seq<char>,
    target_dir: Seq<char>,
    replies: Seq<Outcome>,
    more: Seq<Outcome>,
)
    requires
        bare_clone::clone_bare_repository_stage(git_url, target_dir, replies).is_over(),
    ensures
        bare_clone::clone_bare_repository_stage(git_url, target_dir, replies + more)
            == bare_clone::clone_bare_repository_stage(git_url, target_dir, replies),
{
}

/// What became of the first worktrees does not depend on further replies.
proof fn lemma_removals_settle(
    worktrees: Seq<WorktreeInfo>,
    replies: Seq<Outcome>,
    more: Seq<Outcome>,
)
    requires
        worktrees.len() <= replies.len(),
    ensures
        remove::removed_paths(worktrees, replies + more) == remove::removed_paths(
            worktrees,
            replies,
        ),
        remove::failed_removals(worktrees, replies + more) == remove::failed_removals(
            worktrees,
            replies,
        ),
    decreases worktrees.len(),
{
    if worktrees.len() > 0 {
        lemma_removals_settle(worktrees.drop_last(), replies, more);
    }
}

/// Once removing worktrees is over, further replies do not change its outcome.
pub proof fn law_remove_worktrees_settles(
    repo: Seq<char>,
    worktrees: Seq<WorktreeInfo>,
    force: bool,
    replies: Seq<Outcome>,
    more: Seq<Outcome>,
)
    requires
        remove::remove_worktrees_stage(repo, worktrees, force, replies).is_over(),
    ensures
        remove::remove_worktrees_stage(repo, worktrees, force, replies + more)
            == remove::remove_worktrees_stage(repo, worktrees, force, replies),
{
    lemma_removals_settle(worktrees, replies, more);
}

/// Once listing, or finding a worktree by name, is over, further replies and file
/// times do not change its outcome.
pub proof fn law_list_settles(
    repo: Seq<char>,
    name: Seq<char>,
    replies: Seq<Outcome>,
    times: Seq<Option<FileTimes>>,
    directories: Seq<Option<Seq<char>>>,
    more_replies: Seq<Outcome>,
    more_times: Seq<Option<FileTimes>>,
)
    requires
        list::list_worktrees_stage(repo, replies, times).is_over(),
    ensures
        list::list_worktrees_stage(repo, replies + more_replies, times + more_times)
            == list::list_worktrees_stage(repo, replies, times),
        list::find_worktree_by_name_stage(
            repo,
            name,
            replies + more_replies,
            times + more_times,
            directories,
        ) == list::find_worktree_by_name_stage(repo, name, replies, times, directories),
{
    let before = list::list_worktrees_stage(repo, replies, times);
    let after = list::list_worktrees_stage(repo, replies + more_replies, times + more_times);
    if before is Done {
        assert((replies + more_replies).skip(1) =~= replies.skip(1) + more_replies);
        assert(before->Done_0 =~= after->Done_0);
    }
}

// ---- adding a worktree ----

/// A tracking branch that is not of the form `<remote>/<branch>`, or not valid, is
/// refused before any command is run, whatever the other arguments are.
pub proof fn law_invalid_tracking_branch_is_refused(
    repo: Seq<char>,
    path: Seq<char>,
    branch_name: Seq<char>,
    create_branch: bool,
    reference: Seq<char>,
    replies: Seq<Outcome>,
)
    requires
        tracking::tracking_name(reference) is None,
    ensures
        add::add_worktree_stage(repo, path, branch_name, create_branch, Some(reference), replies)
            == Stage::<()>::Failed(tracking::invalid_tracking_message(reference)),
{
}

/// Without a tracking branch, adding a worktree fails exactly where `git worktree
/// add` does: what becomes of the upstream never matters.
pub proof fn law_default_upstream_never_fails(
    repo: Seq<char>,
    path: Seq<char>,
    branch_name: Seq<char>,
    create_branch: bool,
    replies: Seq<Outcome>,
)
    ensures
        ({
            let stage = add::add_worktree_stage(
                repo,
                path,
                branch_name,
                create_branch,
                None,
                replies,
            );
            &&& stage is Failed <==> replies.len() > 0 && !session::succeeded(replies[0])
            &&& stage is Done ==> session::succeeded(replies[0])
        }),
        !(add::maybe_set_default_upstream_stage(repo, branch_name, replies) is Failed),
{
}

/// `branch.autoSetupMerge=false` is honoured: the operation is over as soon as git
/// has reported it, and no upstream is set.
pub proof fn law_auto_setup_merge_opts_out(
    repo: Seq<char>,
    branch_name: Seq<char>,
    replies: Seq<Outcome>,
)
    requires
        replies.len() > 0,
        session::succeeded(replies[0]),
        add::says_false(session::output_or_empty(replies[0])),
    ensures
        add::maybe_set_default_upstream_stage(repo, branch_name, replies) == Stage::<()>::Done(()),
{
}

/// The one `git branch` command is run exactly after git has reported that
/// automatic upstreams are not switched off, that `origin` has the branch, and that
/// the branch has no upstream; it sets `origin/<branch>`.
pub proof fn law_default_upstream_is_set_only_where_missing(
    repo: Seq<char>,
    branch_name: Seq<char>,
    replies: Seq<Outcome>,
)
    ensures
        (add::maybe_set_default_upstream_stage(repo, branch_name, replies) matches Stage::Run(
            invocation,
        ) && invocation.args[0] == "branch"@) <==> {
            &&& replies.len() == 3
            &&& !(session::succeeded(replies[0]) && add::says_false(
                session::output_or_empty(replies[0]),
            ))
            &&& session::succeeded(replies[1])
            &&& !session::succeeded(replies[2])
        },
        add::maybe_set_default_upstream_stage(repo, branch_name, replies) matches Stage::Run(
            invocation,
        ) ==> invocation.args[0] == "branch"@ ==> invocation == add::set_upstream_invocation(
            repo,
            "origin/"@ + branch_name,
            branch_name,
        ),
{
    reveal_strlit("branch");
    reveal_strlit("config");
    reveal_strlit("rev-parse");
    assert("branch"@[0] != "config"@[0]);
    assert("branch"@[0] != "rev-parse"@[0]);
}

/// `git rev-parse --verify <reference>` on the bare clone.
pub open spec fn verification(repo: Seq<char>, reference: Seq<char>) -> command::Invocation {
    command::bare_invocation(repo, seq!["rev-parse"@, "--verify"@, reference])
}

/// A tracking reference is taken to exist only after git has resolved it under the
/// given name or under its full name: the last reply that was read is a success, and
/// the command that it answers verified one of these.  Nothing is fetched where git
/// resolves the reference at once.
pub proof fn law_tracking_reference_is_resolved(
    repo: Seq<char>,
    track_ref: Seq<char>,
    replies: Seq<Outcome>,
)
    ensures
        add::ensure_tracking_reference_stage(repo, track_ref, replies) matches Stage::Done(n) ==> {
            let before = add::ensure_tracking_reference_stage(
                repo,
                track_ref,
                replies.take(n - 1),
            );
            &&& 0 < n <= replies.len()
            &&& session::succeeded(replies[n - 1])
            &&& {
                ||| before == Stage::<usize>::Run(verification(repo, track_ref))
                ||| tracking::remote_and_branch(track_ref) matches Some((remote, branch)) && before
                    == Stage::<usize>::Run(
                    verification(repo, add::canonical_ref(remote, branch)),
                )
            }
        },
        replies.len() > 0 && session::succeeded(replies[0])
            ==> add::ensure_tracking_reference_stage(repo, track_ref, replies)
            == Stage::<usize>::Done(1),
{
}

/// With a tracking branch, adding a worktree succeeds exactly where the tracking
/// branch is valid and could be resolved, git has added the worktree, and git has
/// then set the upstream.
pub proof fn law_add_with_tracking_branch_succeeds(
    repo: Seq<char>,
    path: Seq<char>,
    branch_name: Seq<char>,
    create_branch: bool,
    reference: Seq<char>,
    replies: Seq<Outcome>,
)
    ensures
        add::add_worktree_stage(repo, path, branch_name, create_branch, Some(reference), replies)
            is Done <==> {
            &&& tracking::tracking_name(reference) matches Some(name)
            &&& add::ensure_tracking_reference_stage(repo, name, replies) matches Stage::Done(n)
            &&& n + 2 <= replies.len()
            &&& session::succeeded(replies[n as int])
            &&& session::succeeded(replies[n + 1])
        },
{
}

/// For a branch that exists already, a tracking branch does not change how the
/// worktree is added.
pub proof fn law_existing_branch_ignores_tracking_branch(
    path: Seq<char>,
    branch_name: Seq<char>,
    track: Option<Seq<char>>,
)
    ensures
        add::add_worktree_args(path, branch_name, false, track) == add::add_worktree_args(
            path,
            branch_name,
            false,
            None,
        ),
{
}

// ---- cloning ----

/// Cloning succeeds exactly where the clone, its configuration and the fetch do:
/// whether `origin/HEAD` could be set does not matter.
pub proof fn law_set_head_is_not_needed(
    git_url: Seq<char>,
    target_dir: Seq<char>,
    replies: Seq<Outcome>,
)
    requires
        replies.len() >= 4,
    ensures
        bare_clone::clone_bare_repository_stage(git_url, target_dir, replies) is Done <==> {
            &&& session::succeeded(replies[0])
            &&& session::succeeded(replies[1])
            &&& session::succeeded(replies[2])
        },
{
}

// ---- removing worktrees ----

/// Every worktree is either removed or reported with its error, and there are as
/// many reports as worktrees.
pub proof fn law_every_removal_is_reported(worktrees: Seq<WorktreeInfo>, replies: Seq<Outcome>)
    requires
        worktrees.len() <= replies.len(),
    ensures
        remove::removed_paths(worktrees, replies).len() + remove::failed_removals(
            worktrees,
            replies,
        ).len() == worktrees.len(),
        forall|i: int|
            0 <= i < worktrees.len() ==> match remove::removal_error(#[trigger] replies[i]) {
                None => remove::removed_paths(worktrees, replies).contains(worktrees[i].path),
                Some(error) => remove::failed_removals(worktrees, replies).contains(
                    (worktrees[i].path, error),
                ),
            },
    decreases worktrees.len(),
{
    if worktrees.len() > 0 {
        let n = worktrees.len() - 1;
        let earlier = worktrees.drop_last();
        law_every_removal_is_reported(earlier, replies);
        let removed = remove::removed_paths(worktrees, replies);
        let failed = remove::failed_removals(worktrees, replies);
        let removed_before = remove::removed_paths(earlier, replies);
        let failed_before = remove::failed_removals(earlier, replies);
        assert forall|i: int| 0 <= i < worktrees.len() implies match remove::removal_error(
            #[trigger] replies[i],
        ) {
            None => removed.contains(worktrees[i].path),
            Some(error) => failed.contains((worktrees[i].path, error)),
        } by {
            match remove::removal_error(replies[i]) {
                None => {
                    if i < n {
                        let k = choose|k: int|
                            0 <= k < removed_before.len() && removed_before[k] == worktrees[i].path;
                        assert(removed[k] == worktrees[i].path);
                    } else {
                        assert(removed.last() == worktrees[i].path);
                    }
                },
                Some(error) => {
                    if i < n {
                        let k = choose|k: int|
                            0 <= k < failed_before.len() && failed_before[k] == (
                                worktrees[i].path,
                                error,
                            );
                        assert(failed[k] == (worktrees[i].path, error));
                    } else {
                        assert(failed.last() == (worktrees[i].path, error));
                    }
                },
            }
        }
    }
}

/// Where every removal succeeds, the removed paths are those of the worktrees, in
/// their order, and no error is reported.
pub proof fn law_all_worktrees_removed(worktrees: Seq<WorktreeInfo>, replies: Seq<Outcome>)
    requires
        worktrees.len() <= replies.len(),
        forall|i: int| 0 <= i < worktrees.len() ==> session::succeeded(#[trigger] replies[i]),
    ensures
        remove::removed_paths(worktrees, replies) == worktrees.map_values(
            |worktree: WorktreeInfo| worktree.path,
        ),
        remove::failed_removals(worktrees, replies).len() == 0,
    decreases worktrees.len(),
{
    if worktrees.len() > 0 {
        law_all_worktrees_removed(worktrees.drop_last(), replies);
    }
    assert(remove::removed_paths(worktrees, replies) =~= worktrees.map_values(
        |worktree: WorktreeInfo| worktree.path,
    ));
}

// ---- branches ----

/// Whether a branch is merged cannot be told exactly where `git branch --merged`
/// fails; a branch that it lists is merged, whatever else git would say.
pub proof fn law_listed_branches_are_merged(
    repo: Seq<char>,
    branch: Seq<char>,
    base: Seq<char>,
    replies: Seq<Outcome>,
)
    requires
        replies.len() > 0,
    ensures
        branch::is_branch_merged_stage(repo, branch, base, replies) is Failed
            <==> !session::succeeded(replies[0]),
        session::succeeded(replies[0]) && branch::lists_branch(
            session::output_or_empty(replies[0]),
            branch,
        ) ==> branch::is_branch_merged_stage(repo, branch, base, replies) == Stage::<bool>::Done(
            true,
        ),
{
}

/// Looking for a squash merge never fails.  A branch on which no file has changed
/// counts as merged at once; otherwise it does exactly where git finds no
/// difference in the files that have changed.
pub proof fn law_squash_merge_is_decided(
    repo: Seq<char>,
    branch: Seq<char>,
    base: Seq<char>,
    replies: Seq<Outcome>,
)
    requires
        replies.len() >= 2,
    ensures
        branch::is_squash_merged_stage(repo, branch, base, replies) == Stage::Done(
            {
                ||| branch::non_empty(text::lines(session::output_or_empty(replies[0]))).len() == 0
                ||| text::trim(session::output_or_empty(replies[1])).len() == 0
            },
        ),
{
}

/// The default branch is unknown exactly where `origin/HEAD` cannot be read and
/// neither `main` nor `master` exists.
pub proof fn law_default_branch_is_unknown(repo: Seq<char>, replies: Seq<Outcome>)
    requires
        replies.len() >= 3,
    ensures
        branch::get_default_branch_stage(repo, replies) is Failed <==> {
            &&& !session::succeeded(replies[0])
            &&& !session::succeeded(replies[1])
            &&& !session::succeeded(replies[2])
        },
{
}

/// The default branch is the one that `origin/HEAD` points to, where git can say
/// so.  Its name may hold neither white space at its end nor the prefix of the
/// remote, which is taken out of it.
pub proof fn law_default_branch_is_that_of_origin(
    repo: Seq<char>,
    branch: Seq<char>,
    replies: Seq<Outcome>,
)
    requires
        replies.len() > 0,
        session::git_result(replies[0]) == Ok::<Seq<char>, Seq<char>>(
            ("refs/remotes/origin/"@ + branch).push('\n'),
        ),
        branch.len() > 0 ==> !text::white_space(branch.last()),
        !text::contains(branch, "refs/remotes/origin/"@),
    ensures
        branch::get_default_branch_stage(repo, replies) == Stage::<Seq<char>>::Done(branch),
{
    reveal_strlit("refs/remotes/origin/");
    let full = "refs/remotes/origin/"@ + branch;
    assert(full[0] == 'r');
    assert(full.last() == (if branch.len() > 0 {
        branch.last()
    } else {
        '/'
    }));
    text::lemma_trim_then_white_space(full, '\n');
    text::lemma_trim_fixed(full);
    text::lemma_remove_all_prefix("refs/remotes/origin/"@, branch);
    text::lemma_remove_all_absent(branch, "refs/remotes/origin/"@);
}

/// A name that a line of `git branch` can hold: there is no white space at its
/// ends, and it does not look like a marked branch.
pub open spec fn plain_name(name: Seq<char>) -> bool {
    &&& name.len() > 0
    &&& !text::white_space(name[0])
    &&& !text::white_space(name.last())
    &&& !text::starts_with(name, "* "@)
}

/// A line of `git branch` names its branch, whether it is marked as the current
/// one or not.
pub proof fn law_branch_line_names_its_branch(name: Seq<char>)
    requires
        plain_name(name),
    ensures
        branch::listed_branch("  "@ + name) == name,
        branch::listed_branch("* "@ + name) == name,
{
    reveal_strlit("  ");
    reveal_strlit("* ");
    let plain = "  "@ + name;
    assert(plain.skip(1).skip(1) =~= name);
    reveal_with_fuel(text::trim_start, 3);
    text::lemma_trim_fixed(name);
    let marked = "* "@ + name;
    assert(marked.last() == name.last());
    text::lemma_trim_fixed(marked);
    text::lemma_prefix("* "@, name);
}

/// A branch that has a line in the output of `git branch` is found there.
pub proof fn law_branch_with_a_line_is_listed(lines: Seq<Seq<char>>, i: int, name: Seq<char>)
    requires
        forall|k: int| 0 <= k < lines.len() ==> text::one_line(#[trigger] lines[k]),
        0 <= i < lines.len(),
        plain_name(name),
        lines[i] == "  "@ + name || lines[i] == "* "@ + name,
    ensures
        branch::lists_branch(text::ended_lines(lines), name),
{
    law_branch_line_names_its_branch(name);
    text::lemma_lines_of_text(lines, Seq::empty());
    assert(text::ended_lines(lines) + Seq::<char>::empty() =~= text::ended_lines(lines));
    assert(branch::listed_branch(text::lines(text::ended_lines(lines))[i]) == name);
}

} // verus!
