//! Listing the worktrees and finding one by name.

use vstd::prelude::*;

use crate::command;
use crate::command::{build_git_command, repo_command, GitTarget, RepoContext};
use crate::porcelain;
use crate::porcelain::{parse_worktree_lines, Entry, PartialWorktree};
use crate::session;
use crate::session::{git_raw, GitReply, Outcome, Stage, Step};
use crate::times::FileTimes;
use crate::worktree;
use crate::worktree::{complete_worktree_info, match_worktree_by_name, Worktree, WorktreeInfo};

verus! {

/// `git status --porcelain` inside the worktree of an entry.
pub open spec fn status_invocation(entry: Entry) -> command::Invocation {
    command::work_tree_invocation(
        worktree::or_empty(entry.path),
        seq!["status"@, "--porcelain"@],
    )
}

/// The stages of completing the entries of the listing: of each in turn the
/// status and then the file times.
pub open spec fn complete_entries_stage(
    entries: Seq<Entry>,
    statuses: Seq<Outcome>,
    times: Seq<Option<FileTimes>>,
) -> Stage<Seq<WorktreeInfo>> {
    if statuses.len() < entries.len() && statuses.len() <= times.len() {
        Stage::Run(status_invocation(entries[statuses.len() as int]))
    } else if times.len() < entries.len() {
        Stage::ReadTimes(worktree::or_empty(entries[times.len() as int].path))
    } else {
        Stage::Done(
            Seq::new(
                entries.len(),
                |i: int| worktree::completed(entries[i], statuses[i], times[i]),
            ),
        )
    }
}

/// The stages of [`list_worktrees`].
pub open spec fn list_worktrees_stage(
    repo: Seq<char>,
    replies: Seq<Outcome>,
    times: Seq<Option<FileTimes>>,
) -> Stage<Seq<WorktreeInfo>> {
    if replies.len() == 0 {
        Stage::Run(
            command::bare_invocation(repo, seq!["worktree"@, "list"@, "--porcelain"@]),
        )
    } else {
        match session::git_result(replies[0]) {
            Err(error) => Stage::Failed("Failed to list worktrees: "@ + error),
            Ok(output) => complete_entries_stage(
                porcelain::listing(output),
                replies.skip(1),
                times,
            ),
        }
    }
}

fn path_of(partial: &PartialWorktree) -> (path: String)
    ensures
        path@ == worktree::or_empty(partial.deep_view().path),
{
    match &partial.path {
        Some(path) => path.clone(),
        None => String::new(),
    }
}

fn complete_entries(
    partials: Vec<PartialWorktree>,
    statuses: &[GitReply],
    times: &[Option<FileTimes>],
) -> (step: Step<Vec<Worktree>>)
    ensures
        step.deep_view() == complete_entries_stage(
            partials.deep_view(),
            statuses.deep_view(),
            times@,
        ),
{
    if statuses.len() < partials.len() && statuses.len() <= times.len() {
        let path = path_of(&partials[statuses.len()]);
        return Step::Run(
            build_git_command(GitTarget::WorkTree(path.as_str()), &["status", "--porcelain"]),
        );
    }
    if times.len() < partials.len() {
        return Step::ReadTimes(path_of(&partials[times.len()]));
    }
    let mut worktrees: Vec<Worktree> = Vec::new();
    let ghost entries = partials.deep_view();
    for partial in it: partials
        invariant
            it.seq() == partials@,
            entries == partials.deep_view(),
            entries.len() <= statuses@.len(),
            entries.len() <= times@.len(),
            worktrees@.len() == it.index(),
            forall|k: int|
                0 <= k < it.index() ==> (#[trigger] worktrees@[k]).deep_view()
                    == worktree::completed(entries[k], statuses@[k].deep_view(), times@[k]),
    {
        let i = worktrees.len();
        worktrees.push(complete_worktree_info(partial, &statuses[i], times[i]));
    }
    assert(worktrees.deep_view() =~= Seq::new(
        entries.len(),
        |i: int| worktree::completed(entries[i], statuses.deep_view()[i], times@[i]),
    ));
    Step::Done(worktrees)
}

/// Lists the worktrees of the repository.
///
/// `times` holds the file times of the listed worktrees as far as they have been
/// looked up, with `None` for one that could not be read.
pub fn list_worktrees(
    context: &RepoContext,
    replies: &[GitReply],
    times: &[Option<FileTimes>],
) -> (step: Step<Vec<Worktree>>)
    ensures
        step.deep_view() == list_worktrees_stage(
            context@.repo_path,
            replies.deep_view(),
            times@,
        ),
{
    if replies.len() == 0 {
        return Step::Run(repo_command(context, &["worktree", "list", "--porcelain"]));
    }
    match git_raw(&replies[0]) {
        Err(error) => {
            let mut message = "Failed to list worktrees: ".to_owned();
            message.append(error.as_str());
            Step::Failed(message)
        },
        Ok(output) => complete_entries(
            parse_worktree_lines(output.as_str()),
            session::after(replies, 1),
            times,
        ),
    }
}

/// The stages of [`find_worktree_by_name`], where the directories of the listed
/// worktrees have the given names.
pub open spec fn find_worktree_by_name_stage(
    repo: Seq<char>,
    name: Seq<char>,
    replies: Seq<Outcome>,
    times: Seq<Option<FileTimes>>,
    directories: Seq<Option<Seq<char>>>,
) -> Stage<Option<WorktreeInfo>> {
    match list_worktrees_stage(repo, replies, times) {
        Stage::Done(worktrees) => Stage::Done(worktree::named(worktrees, directories, name)),
        stage => stage.unfinished(),
    }
}

/// Finds the worktree that a name means: its branch, its directory, or the end
/// of its branch.  The platform says what the directories are called.
pub fn find_worktree_by_name(
    context: &RepoContext,
    name: &str,
    replies: &[GitReply],
    times: &[Option<FileTimes>],
) -> (step: Step<Option<Worktree>>)
    ensures
        match list_worktrees_stage(context@.repo_path, replies.deep_view(), times@) {
            Stage::Done(worktrees) => {
                &&& exists|directories: Seq<Option<Seq<char>>>| #[trigger]
                    worktree::are_directories(worktrees, directories) && step.deep_view()
                        == find_worktree_by_name_stage(
                        context@.repo_path,
                        name@,
                        replies.deep_view(),
                        times@,
                        directories,
                    )
                &&& worktree::all_read_alike(worktrees) ==> step.deep_view()
                    == find_worktree_by_name_stage(
                    context@.repo_path,
                    name@,
                    replies.deep_view(),
                    times@,
                    worktree::directory_names(worktrees),
                )
            },
            stage => step.deep_view() == stage.unfinished::<Option<WorktreeInfo>>(),
        },
{
    match list_worktrees(context, replies, times) {
        Step::Done(worktrees) => match match_worktree_by_name(worktrees.as_slice(), name) {
            Some(worktree) => Step::Done(Some(worktree.clone())),
            None => Step::Done(None),
        },
        step => step.unfinished(),
    }
}

} // verus!
