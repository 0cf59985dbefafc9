//! Operations on branches and references.

use vstd::prelude::*;

use crate::command;
use crate::command::{repo_command, RepoContext};
use crate::session;
use crate::session::{git_raw, GitReply, Outcome, Stage, Step};
use crate::text;

verus! {

// ---- whether a reference exists ----

/// The stages of [`reference_exists`].
pub open spec fn reference_exists_stage(
    repo: Seq<char>,
    reference: Seq<char>,
    replies: Seq<Outcome>,
) -> Stage<bool> {
    if replies.len() == 0 {
        Stage::Run(command::bare_invocation(repo, seq!["rev-parse"@, "--verify"@, reference]))
    } else {
        Stage::Done(session::succeeded(replies[0]))
    }
}

/// Whether git can resolve a reference.
pub fn reference_exists(context: &RepoContext, reference: &str, replies: &[GitReply]) -> (step:
    Step<bool>)
    ensures
        step.deep_view() == reference_exists_stage(
            context@.repo_path,
            reference@,
            replies.deep_view(),
        ),
{
    if replies.len() == 0 {
        return Step::Run(repo_command(context, &["rev-parse", "--verify", reference]));
    }
    Step::Done(git_raw(&replies[0]).is_ok())
}

/// Whether a local branch exists.
pub fn branch_exists(context: &RepoContext, branch: &str, replies: &[GitReply]) -> (step: Step<
    bool,
>)
    ensures
        step.deep_view() == reference_exists_stage(
            context@.repo_path,
            "refs/heads/"@ + branch@,
            replies.deep_view(),
        ),
{
    let mut reference = "refs/heads/".to_owned();
    reference.append(branch);
    reference_exists(context, reference.as_str(), replies)
}

// ---- whether a branch is merged ----

/// The branch that a line of `git branch` names: the line without white space
/// around it and without the mark of the current branch.
pub open spec fn listed_branch(line: Seq<char>) -> Seq<char> {
    text::trim(text::trim_start_text(text::trim(line), "* "@))
}

/// The output of `git branch` names a branch.
pub open spec fn lists_branch(output: Seq<char>, branch: Seq<char>) -> bool {
    &&& branch.len() > 0
    &&& exists|i: int|
        0 <= i < text::lines(output).len() && listed_branch(#[trigger] text::lines(output)[i])
            == branch
}

fn branch_is_listed(output: &str, branch: &str) -> (r: bool)
    ensures
        r == lists_branch(output@, branch@),
{
    let chars = text::to_chars(output);
    let lines = text::text_lines(chars.as_slice());
    let wanted = text::to_chars(branch);
    if wanted.len() == 0 {
        return false;
    }
    let mut i: usize = 0;
    while i < lines.len()
        invariant
            i <= lines@.len(),
            wanted@ == branch@,
            wanted@.len() > 0,
            text::texts(lines@) == text::lines(output@),
            forall|k: int|
                0 <= k < i ==> listed_branch(#[trigger] text::lines(output@)[k]) != branch@,
        decreases lines@.len() - i,
    {
        assert(text::texts(lines@)[i as int] == lines@[i as int]@);
        let name = text::trimmed(text::without_leading(text::trimmed(lines[i]), "* "));
        if text::equal(name, wanted.as_slice()) {
            return true;
        }
        i += 1;
    }
    false
}

/// The lines that are not empty.
pub open spec fn non_empty(lines: Seq<Seq<char>>) -> Seq<Seq<char>>
    decreases lines.len(),
{
    if lines.len() == 0 {
        Seq::empty()
    } else if lines.last().len() == 0 {
        non_empty(lines.drop_last())
    } else {
        non_empty(lines.drop_last()).push(lines.last())
    }
}

/// The lines of a text that are not empty.
fn non_empty_lines(output: &str) -> (r: Vec<String>)
    ensures
        r.deep_view() == non_empty(text::lines(output@)),
{
    let chars = text::to_chars(output);
    let lines = text::text_lines(chars.as_slice());
    let ghost all = text::texts(lines@);
    let mut r: Vec<String> = Vec::new();
    let mut i: usize = 0;
    assert(r.deep_view() =~= non_empty(all.take(0)));
    while i < lines.len()
        invariant
            i <= lines@.len(),
            all == text::texts(lines@),
            r.deep_view() == non_empty(all.take(i as int)),
        decreases lines@.len() - i,
    {
        let line = lines[i];
        let ghost before = r.deep_view();
        assert(all.take(i + 1).drop_last() =~= all.take(i as int));
        assert(all.take(i + 1).last() == line@);
        if line.len() > 0 {
            r.push(text::from_chars(line));
            assert(r.deep_view() =~= before.push(line@));
        }
        i += 1;
    }
    assert(all.take(i as int) =~= all);
    r
}

/// The stages of [`is_squash_merged`].  A branch counts as squash-merged if no
/// file has changed on it since it left the base branch, or if the files that
/// have changed are the same on both branches.
pub open spec fn is_squash_merged_stage(
    repo: Seq<char>,
    branch: Seq<char>,
    base_branch: Seq<char>,
    replies: Seq<Outcome>,
) -> Stage<bool> {
    if replies.len() == 0 {
        Stage::Run(
            command::bare_invocation(
                repo,
                seq!["diff"@, "--name-only"@, base_branch + "..."@ + branch],
            ),
        )
    } else {
        let files = non_empty(text::lines(session::output_or_empty(replies[0])));
        if files.len() == 0 {
            Stage::Done(true)
        } else if replies.len() == 1 {
            Stage::Run(
                command::bare_invocation(
                    repo,
                    seq!["diff"@, "--name-only"@, base_branch, branch, "--"@] + files,
                ),
            )
        } else {
            Stage::Done(text::trim(session::output_or_empty(replies[1])).len() == 0)
        }
    }
}

/// Whether a branch has been squash-merged into a base branch.
pub fn is_squash_merged(
    context: &RepoContext,
    branch: &str,
    base_branch: &str,
    replies: &[GitReply],
) -> (step: Step<bool>)
    ensures
        step.deep_view() == is_squash_merged_stage(
            context@.repo_path,
            branch@,
            base_branch@,
            replies.deep_view(),
        ),
{
    if replies.len() == 0 {
        let mut range = base_branch.to_owned();
        range.append("...");
        range.append(branch);
        return Step::Run(repo_command(context, &["diff", "--name-only", range.as_str()]));
    }
    let branch_files = git_raw(&replies[0]).ok().unwrap_or_default();
    let files = non_empty_lines(branch_files.as_str());
    if files.len() == 0 {
        return Step::Done(true);
    }
    if replies.len() == 1 {
        let mut diff_args: Vec<&str> = vec!["diff", "--name-only", base_branch, branch, "--"];
        let ghost fixed = diff_args.deep_view();
        let mut i: usize = 0;
        while i < files.len()
            invariant
                i <= files@.len(),
                diff_args.deep_view() == fixed + files.deep_view().take(i as int),
            decreases files@.len() - i,
        {
            let ghost before = diff_args.deep_view();
            diff_args.push(files[i].as_str());
            assert(diff_args.deep_view() =~= before.push(files@[i as int]@));
            i += 1;
        }
        return Step::Run(repo_command(context, diff_args.as_slice()));
    }
    let diff = git_raw(&replies[1]).ok().unwrap_or_default();
    let chars = text::to_chars(diff.as_str());
    Step::Done(text::trimmed(chars.as_slice()).len() == 0)
}

/// The stages of [`is_branch_merged`].
pub open spec fn is_branch_merged_stage(
    repo: Seq<char>,
    branch: Seq<char>,
    base_branch: Seq<char>,
    replies: Seq<Outcome>,
) -> Stage<bool> {
    if replies.len() == 0 {
        Stage::Run(command::bare_invocation(repo, seq!["branch"@, "--merged"@, base_branch]))
    } else {
        match session::git_result(replies[0]) {
            Err(error) => Stage::Failed(
                "Failed to check if branch "@ + branch + " is merged: "@ + error,
            ),
            Ok(output) => if lists_branch(output, branch) {
                Stage::Done(true)
            } else {
                is_squash_merged_stage(repo, branch, base_branch, replies.skip(1))
            },
        }
    }
}

/// Whether a branch has been merged into a base branch, by a regular merge or by
/// a squash merge.
pub fn is_branch_merged(
    context: &RepoContext,
    branch: &str,
    base_branch: &str,
    replies: &[GitReply],
) -> (step: Step<bool>)
    ensures
        step.deep_view() == is_branch_merged_stage(
            context@.repo_path,
            branch@,
            base_branch@,
            replies.deep_view(),
        ),
{
    if replies.len() == 0 {
        return Step::Run(repo_command(context, &["branch", "--merged", base_branch]));
    }
    match git_raw(&replies[0]) {
        Err(error) => {
            let mut message = "Failed to check if branch ".to_owned();
            message.append(branch);
            message.append(" is merged: ");
            message.append(error.as_str());
            Step::Failed(message)
        },
        Ok(output) => {
            if branch_is_listed(output.as_str(), branch) {
                return Step::Done(true);
            }
            is_squash_merged(context, branch, base_branch, session::after(replies, 1))
        },
    }
}

// ---- the default branch ----

/// The stages of [`get_default_branch`]: what `origin/HEAD` points to, or else
/// the first of `main` and `master` that exists.
pub open spec fn get_default_branch_stage(repo: Seq<char>, replies: Seq<Outcome>) -> Stage<
    Seq<char>,
> {
    if replies.len() == 0 {
        Stage::Run(
            command::bare_invocation(repo, seq!["symbolic-ref"@, "refs/remotes/origin/HEAD"@]),
        )
    } else {
        match session::git_result(replies[0]) {
            Ok(output) => Stage::Done(
                text::remove_all(text::trim(output), "refs/remotes/origin/"@),
            ),
            Err(_) => main_or_master_stage(repo, replies.skip(1)),
        }
    }
}

/// The stages of finding out which of `main` and `master` exists.
pub open spec fn main_or_master_stage(repo: Seq<char>, replies: Seq<Outcome>) -> Stage<Seq<char>> {
    match reference_exists_stage(repo, "refs/heads/"@ + "main"@, replies) {
        Stage::Done(exists_main) => if exists_main {
            Stage::Done("main"@)
        } else {
            match reference_exists_stage(repo, "refs/heads/"@ + "master"@, replies.skip(1)) {
                Stage::Done(exists_master) => if exists_master {
                    Stage::Done("master"@)
                } else {
                    Stage::Failed(
                        "Could not determine default branch. Please specify with --branch."@,
                    )
                },
                stage => stage.unfinished(),
            }
        },
        stage => stage.unfinished(),
    }
}

fn main_or_master(context: &RepoContext, replies: &[GitReply]) -> (step: Step<String>)
    ensures
        step.deep_view() == main_or_master_stage(context@.repo_path, replies.deep_view()),
{
    match branch_exists(context, "main", replies) {
        Step::Done(exists_main) => {
            if exists_main {
                return Step::Done("main".to_owned());
            }
        },
        step => {
            return step.unfinished();
        },
    }
    match branch_exists(context, "master", session::after(replies, 1)) {
        Step::Done(exists_master) => {
            if exists_master {
                Step::Done("master".to_owned())
            } else {
                Step::Failed(
                    "Could not determine default branch. Please specify with --branch.".to_owned(),
                )
            }
        },
        step => step.unfinished(),
    }
}

/// The default branch of the repository.
pub fn get_default_branch(context: &RepoContext, replies: &[GitReply]) -> (step: Step<String>)
    ensures
        step.deep_view() == get_default_branch_stage(context@.repo_path, replies.deep_view()),
{
    if replies.len() == 0 {
        return Step::Run(repo_command(context, &["symbolic-ref", "refs/remotes/origin/HEAD"]));
    }
    if let Ok(output) = git_raw(&replies[0]) {
        let chars = text::to_chars(output.as_str());
        return Step::Done(text::removed(text::trimmed(chars.as_slice()), "refs/remotes/origin/"));
    }
    main_or_master(context, session::after(replies, 1))
}

// ---- synchronisation ----

/// The stages of [`sync_branch`].
pub open spec fn sync_branch_stage(
    repo: Seq<char>,
    branch: Seq<char>,
    replies: Seq<Outcome>,
) -> Stage<()> {
    if replies.len() == 0 {
        Stage::Run(
            command::bare_invocation(
                repo,
                seq!["fetch"@, "origin"@, branch + ":"@ + branch],
            ),
        )
    } else {
        match session::git_result(replies[0]) {
            Ok(_) => Stage::Done(()),
            Err(error) => Stage::Failed("Failed to sync branch '"@ + branch + "': "@ + error),
        }
    }
}

/// Fetches a branch from `origin` into the local branch of the same name.
pub fn sync_branch(context: &RepoContext, branch: &str, replies: &[GitReply]) -> (step: Step<()>)
    ensures
        step.deep_view() == sync_branch_stage(context@.repo_path, branch@, replies.deep_view()),
{
    if replies.len() == 0 {
        let mut refspec = branch.to_owned();
        refspec.append(":");
        refspec.append(branch);
        return Step::Run(repo_command(context, &["fetch", "origin", refspec.as_str()]));
    }
    match git_raw(&replies[0]) {
        Ok(_) => Step::Done(()),
        Err(error) => {
            let mut message = "Failed to sync branch '".to_owned();
            message.append(branch);
            message.append("': ");
            message.append(error.as_str());
            Step::Failed(message)
        },
    }
}

} // verus!
