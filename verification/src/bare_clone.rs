//! Setting up the bare clone.

use vstd::prelude::*;

use crate::command;
use crate::command::{build_git_command, GitCommand, GitTarget};
use crate::session::{GitReply, Outcome, Stage, Step};
use crate::text;

verus! {

/// The arguments of `git fetch origin`.
pub open spec fn fetch_origin_args() -> Seq<Seq<char>> {
    seq!["fetch"@, "origin"@]
}

/// Builds the `git fetch origin` that runs on a new bare clone.  It identifies
/// the clone by `GIT_DIR` and not by the working directory, which
/// `safe.bareRepository=explicit` rules out.
pub fn build_fetch_origin_command(target_dir: &str) -> (command: GitCommand)
    ensures
        command.deep_view() == command::bare_invocation(target_dir@, fetch_origin_args()),
{
    build_git_command(GitTarget::BareRepo(target_dir), &["fetch", "origin"])
}

/// The arguments of `git remote set-head origin --auto`.
pub open spec fn set_head_args() -> Seq<Seq<char>> {
    seq!["remote"@, "set-head"@, "origin"@, "--auto"@]
}

/// Builds the `git remote set-head origin --auto` that runs on a new bare clone,
/// which it identifies by `GIT_DIR`.
pub fn build_set_head_command(target_dir: &str) -> (command: GitCommand)
    ensures
        command.deep_view() == command::bare_invocation(target_dir@, set_head_args()),
{
    build_git_command(GitTarget::BareRepo(target_dir), &["remote", "set-head", "origin", "--auto"])
}

/// Why git did not do what it was asked for: the reason why it did not run, or
/// what it wrote to standard error.
pub open spec fn failure(outcome: Outcome) -> Option<Seq<char>> {
    match outcome {
        Outcome::NotRun(error) => Some(error),
        Outcome::Exited { success, stderr, .. } => if success {
            None
        } else {
            Some(text::trim(stderr))
        },
    }
}

/// The message for a command that failed, if it did.
fn failure_message(prefix: &str, reply: &GitReply) -> (r: Option<String>)
    ensures
        r.deep_view() == (match failure(reply.deep_view()) {
            Some(reason) => Some(prefix@ + reason),
            None => None,
        }),
{
    match reply {
        GitReply::NotRun(error) => {
            let mut message = prefix.to_owned();
            message.append(error.as_str());
            Some(message)
        },
        GitReply::Exited { success, stdout: _, stderr } => {
            if *success {
                return None;
            }
            let chars = text::to_chars(stderr.as_str());
            let mut message = prefix.to_owned();
            message.append(text::from_chars(text::trimmed(chars.as_slice())).as_str());
            Some(message)
        },
    }
}

/// The stages of [`clone_bare_repository`]: clone, set the refspec for fetching,
/// fetch, set `origin/HEAD`.  Each of the first three must succeed for the next
/// to be run; whether the last succeeds does not matter.
pub open spec fn clone_bare_repository_stage(
    git_url: Seq<char>,
    target_dir: Seq<char>,
    replies: Seq<Outcome>,
) -> Stage<()> {
    if replies.len() == 0 {
        Stage::Run(
            command::unbound_invocation(seq!["clone"@, "--bare"@, git_url, target_dir]),
        )
    } else if failure(replies[0]) is Some {
        Stage::Failed("Failed to clone repository: "@ + failure(replies[0])->0)
    } else if replies.len() == 1 {
        Stage::Run(
            command::bare_invocation(
                target_dir,
                seq![
                    "config"@,
                    "remote.origin.fetch"@,
                    "+refs/heads/*:refs/remotes/origin/*"@,
                ],
            ),
        )
    } else if failure(replies[1]) is Some {
        Stage::Failed("Failed to configure repository: "@ + failure(replies[1])->0)
    } else if replies.len() == 2 {
        Stage::Run(command::bare_invocation(target_dir, fetch_origin_args()))
    } else if failure(replies[2]) is Some {
        Stage::Failed("Failed to fetch from origin: "@ + failure(replies[2])->0)
    } else if replies.len() == 3 {
        Stage::Run(command::bare_invocation(target_dir, set_head_args()))
    } else {
        Stage::Done(())
    }
}

/// Clones a repository as a bare one, so that its remote branches can be
/// resolved as `origin/<branch>`.
pub fn clone_bare_repository(git_url: &str, target_dir: &str, replies: &[GitReply]) -> (step: Step<
    (),
>)
    ensures
        step.deep_view() == clone_bare_repository_stage(
            git_url@,
            target_dir@,
            replies.deep_view(),
        ),
{
    if replies.len() == 0 {
        return Step::Run(
            build_git_command(GitTarget::Unbound, &["clone", "--bare", git_url, target_dir]),
        );
    }
    if let Some(message) = failure_message("Failed to clone repository: ", &replies[0]) {
        return Step::Failed(message);
    }
    if replies.len() == 1 {
        return Step::Run(
            build_git_command(
                GitTarget::BareRepo(target_dir),
                &["config", "remote.origin.fetch", "+refs/heads/*:refs/remotes/origin/*"],
            ),
        );
    }
    if let Some(message) = failure_message("Failed to configure repository: ", &replies[1]) {
        return Step::Failed(message);
    }
    if replies.len() == 2 {
        return Step::Run(build_fetch_origin_command(target_dir));
    }
    if let Some(message) = failure_message("Failed to fetch from origin: ", &replies[2]) {
        return Step::Failed(message);
    }
    if replies.len() == 3 {
        return Step::Run(build_set_head_command(target_dir));
    }
    Step::Done(())
}

} // verus!
