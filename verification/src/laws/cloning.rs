//! Laws on cloning.

use vstd::prelude::*;

use crate::bare_clone;
use crate::command::Invocation;
use crate::laws::replies;
use crate::session::{Outcome, Stage};
use crate::text;

verus! {

/// The arguments of the commands that cloning runs, in their order.
pub open spec fn clone_args(git_url: Seq<char>, target_dir: Seq<char>) -> Seq<Seq<Seq<char>>> {
    seq![
        seq!["clone"@, "--bare"@, git_url, target_dir],
        seq!["config"@, "remote.origin.fetch"@, "+refs/heads/*:refs/remotes/origin/*"@],
        seq!["fetch"@, "origin"@],
        seq!["remote"@, "set-head"@, "origin"@, "--auto"@],
    ]
}

/// What the error messages of the commands begin with.
pub open spec fn clone_errors() -> Seq<Seq<char>> {
    seq![
        "Failed to clone repository: "@,
        "Failed to configure repository: "@,
        "Failed to fetch from origin: "@,
    ]
}

/// After `n` replies of which the first three went well, as far as there are so many,
/// the next of the four commands is run: the first on no repository, the others on
/// the clone.  After all four, cloning is over.
pub proof fn law_clone_runs_its_commands(
    git_url: Seq<char>,
    target_dir: Seq<char>,
    replies: Seq<Outcome>,
)
    requires
        forall|i: int|
            0 <= i < replies.len() && i < 3 ==> replies::went_well(#[trigger] replies[i]),
    ensures
        ({
            let stage = bare_clone::clone_bare_repository_stage(git_url, target_dir, replies);
            let n = replies.len() as int;
            let args = clone_args(git_url, target_dir);
            &&& n == 0 ==> stage == Stage::<()>::Run(
                Invocation { git_dir: None, current_dir: None, args: args[0] },
            )
            &&& 0 < n < 4 ==> stage == Stage::<()>::Run(replies::on_clone(target_dir, args[n]))
            &&& n >= 4 ==> stage == Stage::<()>::Done(())
        }),
{
    assert(replies.len() > 0 ==> replies::went_well(replies[0]));
    assert(replies.len() > 1 ==> replies::went_well(replies[1]));
    assert(replies.len() > 2 ==> replies::went_well(replies[2]));
}

/// The first of the first three commands that does not go well ends cloning with its
/// own message and with the reason why git did not run or with what it wrote to
/// standard error.
pub proof fn law_clone_stops_at_the_first_error(
    git_url: Seq<char>,
    target_dir: Seq<char>,
    replies: Seq<Outcome>,
    i: int,
)
    requires
        0 <= i < replies.len(),
        i < 3,
        forall|k: int| 0 <= k < i ==> replies::went_well(#[trigger] replies[k]),
        !replies::went_well(replies[i]),
    ensures
        bare_clone::clone_bare_repository_stage(git_url, target_dir, replies) == Stage::<
            (),
        >::Failed(
            clone_errors()[i] + match replies[i] {
                Outcome::NotRun(error) => error,
                Outcome::Exited { stderr, .. } => text::trim(stderr),
            },
        ),
{
    assert(i > 0 ==> replies::went_well(replies[0]));
    assert(i > 1 ==> replies::went_well(replies[1]));
}

} // verus!
