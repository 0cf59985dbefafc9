//! Laws on what a reply of git amounts to.
//!
//! The other laws on operations speak of replies in the terms of this file.

use vstd::prelude::*;

use crate::command;
use crate::command::Invocation;
use crate::session;
use crate::session::Outcome;
use crate::text;

verus! {

/// Git ran and ended with success.
pub open spec fn went_well(outcome: Outcome) -> bool {
    outcome matches Outcome::Exited { success, .. } && success
}

/// What git wrote to standard output.
pub open spec fn written(outcome: Outcome) -> Seq<char> {
    match outcome {
        Outcome::NotRun(_) => Seq::empty(),
        Outcome::Exited { stdout, .. } => stdout,
    }
}

/// What is said of a reply that did not go well.
pub open spec fn complaint(outcome: Outcome) -> Seq<char> {
    match outcome {
        Outcome::NotRun(error) => "Failed to execute git: "@ + error,
        Outcome::Exited { stderr, .. } => text::trim(stderr),
    }
}

/// An invocation with these arguments that finds the bare clone by `GIT_DIR`.
pub open spec fn on_clone(repo: Seq<char>, args: Seq<Seq<char>>) -> Invocation {
    Invocation { git_dir: Some(command::git_path(repo)), current_dir: None, args }
}

/// A reply that went well counts as what git wrote to standard output, unchanged;
/// any other counts as an error, with the reason why git did not run or with what it
/// wrote to standard error.
pub proof fn law_reply_is_output_or_error(outcome: Outcome)
    ensures
        went_well(outcome) ==> session::git_result(outcome) == Ok::<Seq<char>, Seq<char>>(
            written(outcome),
        ),
        !went_well(outcome) ==> session::git_result(outcome) == Err::<Seq<char>, Seq<char>>(
            complaint(outcome),
        ),
        session::succeeded(outcome) <==> went_well(outcome),
        went_well(outcome) ==> session::output_or_empty(outcome) == written(outcome),
        !went_well(outcome) ==> session::output_or_empty(outcome).len() == 0,
{
}

/// A command on the bare clone differs from one inside a working tree and from one
/// that targets no repository in nothing but how it finds the repository.
pub proof fn law_targets_differ_in_scope_only(path: Seq<char>, args: Seq<Seq<char>>)
    ensures
        command::bare_invocation(path, args) == on_clone(path, args),
        command::work_tree_invocation(path, args) == (Invocation {
            git_dir: None,
            current_dir: Some(path),
            args,
        }),
        command::unbound_invocation(args) == (Invocation {
            git_dir: None,
            current_dir: None,
            args,
        }),
{
}

} // verus!
