//! Conversations with `git`.
//!
//! An operation does not run `git` itself.  It is a function of its arguments
//! and of the replies that its earlier commands have had, in order, and tells
//! what comes next: a command to run, whose reply is then to be added to the
//! list, or the operation's outcome.

use vstd::prelude::*;
use vstd::slice::slice_subrange;

use crate::command::{GitCommand, Invocation};
use crate::text;

verus! {

/// The text that `String::from_utf8_lossy` makes of some bytes.
pub uninterp spec fn utf8_lossy(bytes: Seq<u8>) -> Seq<char>;

/// The standard library's `String::from_utf8_lossy`, as an owned string.  The
/// text depends on the bytes alone; where they are valid UTF-8 it is the text
/// they encode, and it is empty for no bytes only.  What stands for invalid
/// sequences is not said.
#[verifier::external_body]
fn from_utf8_lossy(bytes: &[u8]) -> (s: String)
    ensures
        s@ == utf8_lossy(bytes@),
        vstd::utf8::valid_utf8(bytes@) ==> s@ == vstd::utf8::decode_utf8(bytes@),
        s@.len() == 0 ==> bytes@.len() == 0,
{
    String::from_utf8_lossy(bytes).into_owned()
}

/// What became of one `git` invocation.
#[derive(Debug, PartialEq, Eq)]
pub enum GitReply {
    /// The program could not be run; the text says why.
    NotRun(String),
    /// The program ran and ended.
    Exited { success: bool, stdout: String, stderr: String },
}

/// What a [`GitReply`] holds.
#[verifier::ext_equal]
pub enum Outcome {
    NotRun(Seq<char>),
    Exited { success: bool, stdout: Seq<char>, stderr: Seq<char> },
}

impl DeepView for GitReply {
    type V = Outcome;

    open spec fn deep_view(&self) -> Outcome {
        match self {
            GitReply::NotRun(error) => Outcome::NotRun(error@),
            GitReply::Exited { success, stdout, stderr } => Outcome::Exited {
                success: *success,
                stdout: stdout@,
                stderr: stderr@,
            },
        }
    }
}

impl GitReply {
    /// The reply of a `git` that ended with this status and wrote these bytes.
    pub fn exited(success: bool, stdout: &[u8], stderr: &[u8]) -> (reply: GitReply)
        ensures
            reply.deep_view() == (Outcome::Exited {
                success,
                stdout: utf8_lossy(stdout@),
                stderr: utf8_lossy(stderr@),
            }),
            vstd::utf8::valid_utf8(stdout@) ==> utf8_lossy(stdout@) == vstd::utf8::decode_utf8(
                stdout@,
            ),
            vstd::utf8::valid_utf8(stderr@) ==> utf8_lossy(stderr@) == vstd::utf8::decode_utf8(
                stderr@,
            ),
            reply->stdout@.len() == 0 <==> stdout@.len() == 0,
    {
        GitReply::Exited {
            success,
            stdout: from_utf8_lossy(stdout),
            stderr: from_utf8_lossy(stderr),
        }
    }
}

/// A result with texts in place of strings.
pub open spec fn text_result(r: Result<String, String>) -> Result<Seq<char>, Seq<char>> {
    match r {
        Ok(value) => Ok(value@),
        Err(error) => Err(error@),
    }
}

/// What a reply amounts to: the standard output of a successful run, or an error
/// message.
pub open spec fn git_result(outcome: Outcome) -> Result<Seq<char>, Seq<char>> {
    match outcome {
        Outcome::NotRun(error) => Err("Failed to execute git: "@ + error),
        Outcome::Exited { success, stdout, stderr } => if success {
            Ok(stdout)
        } else {
            Err(text::trim(stderr))
        },
    }
}

/// Git ran and ended with success.
pub open spec fn succeeded(outcome: Outcome) -> bool {
    git_result(outcome) is Ok
}

/// The standard output of a successful run; nothing otherwise.
pub open spec fn output_or_empty(outcome: Outcome) -> Seq<char> {
    match git_result(outcome) {
        Ok(output) => output,
        Err(_) => Seq::empty(),
    }
}

/// Reads a reply as the standard output of a successful run or an error message.
pub fn git_raw(reply: &GitReply) -> (r: Result<String, String>)
    ensures
        text_result(r) == git_result(reply.deep_view()),
{
    match reply {
        GitReply::NotRun(error) => {
            let mut message = "Failed to execute git: ".to_owned();
            message.append(error.as_str());
            Err(message)
        },
        GitReply::Exited { success, stdout, stderr } => if *success {
            Ok(stdout.clone())
        } else {
            let chars = text::to_chars(stderr.as_str());
            Err(text::from_chars(text::trimmed(chars.as_slice())))
        },
    }
}

/// What an operation asks for next.
#[derive(Debug, PartialEq, Eq)]
pub enum Step<T> {
    /// Run this command and add its reply to the list.
    Run(GitCommand),
    /// Look up the file times of this path and add them to their list.
    ReadTimes(String),
    /// The operation is over with this value.
    Done(T),
    /// The operation is over with this error message.
    Failed(String),
}

/// What a [`Step`] holds.
#[verifier::ext_equal]
pub enum Stage<V> {
    Run(Invocation),
    ReadTimes(Seq<char>),
    Done(V),
    Failed(Seq<char>),
}

impl<T: DeepView> DeepView for Step<T> {
    type V = Stage<T::V>;

    open spec fn deep_view(&self) -> Stage<T::V> {
        match self {
            Step::Run(command) => Stage::Run(command.deep_view()),
            Step::ReadTimes(path) => Stage::ReadTimes(path@),
            Step::Done(value) => Stage::Done(value.deep_view()),
            Step::Failed(error) => Stage::Failed(error@),
        }
    }
}

impl<V> Stage<V> {
    /// The operation is over.
    pub open spec fn is_over(self) -> bool {
        self is Done || self is Failed
    }

    /// The same stage of an operation with a value of another type.
    pub open spec fn unfinished<W>(self) -> Stage<W>
        recommends
            !(self is Done),
    {
        match self {
            Stage::Run(invocation) => Stage::Run(invocation),
            Stage::ReadTimes(path) => Stage::ReadTimes(path),
            Stage::Done(_) => arbitrary(),
            Stage::Failed(error) => Stage::Failed(error),
        }
    }
}

impl<T: DeepView> Step<T> {
    /// The same step of an operation with a value of another type.
    pub fn unfinished<U: DeepView>(self) -> (step: Step<U>)
        requires
            !(self is Done),
        ensures
            step.deep_view() == self.deep_view().unfinished::<U::V>(),
    {
        match self {
            Step::Run(command) => Step::Run(command),
            Step::ReadTimes(path) => Step::ReadTimes(path),
            Step::Failed(error) => Step::Failed(error),
            Step::Done(_) => vstd::pervasive::unreached(),
        }
    }
}

/// The replies that follow the first `n`.
pub fn after<'a>(replies: &'a [GitReply], n: usize) -> (rest: &'a [GitReply])
    requires
        n <= replies@.len(),
    ensures
        rest@ == replies@.skip(n as int),
        rest.deep_view() == replies.deep_view().skip(n as int),
{
    slice_subrange(replies, n, replies.len())
}

} // verus!
