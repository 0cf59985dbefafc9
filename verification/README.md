# grove

Git worktree management around a shared bare clone: every branch lives in its
own directory next to one bare repository.  The library decides what to ask
`git` for and what to make of its replies, and all of it is verified with Verus.

An operation is a function of its arguments and of the replies that `git` has
given so far.  It returns the next step: a command to run, a path whose file
times are wanted, a value, or an error message.  Running the commands is left to
the caller.

## Layout

- `src/text.rs`: texts as sequences of characters
- `src/command.rs`: the repository and the `git` invocations
- `src/session.rs`: replies, steps, and what they stand for in contracts
- `src/tracking.rs`: remote-tracking references and their validity
- `src/porcelain.rs`: the output of `git worktree list --porcelain`
- `src/times.rs`: creation times from file times
- `src/worktree.rs`: worktrees and how they are found by name
- `src/branch.rs`, `src/bare_clone.rs`, `src/add.rs`, `src/remove.rs`,
  `src/list.rs`: the operations
- `src/laws/`: what holds of the library as a whole
- `app/`: runs the operations against `git` and the file system

## What is trusted

- `String::push`, `String::from_utf8_lossy` and `Path::file_name` of the standard
  library
- `Utc.timestamp_opt` of `chrono`

Their contracts stand in `src/text.rs`, `src/session.rs`, `src/worktree.rs` and
`src/times.rs`.
