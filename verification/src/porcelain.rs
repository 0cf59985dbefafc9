//! The output of `git worktree list --porcelain`.
//!
//! The listing is a sequence of entries.  A line `worktree <path>` begins an
//! entry, which runs up to the next such line; the lines in between say more
//! about the worktree.

use vstd::prelude::*;

use crate::text;

verus! {

/// The branch that a worktree with a detached `HEAD` is shown with.
pub const DETACHED_HEAD: &'static str = "detached HEAD";

/// What the listing says about one worktree.
#[derive(Debug, PartialEq, Eq)]
pub struct PartialWorktree {
    pub path: Option<String>,
    pub head: Option<String>,
    pub branch: Option<String>,
    pub is_locked: bool,
    pub is_prunable: bool,
    pub is_bare: bool,
}

/// What a [`PartialWorktree`] holds.
#[verifier::ext_equal]
pub struct Entry {
    pub path: Option<Seq<char>>,
    pub head: Option<Seq<char>>,
    pub branch: Option<Seq<char>>,
    pub is_locked: bool,
    pub is_prunable: bool,
    pub is_bare: bool,
}

impl DeepView for PartialWorktree {
    type V = Entry;

    open spec fn deep_view(&self) -> Entry {
        Entry {
            path: self.path.deep_view(),
            head: self.head.deep_view(),
            branch: self.branch.deep_view(),
            is_locked: self.is_locked,
            is_prunable: self.is_prunable,
            is_bare: self.is_bare,
        }
    }
}

/// The line that begins an entry.
pub open spec fn begins_entry(line: Seq<char>) -> bool {
    text::starts_with(line, "worktree "@)
}

/// The path in a line that begins an entry.
pub open spec fn path_of(line: Seq<char>) -> Seq<char> {
    text::without_prefix(line, "worktree "@)
}

/// The branch in a line `branch refs/heads/<branch>`.
pub open spec fn branch_of(line: Seq<char>) -> Seq<char> {
    text::remove_all(text::without_prefix(line, "branch "@), "refs/heads/"@)
}

/// An entry of which only the path is known.
pub open spec fn entry_at(path: Option<Seq<char>>) -> Entry {
    Entry {
        path,
        head: None,
        branch: None,
        is_locked: false,
        is_prunable: false,
        is_bare: false,
    }
}

/// An entry with what one more line says about it.  Lines of other kinds say
/// nothing.
pub open spec fn with_line(entry: Entry, line: Seq<char>) -> Entry {
    if text::starts_with(line, "HEAD "@) {
        Entry { head: Some(text::without_prefix(line, "HEAD "@)), ..entry }
    } else if text::starts_with(line, "branch "@) {
        Entry { branch: Some(branch_of(line)), ..entry }
    } else if line == "detached"@ {
        Entry { branch: Some(DETACHED_HEAD@), ..entry }
    } else if line == "locked"@ {
        Entry { is_locked: true, ..entry }
    } else if line == "prunable"@ {
        Entry { is_prunable: true, ..entry }
    } else if line == "bare"@ {
        Entry { is_bare: true, ..entry }
    } else {
        entry
    }
}

/// An entry with what some more lines say about it, in their order.
pub open spec fn with_lines(entry: Entry, lines: Seq<Seq<char>>) -> Entry
    decreases lines.len(),
{
    if lines.len() == 0 {
        entry
    } else {
        with_lines(with_line(entry, lines[0]), lines.skip(1))
    }
}

/// How many of the lines come before the next one that begins an entry.
pub open spec fn entry_len(lines: Seq<Seq<char>>) -> int
    decreases lines.len(),
{
    if lines.len() == 0 || begins_entry(lines[0]) {
        0
    } else {
        1 + entry_len(lines.skip(1))
    }
}

/// [`entry_len`] counts some of the lines.
pub proof fn lemma_entry_len(lines: Seq<Seq<char>>)
    ensures
        0 <= entry_len(lines) <= lines.len(),
    decreases lines.len(),
{
    if lines.len() > 0 && !begins_entry(lines[0]) {
        lemma_entry_len(lines.skip(1));
    }
}

/// The entry as a list: a bare repository is no worktree and is left out.
pub open spec fn unless_bare(entry: Entry) -> Seq<Entry> {
    if entry.is_bare {
        Seq::empty()
    } else {
        seq![entry]
    }
}

/// The worktrees that the lines of a listing describe, in their order.
pub open spec fn entries(lines: Seq<Seq<char>>) -> Seq<Entry>
    decreases lines.len() via entries_decreases
{
    if lines.len() == 0 {
        Seq::empty()
    } else if begins_entry(lines[0]) {
        let n = entry_len(lines.skip(1));
        let entry = with_lines(entry_at(Some(path_of(lines[0]))), lines.skip(1).take(n));
        unless_bare(entry) + entries(lines.skip(1).skip(n))
    } else {
        entries(lines.skip(1))
    }
}

#[via_fn]
proof fn entries_decreases(lines: Seq<Seq<char>>) {
    if lines.len() > 0 {
        lemma_entry_len(lines.skip(1));
    }
}

/// The worktrees that the lines describe after an entry has begun.
pub open spec fn entries_from(entry: Entry, lines: Seq<Seq<char>>) -> Seq<Entry> {
    let n = entry_len(lines);
    unless_bare(with_lines(entry, lines.take(n))) + entries(lines.skip(n))
}

/// Reading one line of an entry that has begun.
pub proof fn lemma_entries_from_step(entry: Entry, lines: Seq<Seq<char>>)
    requires
        lines.len() > 0,
    ensures
        begins_entry(lines[0]) ==> entries_from(entry, lines) == unless_bare(entry) + entries_from(
            entry_at(Some(path_of(lines[0]))),
            lines.skip(1),
        ),
        !begins_entry(lines[0]) ==> entries_from(entry, lines) == entries_from(
            with_line(entry, lines[0]),
            lines.skip(1),
        ),
{
    lemma_entry_len(lines);
    if begins_entry(lines[0]) {
        assert(lines.skip(0) =~= lines);
    } else {
        let n = entry_len(lines);
        lemma_entry_len(lines.skip(1));
        assert(lines.take(n).skip(1) =~= lines.skip(1).take(n - 1));
        assert(lines.skip(1).skip(n - 1) =~= lines.skip(n));
    }
}

/// The worktrees that a listing describes.
pub open spec fn listing(output: Seq<char>) -> Seq<Entry> {
    entries(text::lines(text::trim(output)))
}

fn new_entry(path: Option<String>) -> (entry: PartialWorktree)
    ensures
        entry.deep_view() == entry_at(path.deep_view()),
{
    PartialWorktree {
        path,
        head: None,
        branch: None,
        is_locked: false,
        is_prunable: false,
        is_bare: false,
    }
}

/// Adds what a line says to an entry.
fn read_line(entry: &mut PartialWorktree, line: &[char])
    ensures
        final(entry).deep_view() == with_line(old(entry).deep_view(), line@),
{
    if let Some(head) = text::strip_prefix(line, "HEAD ") {
        entry.head = Some(text::from_chars(head));
    } else if let Some(branch) = text::strip_prefix(line, "branch ") {
        entry.branch = Some(text::removed(branch, "refs/heads/"));
    } else if text::is(line, "detached") {
        entry.branch = Some(DETACHED_HEAD.to_owned());
    } else if text::is(line, "locked") {
        entry.is_locked = true;
    } else if text::is(line, "prunable") {
        entry.is_prunable = true;
    } else if text::is(line, "bare") {
        entry.is_bare = true;
    }
}

/// Reads the output of `git worktree list --porcelain`.
pub fn parse_worktree_lines(output: &str) -> (worktrees: Vec<PartialWorktree>)
    ensures
        worktrees.deep_view() == listing(output@),
{
    let chars = text::to_chars(output);
    let lines = text::text_lines(text::trimmed(chars.as_slice()));
    let ghost all = text::texts(lines@);
    let mut worktrees: Vec<PartialWorktree> = Vec::new();
    let mut current = new_entry(None);
    let mut i: usize = 0;
    assert(all.skip(0) =~= all);
    while i < lines.len()
        invariant
            i <= lines@.len(),
            all == text::texts(lines@),
            current.path is None ==> worktrees@.len() == 0 && entries(all) == entries(
                all.skip(i as int),
            ),
            current.path is Some ==> entries(all) == worktrees.deep_view() + entries_from(
                current.deep_view(),
                all.skip(i as int),
            ),
        decreases lines@.len() - i,
    {
        let line = lines[i];
        let ghost rest = all.skip(i as int);
        assert(rest[0] == line@);
        assert(rest.skip(1) =~= all.skip(i + 1));
        proof {
            lemma_entries_from_step(current.deep_view(), rest);
        }
        if let Some(path) = text::strip_prefix(line, "worktree ") {
            if current.path.is_some() && !current.is_bare {
                worktrees.push(current);
            }
            current = new_entry(Some(text::from_chars(path)));
        } else {
            read_line(&mut current, line);
        }
        i += 1;
    }
    assert(all.skip(i as int) =~= Seq::empty());
    if current.path.is_some() && !current.is_bare {
        worktrees.push(current);
    }
    worktrees
}

} // verus!
