//! Laws on reading the listing of the worktrees.

use vstd::prelude::*;

use crate::list;
use crate::porcelain;
use crate::porcelain::{Entry, DETACHED_HEAD};
use crate::session;
use crate::session::{Outcome, Stage};
use crate::text;
use crate::times;
use crate::times::FileTimes;
use crate::worktree;

verus! {

// ---- what every listed worktree is like ----

/// A worktree that is listed has a path and is no bare repository.
pub open spec fn is_listed(entry: Entry) -> bool {
    entry.path is Some && !entry.is_bare
}

/// Every worktree that a listing describes has a path, and none is a bare
/// repository.
pub proof fn law_listed_worktrees_have_a_path(lines: Seq<Seq<char>>)
    ensures
        forall|i: int|
            0 <= i < porcelain::entries(lines).len() ==> is_listed(
                #[trigger] porcelain::entries(lines)[i],
            ),
    decreases lines.len(),
{
    if lines.len() > 0 {
        if porcelain::begins_entry(lines[0]) {
            let rest = lines.skip(1);
            let n = porcelain::entry_len(rest);
            porcelain::lemma_entry_len(rest);
            law_listed_worktrees_have_a_path(rest.skip(n));
            lemma_path_is_kept(
                porcelain::entry_at(Some(porcelain::path_of(lines[0]))),
                rest.take(n),
            );
            let entry = porcelain::with_lines(
                porcelain::entry_at(Some(porcelain::path_of(lines[0]))),
                rest.take(n),
            );
            let head = porcelain::unless_bare(entry);
            let tail = porcelain::entries(rest.skip(n));
            assert forall|i: int|
                0 <= i < porcelain::entries(lines).len() implies is_listed(
                #[trigger] porcelain::entries(lines)[i],
            ) by {
                if i < head.len() {
                    assert(porcelain::entries(lines)[i] == head[i]);
                } else {
                    assert(porcelain::entries(lines)[i] == tail[i - head.len()]);
                }
            }
        } else {
            law_listed_worktrees_have_a_path(lines.skip(1));
            assert(porcelain::entries(lines) == porcelain::entries(lines.skip(1)));
        }
    } else {
        assert(porcelain::entries(lines).len() == 0);
    }
}

proof fn lemma_path_is_kept(entry: Entry, lines: Seq<Seq<char>>)
    ensures
        porcelain::with_lines(entry, lines).path == entry.path,
    decreases lines.len(),
{
    if lines.len() > 0 {
        lemma_path_is_kept(porcelain::with_line(entry, lines[0]), lines.skip(1));
    }
}

/// The worktrees that are listed are those of the listing, in its order, each at
/// its path and on its branch; a worktree is a main one exactly where its branch
/// is, and every creation time is one that a date and time can stand for.
pub proof fn law_worktrees_are_the_listed_ones(
    repo: Seq<char>,
    replies: Seq<Outcome>,
    times: Seq<Option<FileTimes>>,
)
    ensures
        list::list_worktrees_stage(repo, replies, times) matches Stage::Done(worktrees) ==> {
            let entries = porcelain::listing(session::output_or_empty(replies[0]));
            &&& worktrees.len() == entries.len()
            &&& forall|i: int|
                0 <= i < worktrees.len() ==> {
                    &&& Some((#[trigger] worktrees[i]).path) == entries[i].path
                    &&& worktrees[i].branch == worktree::or_empty(entries[i].branch)
                    &&& worktrees[i].is_main <==> worktree::main_branch(worktrees[i].branch)
                    &&& times::representable(worktrees[i].created_at)
                }
        },
{
    let output = session::output_or_empty(replies[0]);
    law_listed_worktrees_have_a_path(text::lines(text::trim(output)));
    if let Stage::Done(worktrees) = list::list_worktrees_stage(repo, replies, times) {
        let entries = porcelain::listing(output);
        assert forall|i: int| 0 <= i < worktrees.len() implies {
            &&& Some((#[trigger] worktrees[i]).path) == entries[i].path
            &&& worktrees[i].branch == worktree::or_empty(entries[i].branch)
            &&& worktrees[i].is_main <==> worktree::main_branch(worktrees[i].branch)
            &&& times::representable(worktrees[i].created_at)
        } by {
            assert(is_listed(entries[i]));
        }
    }
}

// ---- entries do not depend on each other ----

proof fn lemma_entries_from_concat(entry: Entry, first: Seq<Seq<char>>, second: Seq<Seq<char>>)
    requires
        second.len() > 0 ==> porcelain::begins_entry(second[0]),
    ensures
        porcelain::entries_from(entry, first + second) == porcelain::entries_from(entry, first)
            + porcelain::entries(second),
    decreases first.len(),
{
    if first.len() == 0 {
        assert(first + second =~= second);
        assert(second.take(0) =~= first.take(0));
        assert(second.skip(0) =~= second);
        assert(first.skip(0) =~= first);
        assert(porcelain::entries_from(entry, second) =~= porcelain::entries_from(entry, first)
            + porcelain::entries(second));
    } else {
        porcelain::lemma_entries_from_step(entry, first);
        porcelain::lemma_entries_from_step(entry, first + second);
        assert((first + second).skip(1) =~= first.skip(1) + second);
        if porcelain::begins_entry(first[0]) {
            let next = porcelain::entry_at(Some(porcelain::path_of(first[0])));
            lemma_entries_from_concat(next, first.skip(1), second);
            assert(porcelain::entries_from(entry, first + second) =~= porcelain::entries_from(
                entry,
                first,
            ) + porcelain::entries(second));
        } else {
            lemma_entries_from_concat(
                porcelain::with_line(entry, first[0]),
                first.skip(1),
                second,
            );
        }
    }
}

/// Two listings one after the other describe the worktrees of the first and then
/// those of the second.
pub proof fn law_listings_concatenate(first: Seq<Seq<char>>, second: Seq<Seq<char>>)
    requires
        second.len() > 0 ==> porcelain::begins_entry(second[0]),
    ensures
        porcelain::entries(first + second) == porcelain::entries(first) + porcelain::entries(
            second,
        ),
    decreases first.len(),
{
    if first.len() == 0 {
        assert(first + second =~= second);
    } else {
        assert((first + second).skip(1) =~= first.skip(1) + second);
        if porcelain::begins_entry(first[0]) {
            lemma_entries_from_concat(
                porcelain::entry_at(Some(porcelain::path_of(first[0]))),
                first.skip(1),
                second,
            );
        } else {
            law_listings_concatenate(first.skip(1), second);
        }
    }
}

// ---- what is read is what was written ----

/// Lines that say something only under a condition.
pub open spec fn if_set(condition: bool, line: Seq<char>) -> Seq<Seq<char>> {
    if condition {
        seq![line]
    } else {
        Seq::empty()
    }
}

/// The line for what a worktree has checked out.
pub open spec fn branch_line(branch: Seq<char>) -> Seq<char> {
    if branch == DETACHED_HEAD@ {
        "detached"@
    } else {
        "branch "@ + ("refs/heads/"@ + branch)
    }
}

/// The lines that follow the path in the description of a worktree.
pub open spec fn detail_lines(entry: Entry) -> Seq<Seq<char>> {
    if_set(entry.is_bare, "bare"@) + if_set(entry.head is Some, "HEAD "@ + entry.head->0) + if_set(
        entry.branch is Some,
        branch_line(entry.branch->0),
    ) + if_set(entry.is_locked, "locked"@) + if_set(entry.is_prunable, "prunable"@)
}

/// The lines with which git describes a worktree, without the empty line after
/// them.
pub open spec fn entry_lines(entry: Entry) -> Seq<Seq<char>> {
    seq!["worktree "@ + entry.path->0] + detail_lines(entry)
}

/// An entry that can be written: it has a path, and its branch does not hold
/// `refs/heads/`, which is taken out of it when it is read.
pub open spec fn writable(entry: Entry) -> bool {
    &&& entry.path is Some
    &&& entry.branch is Some ==> !text::contains(entry.branch->0, "refs/heads/"@)
}

pub proof fn lemma_with_lines_concat(entry: Entry, first: Seq<Seq<char>>, second: Seq<Seq<char>>)
    ensures
        porcelain::with_lines(entry, first + second) == porcelain::with_lines(
            porcelain::with_lines(entry, first),
            second,
        ),
    decreases first.len(),
{
    if first.len() == 0 {
        assert(first + second =~= second);
    } else {
        assert((first + second).skip(1) =~= first.skip(1) + second);
        lemma_with_lines_concat(
            porcelain::with_line(entry, first[0]),
            first.skip(1),
            second,
        );
    }
}

/// What some lines and an optional one after them say.
proof fn lemma_with_optional_line(
    entry: Entry,
    lines: Seq<Seq<char>>,
    condition: bool,
    line: Seq<char>,
)
    ensures
        porcelain::with_lines(entry, lines + if_set(condition, line)) == (if condition {
            porcelain::with_line(porcelain::with_lines(entry, lines), line)
        } else {
            porcelain::with_lines(entry, lines)
        }),
{
    let last = if_set(condition, line);
    lemma_with_lines_concat(entry, lines, last);
    if condition {
        assert(last.skip(1).len() == 0);
        reveal_with_fuel(porcelain::with_lines, 2);
    }
}

/// A text begins with the first character of its prefixes.
proof fn lemma_first_character(s: Seq<char>, prefix: Seq<char>)
    requires
        prefix.len() > 0,
        s.len() > 0,
        s[0] != prefix[0],
    ensures
        !text::starts_with(s, prefix),
{
    if text::starts_with(s, prefix) {
        assert(s.take(prefix.len() as int)[0] == s[0]);
    }
}

/// None of the lines after the first begins an entry.
proof fn lemma_lines_belong_to_entry(head: Seq<char>, branch: Seq<char>)
    ensures
        !porcelain::begins_entry("bare"@),
        !porcelain::begins_entry("HEAD "@ + head),
        !porcelain::begins_entry(branch_line(branch)),
        !porcelain::begins_entry("locked"@),
        !porcelain::begins_entry("prunable"@),
        !porcelain::begins_entry(""@),
{
    reveal_strlit("worktree ");
    reveal_strlit("HEAD ");
    reveal_strlit("branch ");
    reveal_strlit("detached");
    reveal_strlit("locked");
    reveal_strlit("prunable");
    reveal_strlit("bare");
    reveal_strlit("");
    lemma_first_character("HEAD "@ + head, "worktree "@);
    lemma_first_character(branch_line(branch), "worktree "@);
}

/// What each of the lines says about a worktree.
proof fn lemma_what_lines_say(entry: Entry, head: Seq<char>, branch: Seq<char>)
    requires
        !text::contains(branch, "refs/heads/"@),
    ensures
        porcelain::with_line(entry, "bare"@) == (Entry { is_bare: true, ..entry }),
        porcelain::with_line(entry, "HEAD "@ + head) == (Entry { head: Some(head), ..entry }),
        porcelain::with_line(entry, branch_line(branch)) == (Entry {
            branch: Some(branch),
            ..entry
        }),
        porcelain::with_line(entry, "locked"@) == (Entry { is_locked: true, ..entry }),
        porcelain::with_line(entry, "prunable"@) == (Entry { is_prunable: true, ..entry }),
        porcelain::with_line(entry, ""@) == entry,
{
    reveal_strlit("HEAD ");
    reveal_strlit("branch ");
    reveal_strlit("refs/heads/");
    reveal_strlit("detached");
    reveal_strlit("locked");
    reveal_strlit("prunable");
    reveal_strlit("bare");
    reveal_strlit("");
    text::lemma_prefix("HEAD "@, head);
    text::lemma_prefix("branch "@, "refs/heads/"@ + branch);
    text::lemma_remove_all_prefix("refs/heads/"@, branch);
    text::lemma_remove_all_absent(branch, "refs/heads/"@);
    lemma_first_character("branch "@ + ("refs/heads/"@ + branch), "HEAD "@);
    lemma_first_character("detached"@, "HEAD "@);
    lemma_first_character("detached"@, "branch "@);
    lemma_first_character("locked"@, "HEAD "@);
    lemma_first_character("prunable"@, "HEAD "@);
    lemma_first_character("prunable"@, "branch "@);
    assert("locked"@[0] != "detached"@[0]);
    assert("prunable"@[0] != "detached"@[0]);
    assert("prunable"@[0] != "locked"@[0]);
    assert("bare"@.len() == 4);
}

/// The lines after the path say everything else about a worktree.
proof fn lemma_details_say_entry(entry: Entry)
    requires
        writable(entry),
    ensures
        porcelain::with_lines(porcelain::entry_at(entry.path), detail_lines(entry)) == entry,
{
    let head = entry.head->0;
    let branch = if entry.branch is Some {
        entry.branch->0
    } else {
        ""@
    };
    lemma_nothing_contains_heads();
    let start = porcelain::entry_at(entry.path);
    let none = Seq::<Seq<char>>::empty();
    let bare = none + if_set(entry.is_bare, "bare"@);
    let heads = bare + if_set(entry.head is Some, "HEAD "@ + head);
    let branches = heads + if_set(entry.branch is Some, branch_line(branch));
    let locked = branches + if_set(entry.is_locked, "locked"@);
    let prunable = locked + if_set(entry.is_prunable, "prunable"@);
    assert(bare =~= if_set(entry.is_bare, "bare"@));
    assert(prunable =~= detail_lines(entry));
    lemma_what_lines_say(porcelain::with_lines(start, none), head, branch);
    lemma_with_optional_line(start, none, entry.is_bare, "bare"@);
    lemma_what_lines_say(porcelain::with_lines(start, bare), head, branch);
    lemma_with_optional_line(start, bare, entry.head is Some, "HEAD "@ + head);
    lemma_what_lines_say(porcelain::with_lines(start, heads), head, branch);
    lemma_with_optional_line(start, heads, entry.branch is Some, branch_line(branch));
    lemma_what_lines_say(porcelain::with_lines(start, branches), head, branch);
    lemma_with_optional_line(start, branches, entry.is_locked, "locked"@);
    lemma_what_lines_say(porcelain::with_lines(start, locked), head, branch);
    lemma_with_optional_line(start, locked, entry.is_prunable, "prunable"@);
}

/// What git writes about a worktree is read back, and a bare repository is left
/// out.
pub proof fn law_written_entry_is_read_back(entry: Entry)
    requires
        writable(entry),
    ensures
        porcelain::entries(entry_lines(entry)) == porcelain::unless_bare(entry),
{
    let lines = entry_lines(entry);
    let details = detail_lines(entry);
    text::lemma_prefix("worktree "@, entry.path->0);
    lemma_lines_belong_to_entry(entry.head->0, entry.branch->0);
    lemma_details_say_entry(entry);
    assert(lines.skip(1) =~= details);
    assert forall|i: int| 0 <= i < details.len() implies !porcelain::begins_entry(
        #[trigger] details[i],
    ) by {}
    lemma_one_entry(details);
    assert(details.take(details.len() as int) =~= details);
    assert(porcelain::entries(lines) == porcelain::unless_bare(entry) + porcelain::entries(
        details.skip(details.len() as int),
    ));
    assert(porcelain::entries(lines) =~= porcelain::unless_bare(entry));
}

/// Where no line begins an entry, all of them belong to the one that has begun.
pub proof fn lemma_one_entry(lines: Seq<Seq<char>>)
    requires
        forall|i: int| 0 <= i < lines.len() ==> !porcelain::begins_entry(#[trigger] lines[i]),
    ensures
        porcelain::entry_len(lines) == lines.len(),
    decreases lines.len(),
{
    if lines.len() > 0 {
        assert forall|i: int| 0 <= i < lines.skip(1).len() implies !porcelain::begins_entry(
            #[trigger] lines.skip(1)[i],
        ) by {
            assert(lines.skip(1)[i] == lines[i + 1]);
        }
        lemma_one_entry(lines.skip(1));
    }
}

/// An empty line says nothing.
proof fn lemma_empty_line_in_entry(entry: Entry, lines: Seq<Seq<char>>)
    ensures
        porcelain::entries_from(entry, lines.push(""@)) == porcelain::entries_from(entry, lines),
    decreases lines.len(),
{
    let longer = lines.push(""@);
    lemma_nothing_contains_heads();
    lemma_lines_belong_to_entry(""@, ""@);
    lemma_what_lines_say(entry, ""@, ""@);
    porcelain::lemma_entries_from_step(entry, longer);
    if lines.len() == 0 {
        assert(longer.skip(1) =~= lines);
    } else {
        porcelain::lemma_entries_from_step(entry, lines);
        assert(longer.skip(1) =~= lines.skip(1).push(""@));
        if porcelain::begins_entry(lines[0]) {
            lemma_empty_line_in_entry(
                porcelain::entry_at(Some(porcelain::path_of(lines[0]))),
                lines.skip(1),
            );
        } else {
            lemma_empty_line_in_entry(porcelain::with_line(entry, lines[0]), lines.skip(1));
        }
    }
}

proof fn lemma_nothing_contains_heads()
    ensures
        !text::contains(""@, "refs/heads/"@),
{
    reveal_strlit("");
    reveal_strlit("refs/heads/");
}

/// An empty line after a listing changes nothing.
pub proof fn law_empty_line_says_nothing(lines: Seq<Seq<char>>)
    ensures
        porcelain::entries(lines.push(""@)) == porcelain::entries(lines),
    decreases lines.len(),
{
    let longer = lines.push(""@);
    lemma_lines_belong_to_entry(""@, ""@);
    if lines.len() == 0 {
        assert(longer.skip(1) =~= lines);
        assert(porcelain::entries(longer) == porcelain::entries(longer.skip(1)));
    } else {
        assert(longer.skip(1) =~= lines.skip(1).push(""@));
        if porcelain::begins_entry(lines[0]) {
            lemma_empty_line_in_entry(
                porcelain::entry_at(Some(porcelain::path_of(lines[0]))),
                lines.skip(1),
            );
        } else {
            law_empty_line_says_nothing(lines.skip(1));
            assert(porcelain::entries(longer) == porcelain::entries(longer.skip(1)));
            assert(porcelain::entries(lines) == porcelain::entries(lines.skip(1)));
        }
    }
}

/// The lines with which git describes some worktrees, with an empty line between
/// two of them.
pub open spec fn listing_lines(entries: Seq<Entry>) -> Seq<Seq<char>>
    decreases entries.len(),
{
    if entries.len() == 0 {
        Seq::empty()
    } else if entries.len() == 1 {
        entry_lines(entries[0])
    } else {
        listing_lines(entries.drop_last()).push(""@) + entry_lines(entries.last())
    }
}

/// The entries that are no bare repositories.
pub open spec fn without_bare(entries: Seq<Entry>) -> Seq<Entry>
    decreases entries.len(),
{
    if entries.len() == 0 {
        Seq::empty()
    } else {
        without_bare(entries.drop_last()) + porcelain::unless_bare(entries.last())
    }
}

/// The lines that git writes about some worktrees are read back as these
/// worktrees, in their order and without bare repositories.
pub proof fn law_written_lines_are_read_back(entries: Seq<Entry>)
    requires
        forall|i: int| 0 <= i < entries.len() ==> writable(#[trigger] entries[i]),
    ensures
        porcelain::entries(listing_lines(entries)) == without_bare(entries),
    decreases entries.len(),
{
    if entries.len() == 0 {
        assert(porcelain::entries(listing_lines(entries)) =~= without_bare(entries));
    } else {
        let earlier = entries.drop_last();
        let last = entries.last();
        law_written_lines_are_read_back(earlier);
        law_written_entry_is_read_back(last);
        if entries.len() == 1 {
            assert(without_bare(earlier) =~= Seq::empty());
            assert(without_bare(entries) =~= porcelain::unless_bare(last));
        } else {
            text::lemma_prefix("worktree "@, last.path->0);
            assert(entry_lines(last)[0] == "worktree "@ + last.path->0);
            law_empty_line_says_nothing(listing_lines(earlier));
            law_listings_concatenate(listing_lines(earlier).push(""@), entry_lines(last));
        }
    }
}

/// What `git worktree list --porcelain` writes about some worktrees: their lines
/// and an empty line.
pub open spec fn git_output(entries: Seq<Entry>) -> Seq<char> {
    text::ended_lines(listing_lines(entries)) + seq!['\n']
}

proof fn lemma_listing_begins_with_entry(entries: Seq<Entry>)
    requires
        entries.len() > 0,
    ensures
        listing_lines(entries).len() > 0,
        listing_lines(entries)[0] == "worktree "@ + entries[0].path->0,
    decreases entries.len(),
{
    if entries.len() > 1 {
        lemma_listing_begins_with_entry(entries.drop_last());
    }
}

/// Entries that can be written into one output: each of them can, no line feed
/// stands in what is written, no carriage return at the end of a line, and no
/// white space at the end of the last.
pub open spec fn all_writable(entries: Seq<Entry>) -> bool {
    &&& forall|i: int| 0 <= i < entries.len() ==> writable(#[trigger] entries[i])
    &&& forall|i: int|
        0 <= i < listing_lines(entries).len() ==> text::one_line(
            #[trigger] listing_lines(entries)[i],
        )
    &&& entries.len() > 0 ==> listing_lines(entries).last().len() > 0 && !text::white_space(
        listing_lines(entries).last().last(),
    )
}

/// The output of git about some worktrees is read back as these worktrees, in
/// their order and without bare repositories.
pub proof fn law_written_listing_is_read_back(entries: Seq<Entry>)
    requires
        all_writable(entries),
    ensures
        porcelain::listing(git_output(entries)) == without_bare(entries),
{
    law_written_lines_are_read_back(entries);
    let lines = listing_lines(entries);
    if entries.len() == 0 {
        let output = git_output(entries);
        assert(output =~= seq!['\n']);
        assert(output.skip(1) =~= Seq::empty());
        reveal_with_fuel(text::trim_start, 2);
        assert(text::trim(output) =~= Seq::empty());
        assert(text::lines(text::trim(output)) =~= Seq::empty());
    } else {
        lemma_listing_begins_with_entry(entries);
        let init = lines.drop_last();
        let last = lines.last();
        let body = text::ended_lines(init) + last;
        assert(lines =~= init.push(last));
        text::lemma_ended_lines_push(init, last);
        assert(git_output(entries) =~= body.push('\n').push('\n'));
        reveal_strlit("worktree ");
        assert(body[0] == 'w') by {
            if init.len() > 0 {
                assert(init[0] == lines[0]);
                assert(text::ended_lines(init)[0] == init[0][0]);
            }
        }
        assert(body.last() == last.last());
        text::lemma_trim_then_white_space(body, '\n');
        text::lemma_trim_then_white_space(body.push('\n'), '\n');
        text::lemma_trim_fixed(body);
        assert forall|i: int| 0 <= i < init.len() implies text::one_line(#[trigger] init[i]) by {
            assert(init[i] == lines[i]);
        }
        text::lemma_lines_of_text(init, last);
    }
}

/// Where git lists some worktrees, listing them gives these worktrees, in their
/// order and without bare repositories, each with what git has said about it.
pub proof fn law_written_worktrees_are_listed(
    repo: Seq<char>,
    entries: Seq<Entry>,
    replies: Seq<Outcome>,
    times: Seq<Option<FileTimes>>,
)
    requires
        all_writable(entries),
        replies.len() > 0,
        session::git_result(replies[0]) == Ok::<Seq<char>, Seq<char>>(git_output(entries)),
        replies.len() > without_bare(entries).len(),
        times.len() >= without_bare(entries).len(),
    ensures
        list::list_worktrees_stage(repo, replies, times) matches Stage::Done(worktrees) && {
            let listed = without_bare(entries);
            &&& worktrees.len() == listed.len()
            &&& forall|i: int|
                0 <= i < listed.len() ==> #[trigger] worktrees[i] == worktree::completed(
                    listed[i],
                    replies[i + 1],
                    times[i],
                )
        },
{
    law_written_listing_is_read_back(entries);
}

} // verus!
