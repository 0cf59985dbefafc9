//! Laws on listing: what is run, what the lines say, and what each worktree is.

use vstd::prelude::*;

use crate::command::Invocation;
use crate::laws::listing;
use crate::laws::replies;
use crate::list;
use crate::porcelain;
use crate::porcelain::Entry;
use crate::session::{Outcome, Stage};
use crate::text;
use crate::times;
use crate::times::FileTimes;
use crate::worktree;
use crate::worktree::WorktreeInfo;

verus! {

// ---- the lines of one worktree ----

/// The line is among the lines.
pub open spec fn has_line(lines: Seq<Seq<char>>, line: Seq<char>) -> bool {
    exists|i: int| 0 <= i < lines.len() && #[trigger] lines[i] == line
}

/// The line tells the commit of a worktree.
pub open spec fn tells_head(line: Seq<char>) -> bool {
    text::starts_with(line, "HEAD "@)
}

/// The line tells what a worktree has checked out.
pub open spec fn tells_branch(line: Seq<char>) -> bool {
    text::starts_with(line, "branch "@) || line == "detached"@
}

/// What the lines after its path say of a worktree: it is locked, prunable or bare
/// exactly where a line says so with that very word, and the last line that tells a
/// commit, or what is checked out, counts.
pub open spec fn says(entry: Entry, path: Seq<char>, details: Seq<Seq<char>>) -> bool {
    &&& entry.path == Some(path)
    &&& entry.is_locked <==> has_line(details, "locked"@)
    &&& entry.is_prunable <==> has_line(details, "prunable"@)
    &&& entry.is_bare <==> has_line(details, "bare"@)
    &&& entry.head is Some <==> exists|i: int|
        0 <= i < details.len() && tells_head(#[trigger] details[i])
    &&& entry.branch is Some <==> exists|i: int|
        0 <= i < details.len() && tells_branch(#[trigger] details[i])
    &&& forall|i: int|
        0 <= i < details.len() && tells_head(#[trigger] details[i]) && (forall|k: int|
            i < k < details.len() ==> !tells_head(#[trigger] details[k])) ==> entry.head == Some(
            text::without_prefix(details[i], "HEAD "@),
        )
    &&& forall|i: int|
        0 <= i < details.len() && tells_branch(#[trigger] details[i]) && (forall|k: int|
            i < k < details.len() ==> !tells_branch(#[trigger] details[k])) ==> entry.branch
            == Some(
            if details[i] == "detached"@ {
                "detached HEAD"@
            } else {
                text::remove_all(text::without_prefix(details[i], "branch "@), "refs/heads/"@)
            },
        )
}

/// No line says two things.
proof fn lemma_lines_say_one_thing(line: Seq<char>)
    ensures
        tells_head(line) ==> !tells_branch(line) && line != "locked"@ && line != "prunable"@ && line
            != "bare"@,
        tells_branch(line) ==> line != "locked"@ && line != "prunable"@ && line != "bare"@,
        text::starts_with(line, "branch "@) ==> line != "detached"@,
        "locked"@ != "prunable"@,
        "locked"@ != "bare"@,
        "prunable"@ != "bare"@,
{
    reveal_strlit("HEAD ");
    reveal_strlit("branch ");
    reveal_strlit("detached");
    reveal_strlit("locked");
    reveal_strlit("prunable");
    reveal_strlit("bare");
    assert("locked"@.len() == 6 && "prunable"@.len() == 8 && "bare"@.len() == 4);
    if tells_head(line) {
        assert(line.take(5)[0] == line[0]);
        assert(line[0] == 'H');
        if text::starts_with(line, "branch "@) {
            assert(line.take(7)[0] == line[0]);
        }
    }
    if text::starts_with(line, "branch "@) {
        assert(line.take(7)[0] == line[0] && line.take(7)[1] == line[1]);
        assert(line[0] == 'b' && line[1] == 'r');
    }
    assert("detached"@[0] == 'd' && "locked"@[0] == 'l' && "prunable"@[0] == 'p' && "bare"@[1]
        == 'a');
}

/// What one more line adds to an entry.
proof fn lemma_says_step(entry: Entry, path: Seq<char>, details: Seq<Seq<char>>, line: Seq<char>)
    requires
        says(entry, path, details),
    ensures
        says(porcelain::with_line(entry, line), path, details.push(line)),
{
    lemma_lines_say_one_thing(line);
    let longer = details.push(line);
    let n = details.len() as int;
    let after = porcelain::with_line(entry, line);
    assert(longer[n] == line);
    assert forall|word: Seq<char>| #[trigger] has_line(longer, word) <==> has_line(details, word)
        || line == word by {
        if has_line(details, word) {
            let i = choose|i: int| 0 <= i < details.len() && #[trigger] details[i] == word;
            assert(longer[i] == word);
        }
        if has_line(longer, word) && line != word {
            let i = choose|i: int| 0 <= i < longer.len() && #[trigger] longer[i] == word;
            assert(details[i] == word);
        }
    }
    assert(after.is_locked <==> has_line(longer, "locked"@));
    assert(after.is_prunable <==> has_line(longer, "prunable"@));
    assert(after.is_bare <==> has_line(longer, "bare"@));
    assert forall|i: int| 0 <= i < n implies #[trigger] longer[i] == details[i] by {}
    if tells_head(line) {
        assert(after.head is Some);
    } else {
        assert(after.head == entry.head);
        if entry.head is Some {
            let i = choose|i: int| 0 <= i < details.len() && tells_head(#[trigger] details[i]);
            assert(tells_head(longer[i]));
        }
        if exists|i: int| 0 <= i < longer.len() && tells_head(#[trigger] longer[i]) {
            let i = choose|i: int| 0 <= i < longer.len() && tells_head(#[trigger] longer[i]);
            assert(tells_head(details[i]));
        }
    }
    if tells_branch(line) {
        assert(after.branch is Some);
    } else {
        assert(after.branch == entry.branch);
        if entry.branch is Some {
            let i = choose|i: int| 0 <= i < details.len() && tells_branch(#[trigger] details[i]);
            assert(tells_branch(longer[i]));
        }
        if exists|i: int| 0 <= i < longer.len() && tells_branch(#[trigger] longer[i]) {
            let i = choose|i: int| 0 <= i < longer.len() && tells_branch(#[trigger] longer[i]);
            assert(tells_branch(details[i]));
        }
    }
    assert forall|i: int|
        0 <= i < longer.len() && tells_head(#[trigger] longer[i]) && (forall|k: int|
            i < k < longer.len() ==> !tells_head(#[trigger] longer[k])) implies after.head == Some(
        text::without_prefix(longer[i], "HEAD "@),
    ) by {
        if i < n {
            assert(!tells_head(longer[n]));
            assert(tells_head(details[i]));
            assert forall|k: int| i < k < details.len() implies !tells_head(
                #[trigger] details[k],
            ) by {
                assert(!tells_head(longer[k]));
            }
        }
    }
    assert forall|i: int|
        0 <= i < longer.len() && tells_branch(#[trigger] longer[i]) && (forall|k: int|
            i < k < longer.len() ==> !tells_branch(#[trigger] longer[k])) implies after.branch
        == Some(
        if longer[i] == "detached"@ {
            "detached HEAD"@
        } else {
            text::remove_all(text::without_prefix(longer[i], "branch "@), "refs/heads/"@)
        },
    ) by {
        if i < n {
            assert(!tells_branch(longer[n]));
            assert(tells_branch(details[i]));
            assert forall|k: int| i < k < details.len() implies !tells_branch(
                #[trigger] details[k],
            ) by {
                assert(!tells_branch(longer[k]));
            }
        }
    }
}

proof fn lemma_with_last_line(entry: Entry, earlier: Seq<Seq<char>>, line: Seq<char>)
    ensures
        porcelain::with_lines(entry, earlier.push(line)) == porcelain::with_line(
            porcelain::with_lines(entry, earlier),
            line,
        ),
{
    listing::lemma_with_lines_concat(entry, earlier, seq![line]);
    assert(earlier + seq![line] =~= earlier.push(line));
    assert(seq![line].skip(1).len() == 0);
    reveal_with_fuel(porcelain::with_lines, 2);
}

proof fn lemma_path_is_read(path: Seq<char>)
    ensures
        says(porcelain::entry_at(Some(path)), path, Seq::empty()),
{
}

proof fn lemma_details_are_read(path: Seq<char>, details: Seq<Seq<char>>)
    ensures
        says(
            porcelain::with_lines(porcelain::entry_at(Some(path)), details),
            path,
            details,
        ),
    decreases details.len(),
{
    let start = porcelain::entry_at(Some(path));
    if details.len() == 0 {
        lemma_path_is_read(path);
        assert(details =~= Seq::empty());
        assert(porcelain::with_lines(start, details) == start);
    } else {
        let earlier = details.drop_last();
        let line = details.last();
        let read = porcelain::with_lines(start, earlier);
        lemma_details_are_read(path, earlier);
        lemma_says_step(read, path, earlier, line);
        lemma_with_last_line(start, earlier, line);
        assert(earlier.push(line) =~= details);
        assert(porcelain::with_lines(start, details) == porcelain::with_line(read, line));
    }
}

/// A line `worktree <path>` and the lines after it, of which none begins another
/// worktree, are read as one worktree with what these lines say, and as none where
/// they say that it is bare.
pub proof fn law_lines_describe_one_worktree(path: Seq<char>, details: Seq<Seq<char>>)
    requires
        forall|i: int|
            0 <= i < details.len() ==> !text::starts_with(#[trigger] details[i], "worktree "@),
    ensures
        ({
            let entries = porcelain::entries(seq!["worktree "@ + path] + details);
            &&& has_line(details, "bare"@) ==> entries.len() == 0
            &&& !has_line(details, "bare"@) ==> entries.len() == 1 && says(
                entries[0],
                path,
                details,
            )
        }),
{
    let lines = seq!["worktree "@ + path] + details;
    text::lemma_prefix("worktree "@, path);
    assert(lines.skip(1) =~= details);
    assert forall|i: int| 0 <= i < details.len() implies !porcelain::begins_entry(
        #[trigger] details[i],
    ) by {}
    listing::lemma_one_entry(details);
    assert(details.take(details.len() as int) =~= details);
    lemma_details_are_read(path, details);
    let entry = porcelain::with_lines(porcelain::entry_at(Some(path)), details);
    assert(lines[0] == "worktree "@ + path);
    assert(porcelain::begins_entry(lines[0]));
    let rest = details.skip(details.len() as int);
    assert(rest.len() == 0);
    assert(porcelain::entries(rest).len() == 0);
    assert(porcelain::entries(lines) == porcelain::unless_bare(entry) + porcelain::entries(rest));
    assert(porcelain::entries(lines) =~= porcelain::unless_bare(entry));
}

/// Lines before the first worktree say nothing.
pub proof fn law_lines_before_worktrees_say_nothing(
    before: Seq<Seq<char>>,
    lines: Seq<Seq<char>>,
)
    requires
        forall|i: int|
            0 <= i < before.len() ==> !text::starts_with(#[trigger] before[i], "worktree "@),
    ensures
        porcelain::entries(before + lines) == porcelain::entries(lines),
    decreases before.len(),
{
    if before.len() == 0 {
        assert(before + lines =~= lines);
    } else {
        assert((before + lines).skip(1) =~= before.skip(1) + lines);
        assert((before + lines)[0] == before[0]);
        assert(!porcelain::begins_entry(before[0]));
        assert forall|i: int| 0 <= i < before.skip(1).len() implies !text::starts_with(
            #[trigger] before.skip(1)[i],
            "worktree "@,
        ) by {
            assert(before.skip(1)[i] == before[i + 1]);
        }
        law_lines_before_worktrees_say_nothing(before.skip(1), lines);
        assert(porcelain::entries(before + lines) == porcelain::entries((before + lines).skip(1)));
    }
}

/// A listing is read line by line; white space around the whole does not count.
pub proof fn law_listing_is_read_by_lines(output: Seq<char>, before: char, after: char)
    requires
        output.len() > 0,
        !text::white_space(output[0]),
        !text::white_space(output.last()),
        text::white_space(before),
        text::white_space(after),
    ensures
        porcelain::listing(output) == porcelain::entries(text::lines(output)),
        porcelain::listing(output.push(after)) == porcelain::listing(output),
        porcelain::listing(seq![before] + output) == porcelain::listing(output),
        porcelain::listing(Seq::empty()).len() == 0,
{
    text::lemma_trim_fixed(output);
    text::lemma_trim_then_white_space(output, after);
    assert((seq![before] + output).skip(1) =~= output);
    assert(text::trim_start(seq![before] + output) == text::trim_start(output));
    assert(text::lines(Seq::<char>::empty()).len() == 0);
    assert(porcelain::entries(text::lines(Seq::<char>::empty())).len() == 0);
}

// ---- the operation ----

/// Listing, step by step: the listing of git, then of each worktree in turn its status
/// inside it and its file times.
pub proof fn law_list_steps(repo: Seq<char>, replies: Seq<Outcome>, times: Seq<Option<FileTimes>>)
    ensures
        ({
            let stage = list::list_worktrees_stage(repo, replies, times);
            let entries = porcelain::listing(replies::written(replies[0]));
            let asked = replies.len() - 1;
            let looked_up = times.len() as int;
            &&& replies.len() == 0 ==> stage == Stage::<Seq<WorktreeInfo>>::Run(
                replies::on_clone(repo, seq!["worktree"@, "list"@, "--porcelain"@]),
            )
            &&& asked >= 0 && !replies::went_well(replies[0]) ==> stage == Stage::<
                Seq<WorktreeInfo>,
            >::Failed("Failed to list worktrees: "@ + replies::complaint(replies[0]))
            &&& asked >= 0 && replies::went_well(replies[0]) ==> {
                &&& asked < entries.len() && asked <= looked_up ==> {
                    &&& entries[asked].path is Some
                    &&& stage == Stage::<Seq<WorktreeInfo>>::Run(
                        Invocation {
                            git_dir: None,
                            current_dir: entries[asked].path,
                            args: seq!["status"@, "--porcelain"@],
                        },
                    )
                }
                &&& looked_up < entries.len() && looked_up < asked ==> {
                    &&& entries[looked_up].path is Some
                    &&& stage == Stage::<Seq<WorktreeInfo>>::ReadTimes(entries[looked_up].path->0)
                }
                &&& asked >= entries.len() && looked_up >= entries.len() ==> stage is Done
            }
        }),
{
    let output = replies::written(replies[0]);
    listing::law_listed_worktrees_have_a_path(text::lines(text::trim(output)));
    let entries = porcelain::listing(output);
    let asked = replies.len() - 1;
    if 0 <= asked < entries.len() {
        assert(listing::is_listed(entries[asked]));
    }
    if times.len() < entries.len() {
        assert(listing::is_listed(entries[times.len() as int]));
    }
}

/// The text that was told, or an empty one where none was.
pub open spec fn is_told(text: Seq<char>, told: Option<Seq<char>>) -> bool {
    match told {
        Some(what) => text == what,
        None => text.len() == 0,
    }
}

/// What each listed worktree is, from its entry, the reply to its status and its file
/// times: dirty exactly where git ran and wrote anything at all to standard output,
/// whatever it wrote and however it ended; a main one exactly on `main` and `master`;
/// created at the epoch where no creation time is known.
pub proof fn law_listed_worktrees_are_as_told(
    repo: Seq<char>,
    replies: Seq<Outcome>,
    times: Seq<Option<FileTimes>>,
)
    ensures
        list::list_worktrees_stage(repo, replies, times) matches Stage::Done(worktrees) ==> {
            let entries = porcelain::listing(replies::written(replies[0]));
            &&& worktrees.len() == entries.len()
            &&& worktrees.len() < replies.len()
            &&& worktrees.len() <= times.len()
            &&& forall|i: int|
                0 <= i < worktrees.len() ==> {
                    let worktree = #[trigger] worktrees[i];
                    let entry = entries[i];
                    &&& entry.path == Some(worktree.path)
                    &&& is_told(worktree.branch, entry.branch)
                    &&& is_told(worktree.head, entry.head)
                    &&& worktree.is_locked == entry.is_locked
                    &&& worktree.is_prunable == entry.is_prunable
                    &&& worktree.is_main <==> worktree.branch == "main"@ || worktree.branch
                        == "master"@
                    &&& worktree.is_dirty <==> (replies[i + 1] matches Outcome::Exited {
                        stdout,
                        ..
                    } && stdout.len() > 0)
                    &&& worktree.created_at == (match times[i] {
                        None => 0,
                        Some(known) => match times::creation_timestamp(known) {
                            Some(secs) => secs,
                            None => 0,
                        },
                    })
                }
        },
{
    let output = replies::written(replies[0]);
    listing::law_listed_worktrees_have_a_path(text::lines(text::trim(output)));
    if let Stage::Done(worktrees) = list::list_worktrees_stage(repo, replies, times) {
        let entries = porcelain::listing(output);
        assert forall|i: int| 0 <= i < worktrees.len() implies entries[i].path == Some(
            (#[trigger] worktrees[i]).path,
        ) && replies.skip(1)[i] == replies[i + 1] by {
            assert(listing::is_listed(entries[i]));
        }
    }
}

/// The same of one entry on its own, which may have no path either.
pub proof fn law_completed_worktree_is_as_told(
    entry: Entry,
    status: Outcome,
    times: Option<FileTimes>,
)
    ensures
        ({
            let worktree = worktree::completed(entry, status, times);
            &&& is_told(worktree.path, entry.path)
            &&& is_told(worktree.branch, entry.branch)
            &&& is_told(worktree.head, entry.head)
            &&& worktree.is_locked == entry.is_locked
            &&& worktree.is_prunable == entry.is_prunable
            &&& worktree.is_main <==> worktree.branch == "main"@ || worktree.branch == "master"@
            &&& worktree.is_dirty <==> (status matches Outcome::Exited { stdout, .. }
                && stdout.len() > 0)
            &&& times is None ==> worktree.created_at == 0
            &&& times matches Some(known) ==> worktree.created_at == (
            match times::creation_timestamp(known) {
                Some(secs) => secs,
                None => 0,
            })
        }),
{
}

} // verus!
