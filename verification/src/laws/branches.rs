//! Laws on branches and references.

use vstd::prelude::*;

use crate::branch;
use crate::laws::replies;
use crate::laws::sessions;
use crate::session::{Outcome, Stage};
use crate::text;

verus! {

/// A reference exists exactly where `git rev-parse --verify` on it goes well.
pub proof fn law_reference_exists_where_git_says_so(
    repo: Seq<char>,
    reference: Seq<char>,
    replies: Seq<Outcome>,
)
    ensures
        replies.len() == 0 ==> branch::reference_exists_stage(repo, reference, replies) == Stage::<
            bool,
        >::Run(replies::on_clone(repo, seq!["rev-parse"@, "--verify"@, reference])),
        replies.len() > 0 ==> branch::reference_exists_stage(repo, reference, replies)
            == Stage::Done(replies::went_well(replies[0])),
{
}

// ---- merged branches ----

/// The lines of `git branch` for some names, of which some are marked.
pub open spec fn branch_lines(names: Seq<Seq<char>>, marked: Seq<bool>) -> Seq<Seq<char>> {
    Seq::new(
        names.len(),
        |i: int|
            if marked[i] {
                "* "@ + names[i]
            } else {
                "  "@ + names[i]
            },
    )
}

/// Names that the lines of `git branch` can hold.
pub open spec fn plain_names(names: Seq<Seq<char>>) -> bool {
    forall|i: int|
        0 <= i < names.len() ==> sessions::plain_name(#[trigger] names[i]) && text::one_line(
            names[i],
        )
}

proof fn lemma_branch_lines(names: Seq<Seq<char>>, marked: Seq<bool>)
    requires
        plain_names(names),
        marked.len() == names.len(),
    ensures
        text::lines(text::ended_lines(branch_lines(names, marked))) == branch_lines(names, marked),
        forall|i: int|
            0 <= i < names.len() ==> branch::listed_branch(
                #[trigger] branch_lines(names, marked)[i],
            ) == names[i],
{
    reveal_strlit("  ");
    reveal_strlit("* ");
    let lines = branch_lines(names, marked);
    assert forall|i: int| 0 <= i < lines.len() implies text::one_line(#[trigger] lines[i]) by {
        assert(sessions::plain_name(names[i]));
        assert(lines[i].last() == names[i].last());
        assert forall|k: int| 0 <= k < lines[i].len() implies lines[i][k] != '\n' by {
            if k >= 2 {
                assert(lines[i][k] == names[i][k - 2]);
            }
        }
    }
    text::lemma_lines_of_text(lines, Seq::empty());
    assert(text::ended_lines(lines) + Seq::<char>::empty() =~= text::ended_lines(lines));
    assert forall|i: int| 0 <= i < names.len() implies branch::listed_branch(#[trigger] lines[i])
        == names[i] by {
        sessions::law_branch_line_names_its_branch(names[i]);
    }
}

/// `git branch` lists a branch if and only if one of its lines names exactly this
/// branch: neither a part of it nor more than it.
pub proof fn law_branch_is_listed_where_a_line_names_it(
    names: Seq<Seq<char>>,
    marked: Seq<bool>,
    branch: Seq<char>,
)
    requires
        plain_names(names),
        marked.len() == names.len(),
    ensures
        branch::lists_branch(text::ended_lines(branch_lines(names, marked)), branch)
            <==> names.contains(branch),
{
    lemma_branch_lines(names, marked);
    let lines = branch_lines(names, marked);
    let output = text::ended_lines(lines);
    if names.contains(branch) {
        let i = choose|i: int| 0 <= i < names.len() && names[i] == branch;
        assert(sessions::plain_name(names[i]));
        assert(branch::listed_branch(text::lines(output)[i]) == branch);
    }
    if branch::lists_branch(output, branch) {
        let i = choose|i: int|
            0 <= i < text::lines(output).len() && branch::listed_branch(
                #[trigger] text::lines(output)[i],
            ) == branch;
        assert(branch::listed_branch(lines[i]) == names[i]);
        assert(names[i] == branch);
    }
}

/// A branch is merged at once if and only if one of the lines of `git branch
/// --merged` names exactly it; any other branch is looked at for a squash merge.
pub proof fn law_branch_is_merged_where_a_line_names_it(
    repo: Seq<char>,
    branch: Seq<char>,
    base: Seq<char>,
    names: Seq<Seq<char>>,
    marked: Seq<bool>,
    replies: Seq<Outcome>,
)
    requires
        plain_names(names),
        marked.len() == names.len(),
        replies.len() > 0,
        replies::went_well(replies[0]),
        replies::written(replies[0]) == text::ended_lines(branch_lines(names, marked)),
    ensures
        names.contains(branch) ==> branch::is_branch_merged_stage(repo, branch, base, replies)
            == Stage::<bool>::Done(true),
        !names.contains(branch) && replies.len() == 1 ==> branch::is_branch_merged_stage(
            repo,
            branch,
            base,
            replies,
        ) == Stage::<bool>::Run(
            replies::on_clone(repo, seq!["diff"@, "--name-only"@, base + "..."@ + branch]),
        ),
        !names.contains(branch) ==> branch::is_branch_merged_stage(repo, branch, base, replies)
            == branch::is_squash_merged_stage(repo, branch, base, replies.skip(1)),
{
    law_branch_is_listed_where_a_line_names_it(names, marked, branch);
}

/// Of any output, a branch is listed exactly where some line, without white space at
/// its ends, is its name, which may have marks of the current branch before it.
pub proof fn law_listed_lines_hold_the_name(output: Seq<char>, branch: Seq<char>)
    ensures
        branch::lists_branch(output, branch) <==> branch.len() > 0 && exists|i: int|
            0 <= i < text::lines(output).len() && text::trim(
                text::trim_start_text(text::trim(#[trigger] text::lines(output)[i]), "* "@),
            ) == branch,
{
    let lines = text::lines(output);
    if branch::lists_branch(output, branch) {
        let i = choose|i: int|
            0 <= i < lines.len() && branch::listed_branch(#[trigger] lines[i]) == branch;
        assert(text::trim(text::trim_start_text(text::trim(lines[i]), "* "@)) == branch);
    }
    if branch.len() > 0 && exists|i: int|
        0 <= i < lines.len() && text::trim(
            text::trim_start_text(text::trim(#[trigger] lines[i]), "* "@),
        ) == branch {
        let i = choose|i: int|
            0 <= i < lines.len() && text::trim(
                text::trim_start_text(text::trim(#[trigger] lines[i]), "* "@),
            ) == branch;
        assert(branch::listed_branch(lines[i]) == branch);
    }
}

/// Whether a branch is merged is first asked of `git branch --merged <base>`; without
/// an answer there is none, and an unlisted branch is looked at for a squash merge.
pub proof fn law_merge_steps(
    repo: Seq<char>,
    branch: Seq<char>,
    base: Seq<char>,
    replies: Seq<Outcome>,
)
    ensures
        ({
            let stage = branch::is_branch_merged_stage(repo, branch, base, replies);
            &&& replies.len() == 0 ==> stage == Stage::<bool>::Run(
                replies::on_clone(repo, seq!["branch"@, "--merged"@, base]),
            )
            &&& replies.len() > 0 && !replies::went_well(replies[0]) ==> stage == Stage::<
                bool,
            >::Failed(
                "Failed to check if branch "@ + branch + " is merged: "@ + replies::complaint(
                    replies[0],
                ),
            )
            &&& replies.len() > 0 && replies::went_well(replies[0]) ==> {
                let listed = branch::lists_branch(replies::written(replies[0]), branch);
                &&& listed ==> stage == Stage::<bool>::Done(true)
                &&& !listed ==> stage == branch::is_squash_merged_stage(
                    repo,
                    branch,
                    base,
                    replies.skip(1),
                )
            }
        }),
{
}

/// A squash merge is looked for in two comparisons: which files the branch has changed
/// since it left the base branch, and which of these differ between the two.  The
/// branch counts as merged exactly where one of them names no file.
pub proof fn law_squash_merge_steps(
    repo: Seq<char>,
    branch: Seq<char>,
    base: Seq<char>,
    files: Seq<Seq<char>>,
    replies: Seq<Outcome>,
)
    requires
        forall|i: int|
            0 <= i < files.len() ==> (#[trigger] files[i]).len() > 0 && text::one_line(files[i]),
        replies.len() > 0 && replies::went_well(replies[0]) ==> replies::written(replies[0])
            == text::ended_lines(files),
        replies.len() > 0 && !replies::went_well(replies[0]) ==> files.len() == 0,
    ensures
        ({
            let stage = branch::is_squash_merged_stage(repo, branch, base, replies);
            let n = replies.len();
            &&& n == 0 ==> stage == Stage::<bool>::Run(
                replies::on_clone(repo, seq!["diff"@, "--name-only"@, base + "..."@ + branch]),
            )
            &&& n >= 1 && files.len() == 0 ==> stage == Stage::<bool>::Done(true)
            &&& n == 1 && files.len() > 0 ==> stage == Stage::<bool>::Run(
                replies::on_clone(
                    repo,
                    seq!["diff"@, "--name-only"@, base, branch, "--"@] + files,
                ),
            )
            &&& n >= 2 && files.len() > 0 ==> stage == Stage::<bool>::Done(
                !replies::went_well(replies[1]) || forall|i: int|
                    0 <= i < replies::written(replies[1]).len() ==> text::white_space(
                        #[trigger] replies::written(replies[1])[i],
                    ),
            )
        }),
{
    if replies.len() > 0 {
        lemma_files(files);
        if replies.len() > 1 {
            lemma_blank(replies::written(replies[1]));
        }
    }
}

/// Of any reply to the first comparison, the lines that are not empty are the files of
/// the second.
pub proof fn law_changed_files_are_compared(
    repo: Seq<char>,
    branch: Seq<char>,
    base: Seq<char>,
    replies: Seq<Outcome>,
)
    requires
        replies.len() == 1,
        replies::went_well(replies[0]),
    ensures
        ({
            let files = branch::non_empty(text::lines(replies::written(replies[0])));
            branch::is_squash_merged_stage(repo, branch, base, replies) == (if files.len() == 0 {
                Stage::<bool>::Done(true)
            } else {
                Stage::<bool>::Run(
                    replies::on_clone(
                        repo,
                        seq!["diff"@, "--name-only"@, base, branch, "--"@] + files,
                    ),
                )
            })
        }),
{
}

proof fn lemma_files(files: Seq<Seq<char>>)
    requires
        forall|i: int|
            0 <= i < files.len() ==> (#[trigger] files[i]).len() > 0 && text::one_line(files[i]),
    ensures
        branch::non_empty(text::lines(text::ended_lines(files))) == files,
        branch::non_empty(text::lines(Seq::empty())) == Seq::<Seq<char>>::empty(),
{
    text::lemma_lines_of_text(files, Seq::empty());
    assert(text::ended_lines(files) + Seq::<char>::empty() =~= text::ended_lines(files));
    lemma_all_non_empty(files);
}

proof fn lemma_all_non_empty(files: Seq<Seq<char>>)
    requires
        forall|i: int| 0 <= i < files.len() ==> (#[trigger] files[i]).len() > 0,
    ensures
        branch::non_empty(files) == files,
    decreases files.len(),
{
    if files.len() > 0 {
        lemma_all_non_empty(files.drop_last());
        assert(files.drop_last().push(files.last()) =~= files);
    } else {
        assert(branch::non_empty(files) =~= files);
    }
}

/// Nothing is left of a text exactly where it is white space only.
proof fn lemma_blank(s: Seq<char>)
    ensures
        text::trim(s).len() == 0 <==> forall|i: int|
            0 <= i < s.len() ==> text::white_space(#[trigger] s[i]),
{
    crate::laws::texts::law_trim_takes_white_space_off(s);
}

/// The files are the lines that are not empty, in their order: empty lines say
/// nothing, wherever they stand.
pub proof fn law_empty_lines_are_no_files(first: Seq<Seq<char>>, second: Seq<Seq<char>>)
    ensures
        branch::non_empty(first + second) == branch::non_empty(first) + branch::non_empty(second),
        branch::non_empty(seq![""@]).len() == 0,
        forall|line: Seq<char>|
            line.len() > 0 ==> #[trigger] branch::non_empty(seq![line]) == seq![line],
    decreases second.len(),
{
    reveal_strlit("");
    assert forall|line: Seq<char>| true implies (line.len() > 0 ==> #[trigger] branch::non_empty(
        seq![line],
    ) == seq![line]) && (line.len() == 0 ==> branch::non_empty(seq![line]).len() == 0) by {
        assert(seq![line].drop_last() =~= Seq::empty());
        reveal_with_fuel(branch::non_empty, 2);
        if line.len() > 0 {
            assert(branch::non_empty(seq![line]) =~= seq![line]);
        }
    }
    if second.len() == 0 {
        assert(first + second =~= first);
    } else {
        law_empty_lines_are_no_files(first, second.drop_last());
        assert((first + second).drop_last() =~= first + second.drop_last());
    }
    assert(branch::non_empty(first + second) =~= branch::non_empty(first) + branch::non_empty(
        second,
    ));
}

// ---- the default branch and synchronisation ----

/// The default branch, reply by reply: what `origin/HEAD` points to, or else `main`,
/// or else `master`, as far as they exist.
pub proof fn law_default_branch_steps(repo: Seq<char>, replies: Seq<Outcome>)
    ensures
        ({
            let stage = branch::get_default_branch_stage(repo, replies);
            let n = replies.len();
            &&& n == 0 ==> stage == Stage::<Seq<char>>::Run(
                replies::on_clone(repo, seq!["symbolic-ref"@, "refs/remotes/origin/HEAD"@]),
            )
            &&& n >= 1 && replies::went_well(replies[0]) ==> stage == Stage::<Seq<char>>::Done(
                text::remove_all(
                    text::trim(replies::written(replies[0])),
                    "refs/remotes/origin/"@,
                ),
            )
            &&& n >= 1 && !replies::went_well(replies[0]) ==> {
                &&& n == 1 ==> stage == Stage::<Seq<char>>::Run(
                    replies::on_clone(repo, seq!["rev-parse"@, "--verify"@, "refs/heads/main"@]),
                )
                &&& n >= 2 && replies::went_well(replies[1]) ==> stage == Stage::<
                    Seq<char>,
                >::Done("main"@)
                &&& n == 2 && !replies::went_well(replies[1]) ==> stage == Stage::<Seq<char>>::Run(
                    replies::on_clone(repo, seq!["rev-parse"@, "--verify"@, "refs/heads/master"@]),
                )
                &&& n >= 3 && !replies::went_well(replies[1]) ==> stage == (if replies::went_well(
                    replies[2],
                ) {
                    Stage::<Seq<char>>::Done("master"@)
                } else {
                    Stage::<Seq<char>>::Failed(
                        "Could not determine default branch. Please specify with --branch."@,
                    )
                })
            }
        }),
{
    reveal_strlit("refs/heads/");
    reveal_strlit("main");
    reveal_strlit("master");
    reveal_strlit("refs/heads/main");
    reveal_strlit("refs/heads/master");
    assert("refs/heads/"@ + "main"@ =~= "refs/heads/main"@);
    assert("refs/heads/"@ + "master"@ =~= "refs/heads/master"@);
}

/// Synchronising a branch fetches it from `origin` into the local branch of the same
/// name, and ends as git does.
pub proof fn law_sync_fetches_the_branch(
    repo: Seq<char>,
    branch: Seq<char>,
    replies: Seq<Outcome>,
)
    ensures
        replies.len() == 0 ==> branch::sync_branch_stage(repo, branch, replies) == Stage::<
            (),
        >::Run(replies::on_clone(repo, seq!["fetch"@, "origin"@, branch + ":"@ + branch])),
        replies.len() > 0 && replies::went_well(replies[0]) ==> branch::sync_branch_stage(
            repo,
            branch,
            replies,
        ) == Stage::<()>::Done(()),
        replies.len() > 0 && !replies::went_well(replies[0]) ==> branch::sync_branch_stage(
            repo,
            branch,
            replies,
        ) == Stage::<()>::Failed(
            "Failed to sync branch '"@ + branch + "': "@ + replies::complaint(replies[0]),
        ),
{
}

} // verus!
