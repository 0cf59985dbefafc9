//! Laws on finding a worktree by name.

use vstd::prelude::*;

use crate::laws::naming;
use crate::list;
use crate::session::{Outcome, Stage};
use crate::text;
use crate::times::FileTimes;
use crate::tracking;
use crate::worktree;
use crate::worktree::{Match, WorktreeInfo};

verus! {

/// Some worktree is on the branch.
pub open spec fn on_branch(worktrees: Seq<WorktreeInfo>, branch: Seq<char>) -> bool {
    exists|k: int| 0 <= k < worktrees.len() && (#[trigger] worktrees[k]).branch == branch
}

/// Some worktree's directory has the name.
pub open spec fn in_directory(directories: Seq<Option<Seq<char>>>, name: Seq<char>) -> bool {
    exists|k: int| 0 <= k < directories.len() && #[trigger] directories[k] == Some(name)
}

/// Some worktree's branch ends with the name, after a slash.
pub open spec fn at_branch_end(worktrees: Seq<WorktreeInfo>, name: Seq<char>) -> bool {
    exists|k: int|
        0 <= k < worktrees.len() && text::ends_with(
            (#[trigger] worktrees[k]).branch,
            "/"@ + name,
        )
}

/// What a name without slashes at its end means: the first worktree on the branch; if
/// none is on it, the first whose directory has the name; if none has, the first whose
/// branch ends with the name after a slash; if none does, or the name is empty, none.
pub open spec fn is_meant(
    worktrees: Seq<WorktreeInfo>,
    directories: Seq<Option<Seq<char>>>,
    name: Seq<char>,
    found: Option<int>,
) -> bool {
    if name.len() == 0 {
        found is None
    } else if on_branch(worktrees, name) {
        &&& found matches Some(i)
        &&& 0 <= i < worktrees.len()
        &&& worktrees[i].branch == name
        &&& forall|k: int| 0 <= k < i ==> (#[trigger] worktrees[k]).branch != name
    } else if in_directory(directories, name) {
        &&& found matches Some(i)
        &&& 0 <= i < worktrees.len()
        &&& directories[i] == Some(name)
        &&& forall|k: int| 0 <= k < i ==> #[trigger] directories[k] != Some(name)
    } else if at_branch_end(worktrees, name) {
        &&& found matches Some(i)
        &&& 0 <= i < worktrees.len()
        &&& text::ends_with(worktrees[i].branch, "/"@ + name)
        &&& forall|k: int|
            0 <= k < i ==> !text::ends_with((#[trigger] worktrees[k]).branch, "/"@ + name)
    } else {
        found is None
    }
}

/// A name means a worktree by its branch, its directory or the end of its branch, in
/// this order, and the first one in each.
pub proof fn law_name_means_the_first_in_order(
    worktrees: Seq<WorktreeInfo>,
    directories: Seq<Option<Seq<char>>>,
    name: Seq<char>,
)
    requires
        directories.len() == worktrees.len(),
    ensures
        is_meant(
            worktrees,
            directories,
            tracking::branch_name(name),
            worktree::match_position(worktrees, directories, name),
        ),
{
    let wanted = tracking::branch_name(name);
    naming::law_first_match_is_first(Match::Branch, wanted, worktrees, directories);
    naming::law_first_match_is_first(Match::Directory, wanted, worktrees, directories);
    naming::law_first_match_is_first(Match::BranchSuffix, wanted, worktrees, directories);
    if on_branch(worktrees, wanted) {
        let k = choose|k: int|
            0 <= k < worktrees.len() && (#[trigger] worktrees[k]).branch == wanted;
        assert(worktree::stands_for(Match::Branch, wanted, worktrees[k], directories[k]));
    }
    if in_directory(directories, wanted) {
        let k = choose|k: int|
            0 <= k < directories.len() && #[trigger] directories[k] == Some(wanted);
        assert(worktree::stands_for(Match::Directory, wanted, worktrees[k], directories[k]));
    }
    if at_branch_end(worktrees, wanted) {
        let k = choose|k: int|
            0 <= k < worktrees.len() && text::ends_with(
                (#[trigger] worktrees[k]).branch,
                "/"@ + wanted,
            );
        assert(worktree::stands_for(Match::BranchSuffix, wanted, worktrees[k], directories[k]));
    }
    if let Some(i) = worktree::first_match(Match::Branch, wanted, worktrees, directories) {
        assert(on_branch(worktrees, wanted)) by {
            assert(worktrees[i].branch == wanted);
        }
        assert forall|k: int| 0 <= k < i implies (#[trigger] worktrees[k]).branch != wanted by {
            assert(!worktree::stands_for(Match::Branch, wanted, worktrees[k], directories[k]));
        }
    }
    if let Some(i) = worktree::first_match(Match::Directory, wanted, worktrees, directories) {
        assert(in_directory(directories, wanted)) by {
            assert(directories[i] == Some(wanted));
        }
        assert forall|k: int| 0 <= k < i implies #[trigger] directories[k] != Some(wanted) by {
            assert(!worktree::stands_for(Match::Directory, wanted, worktrees[k], directories[k]));
        }
    }
    if let Some(i) = worktree::first_match(Match::BranchSuffix, wanted, worktrees, directories) {
        assert(at_branch_end(worktrees, wanted)) by {
            assert(text::ends_with(worktrees[i].branch, "/"@ + wanted));
        }
        assert forall|k: int| 0 <= k < i implies !text::ends_with(
            (#[trigger] worktrees[k]).branch,
            "/"@ + wanted,
        ) by {
            assert(!worktree::stands_for(
                Match::BranchSuffix,
                wanted,
                worktrees[k],
                directories[k],
            ));
        }
    }
}

/// Where listing is done, finding is done with the listed worktree that the name
/// means, whole and unchanged and whatever else it is like, and with none exactly
/// where the name means none.
pub proof fn law_find_gives_the_worktree_that_is_meant(
    repo: Seq<char>,
    name: Seq<char>,
    replies: Seq<Outcome>,
    times: Seq<Option<FileTimes>>,
    worktrees: Seq<WorktreeInfo>,
    directories: Seq<Option<Seq<char>>>,
)
    requires
        list::list_worktrees_stage(repo, replies, times) == Stage::Done(worktrees),
        directories.len() == worktrees.len(),
    ensures
        list::find_worktree_by_name_stage(repo, name, replies, times, directories)
            matches Stage::Done(found) && {
            let wanted = tracking::branch_name(name);
            &&& exists|position: Option<int>|
                #![trigger is_meant(worktrees, directories, wanted, position)]
                is_meant(worktrees, directories, wanted, position) && found == (match position {
                    Some(i) => Some(worktrees[i]),
                    None => None,
                })
            &&& found is Some <==> wanted.len() > 0 && (on_branch(worktrees, wanted)
                || in_directory(directories, wanted) || at_branch_end(worktrees, wanted))
        },
{
    law_name_means_the_first_in_order(worktrees, directories, name);
    let wanted = tracking::branch_name(name);
    let position = worktree::match_position(worktrees, directories, name);
    assert(is_meant(worktrees, directories, wanted, position));
}

/// The branch of a listed worktree always finds the first worktree on that branch,
/// be it a main one or not and whatever the directories are called.
pub proof fn law_branch_finds_its_worktree(
    repo: Seq<char>,
    replies: Seq<Outcome>,
    times: Seq<Option<FileTimes>>,
    worktrees: Seq<WorktreeInfo>,
    directories: Seq<Option<Seq<char>>>,
    k: int,
)
    requires
        list::list_worktrees_stage(repo, replies, times) == Stage::Done(worktrees),
        directories.len() == worktrees.len(),
        0 <= k < worktrees.len(),
        worktrees[k].branch.len() > 0,
        worktrees[k].branch.last() != '/',
        forall|i: int| 0 <= i < k ==> (#[trigger] worktrees[i]).branch != worktrees[k].branch,
    ensures
        list::find_worktree_by_name_stage(
            repo,
            worktrees[k].branch,
            replies,
            times,
            directories,
        ) == Stage::Done(Some(worktrees[k])),
{
    let name = worktrees[k].branch;
    naming::law_branch_name_is_stable(name);
    law_name_means_the_first_in_order(worktrees, directories, name);
    assert(on_branch(worktrees, name));
    let i = worktree::match_position(worktrees, directories, name)->0;
    assert(i == k) by {
        if i > k {
            assert(worktrees[k].branch != name);
        } else if i < k {
            assert(worktrees[i].branch != name);
        }
    }
}

/// Until listing is done, finding does what listing does.
pub proof fn law_find_lists_first(
    repo: Seq<char>,
    name: Seq<char>,
    replies: Seq<Outcome>,
    times: Seq<Option<FileTimes>>,
    directories: Seq<Option<Seq<char>>>,
)
    ensures
        ({
            let stage = list::find_worktree_by_name_stage(repo, name, replies, times, directories);
            match list::list_worktrees_stage(repo, replies, times) {
                Stage::Run(invocation) => stage == Stage::<Option<WorktreeInfo>>::Run(invocation),
                Stage::ReadTimes(path) => stage == Stage::<Option<WorktreeInfo>>::ReadTimes(path),
                Stage::Failed(error) => stage == Stage::<Option<WorktreeInfo>>::Failed(error),
                Stage::Done(_) => stage is Done,
            }
        }),
{
}

/// The name of a directory is the last component of its path: a slash or `/.` after
/// the path does not change it, and a path that ends in `/..` has none.
pub proof fn law_directory_is_the_last_component(path: Seq<char>, name: Seq<char>)
    requires
        forall|i: int| 0 <= i < name.len() ==> name[i] != '/',
    ensures
        worktree::directory_name(path + "/"@) == worktree::directory_name(path),
        worktree::directory_name(path + "/."@) == worktree::directory_name(path),
        worktree::directory_name(path + "/.."@) is None,
        name.len() > 0 && name != "."@ && name != ".."@ ==> worktree::directory_name(name) == Some(
            name,
        ),
        name.len() == 0 || name == "."@ || name == ".."@ ==> worktree::directory_name(name)
            is None,
{
    reveal_strlit("/");
    reveal_strlit(".");
    reveal_strlit("..");
    reveal_strlit("/.");
    reveal_strlit("/..");
    let empty = Seq::<char>::empty();
    let components = text::split(path, '/');
    naming::lemma_split_last(path, '/', empty);
    naming::lemma_split_last(path, '/', "."@);
    naming::lemma_split_last(path, '/', ".."@);
    assert(path + "/"@ =~= path.push('/') + empty);
    assert(path + "/."@ =~= path.push('/') + "."@);
    assert(path + "/.."@ =~= path.push('/') + ".."@);
    assert(components.push(empty).drop_last() =~= components);
    assert(components.push("."@).drop_last() =~= components);
    assert("."@ != ".."@) by {
        assert("."@.len() != ".."@.len());
    }
    text::lemma_first_index(name, '/', name.len() as int);
    assert(text::split(name, '/') =~= seq![name]);
    assert(seq![name].drop_last() =~= Seq::empty());
    assert(seq![name].last() == name);
    reveal_with_fuel(worktree::last_component, 2);
}

} // verus!
