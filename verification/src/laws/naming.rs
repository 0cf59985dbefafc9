//! Laws on finding a worktree by name.

use vstd::prelude::*;

use crate::text;
use crate::tracking;
use crate::worktree;
use crate::worktree::{Match, WorktreeInfo};

verus! {

/// A slash at the end of a branch name does not count.
pub proof fn law_branch_name_ignores_trailing_slash(name: Seq<char>)
    ensures
        tracking::branch_name(name.push('/')) == tracking::branch_name(name),
{
    assert(name.push('/').drop_last() =~= name);
}

/// A branch name without a slash at its end stays as it is, and so does every
/// branch name whose slashes have been taken off.
pub proof fn law_branch_name_is_stable(name: Seq<char>)
    ensures
        name.len() == 0 || name.last() != '/' ==> tracking::branch_name(name) == name,
        tracking::branch_name(tracking::branch_name(name)) == tracking::branch_name(name),
    decreases name.len(),
{
    if name.len() > 0 && name.last() == '/' {
        law_branch_name_is_stable(name.drop_last());
    }
}

/// A slash at the end of a name does not change which worktree it means.
pub proof fn law_match_ignores_trailing_slash(
    worktrees: Seq<WorktreeInfo>,
    directories: Seq<Option<Seq<char>>>,
    name: Seq<char>,
)
    ensures
        worktree::match_position(worktrees, directories, name.push('/'))
            == worktree::match_position(worktrees, directories, name),
{
    law_branch_name_ignores_trailing_slash(name);
}

/// The first match is a match, no earlier worktree is one, and where there is no
/// first match there is none at all.
pub proof fn law_first_match_is_first(
    how: Match,
    name: Seq<char>,
    worktrees: Seq<WorktreeInfo>,
    directories: Seq<Option<Seq<char>>>,
)
    ensures
        match worktree::first_match(how, name, worktrees, directories) {
            Some(i) => {
                &&& 0 <= i < worktrees.len()
                &&& worktree::stands_for(how, name, worktrees[i], directories[i])
                &&& forall|k: int|
                    0 <= k < i ==> !worktree::stands_for(
                        how,
                        name,
                        #[trigger] worktrees[k],
                        directories[k],
                    )
            },
            None => forall|k: int|
                0 <= k < worktrees.len() ==> !worktree::stands_for(
                    how,
                    name,
                    #[trigger] worktrees[k],
                    directories[k],
                ),
        },
    decreases worktrees.len(),
{
    if worktrees.len() > 0 {
        let earlier = worktrees.drop_last();
        law_first_match_is_first(how, name, earlier, directories);
        assert forall|k: int| 0 <= k < earlier.len() implies #[trigger] worktrees[k]
            == earlier[k] by {}
    }
}

/// The worktree that a name means has it as its branch, as the name of its
/// directory or as the end of its branch.
pub proof fn law_match_stands_for_name(
    worktrees: Seq<WorktreeInfo>,
    directories: Seq<Option<Seq<char>>>,
    name: Seq<char>,
)
    ensures
        worktree::match_position(worktrees, directories, name) matches Some(i) ==> {
            let wanted = tracking::branch_name(name);
            &&& 0 <= i < worktrees.len()
            &&& {
                ||| worktree::stands_for(Match::Branch, wanted, worktrees[i], directories[i])
                ||| worktree::stands_for(Match::Directory, wanted, worktrees[i], directories[i])
                ||| worktree::stands_for(Match::BranchSuffix, wanted, worktrees[i], directories[i])
            }
        },
{
    let wanted = tracking::branch_name(name);
    law_first_match_is_first(Match::Branch, wanted, worktrees, directories);
    law_first_match_is_first(Match::Directory, wanted, worktrees, directories);
    law_first_match_is_first(Match::BranchSuffix, wanted, worktrees, directories);
}

/// Whatever the platform calls the directories, the worktree that a name means has
/// it as its branch, in its path or as the end of its branch.
pub proof fn law_match_holds_name(
    worktrees: Seq<WorktreeInfo>,
    directories: Seq<Option<Seq<char>>>,
    name: Seq<char>,
)
    requires
        worktree::are_directories(worktrees, directories),
    ensures
        worktree::match_position(worktrees, directories, name) matches Some(i) ==> {
            let wanted = tracking::branch_name(name);
            &&& 0 <= i < worktrees.len()
            &&& {
                ||| worktrees[i].branch == wanted
                ||| text::contains(worktrees[i].path, wanted)
                ||| text::ends_with(worktrees[i].branch, "/"@ + wanted)
            }
        },
{
    law_match_stands_for_name(worktrees, directories, name);
    if let Some(i) = worktree::match_position(worktrees, directories, name) {
        assert(worktree::is_directory_of(worktrees[i].path, directories[i]));
    }
}

/// A name that stands for some worktree in any of the three ways means one.
pub proof fn law_match_is_found(
    worktrees: Seq<WorktreeInfo>,
    directories: Seq<Option<Seq<char>>>,
    name: Seq<char>,
    how: Match,
    k: int,
)
    requires
        0 <= k < worktrees.len(),
        tracking::branch_name(name).len() > 0,
        worktree::stands_for(how, tracking::branch_name(name), worktrees[k], directories[k]),
    ensures
        worktree::match_position(worktrees, directories, name) is Some,
{
    let wanted = tracking::branch_name(name);
    law_first_match_is_first(how, wanted, worktrees, directories);
}

/// A worktree's own branch goes before every other way to match: the name of a
/// branch means the first worktree on it, whatever the directories are called.
pub proof fn law_branch_goes_first(
    worktrees: Seq<WorktreeInfo>,
    directories: Seq<Option<Seq<char>>>,
    k: int,
)
    requires
        0 <= k < worktrees.len(),
        worktrees[k].branch.len() > 0,
        worktrees[k].branch.last() != '/',
    ensures
        worktree::match_position(worktrees, directories, worktrees[k].branch) matches Some(i)
            && 0 <= i <= k && worktrees[i].branch == worktrees[k].branch,
{
    let name = worktrees[k].branch;
    law_branch_name_is_stable(name);
    law_first_match_is_first(Match::Branch, name, worktrees, directories);
    assert(worktree::stands_for(Match::Branch, name, worktrees[k], directories[k]));
}

/// The name of a directory goes before the end of a branch.
pub proof fn law_directory_goes_second(
    worktrees: Seq<WorktreeInfo>,
    directories: Seq<Option<Seq<char>>>,
    name: Seq<char>,
    k: int,
)
    requires
        0 <= k < worktrees.len(),
        name.len() > 0,
        name.last() != '/',
        directories[k] == Some(name),
        forall|i: int| 0 <= i < worktrees.len() ==> (#[trigger] worktrees[i]).branch != name,
    ensures
        worktree::match_position(worktrees, directories, name) matches Some(i) && 0 <= i <= k
            && directories[i] == Some(name),
{
    law_branch_name_is_stable(name);
    law_first_match_is_first(Match::Branch, name, worktrees, directories);
    law_first_match_is_first(Match::Directory, name, worktrees, directories);
    assert(worktree::stands_for(Match::Directory, name, worktrees[k], directories[k]));
    if worktree::first_match(Match::Branch, name, worktrees, directories) is Some {
        let i = worktree::first_match(Match::Branch, name, worktrees, directories)->0;
        assert(worktrees[i].branch == name);
    }
}

/// The name of a directory is not empty and holds no slash.
pub proof fn law_directory_name_has_no_slash(path: Seq<char>)
    ensures
        worktree::directory_name(path) matches Some(name) ==> name.len() > 0 && forall|k: int|
            0 <= k < name.len() ==> name[k] != '/',
{
    let components = text::split(path, '/');
    if let Some(name) = worktree::directory_name(path) {
        let i = lemma_last_component(components);
        assert forall|k: int| 0 <= k < name.len() implies name[k] != '/' by {
            lemma_split_pieces(path, '/', i, k);
        }
    }
}

/// The last component is one of the components, and it is not empty.
proof fn lemma_last_component(components: Seq<Seq<char>>) -> (i: int)
    requires
        worktree::last_component(components) is Some,
    ensures
        0 <= i < components.len(),
        worktree::last_component(components) == Some(components[i]),
        components[i].len() > 0,
    decreases components.len(),
{
    if components.last().len() == 0 || components.last() == "."@ {
        lemma_last_component(components.drop_last())
    } else {
        components.len() - 1
    }
}

/// No piece of a text holds the character that it was split at.
proof fn lemma_split_pieces(s: Seq<char>, c: char, i: int, k: int)
    requires
        0 <= i < text::split(s, c).len(),
        0 <= k < text::split(s, c)[i].len(),
    ensures
        text::split(s, c)[i][k] != c,
    decreases s.len(),
{
    text::lemma_first_index_bounds(s, c);
    let n = text::first_index(s, c);
    if n < s.len() && i > 0 {
        lemma_split_pieces(s.skip(n + 1), c, i - 1, k);
    }
}

/// The directory of a path `<parent>/<name>` has that name, with or without a
/// slash after it.
pub proof fn law_directory_name(parent: Seq<char>, name: Seq<char>)
    requires
        name.len() > 0,
        name != "."@,
        name != ".."@,
        forall|i: int| 0 <= i < name.len() ==> name[i] != '/',
    ensures
        worktree::directory_name(parent + "/"@ + name) == Some(name),
        worktree::directory_name(parent + "/"@ + name + "/"@) == Some(name),
{
    reveal_strlit("/");
    let path = parent + "/"@ + name;
    lemma_split_last(parent, '/', name);
    assert(path =~= parent.push('/') + name);
    let pieces = text::split(path, '/');
    assert(worktree::last_component(pieces) == Some(name));
    let empty = Seq::<char>::empty();
    lemma_split_last(path, '/', empty);
    assert(path + "/"@ =~= path.push('/') + empty);
    let longer = text::split(path + "/"@, '/');
    assert(longer.drop_last() =~= pieces);
}

/// Splitting a text that ends with a separator and a piece.
pub proof fn lemma_split_last(s: Seq<char>, c: char, piece: Seq<char>)
    requires
        forall|i: int| 0 <= i < piece.len() ==> piece[i] != c,
    ensures
        text::split(s.push(c) + piece, c) == text::split(s, c).push(piece),
    decreases s.len(),
{
    let whole = s.push(c) + piece;
    text::lemma_first_index_bounds(s, c);
    let n = text::first_index(s, c);
    text::lemma_first_index(whole, c, n);
    if n < s.len() {
        lemma_split_last(s.skip(n + 1), c, piece);
        assert(whole.skip(n + 1) =~= s.skip(n + 1).push(c) + piece);
        assert(whole.take(n) =~= s.take(n));
        assert(text::split(whole, c) =~= text::split(s, c).push(piece));
    } else {
        assert(whole.take(n) =~= s);
        assert(whole.skip(n + 1) =~= piece);
        text::lemma_first_index(piece, c, piece.len() as int);
        assert(text::split(piece, c) =~= seq![piece]);
        assert(text::split(whole, c) =~= text::split(s, c).push(piece));
    }
}

/// A component before others does not change which is the last.
proof fn lemma_component_before(first: Seq<char>, components: Seq<Seq<char>>)
    requires
        worktree::last_component(components) is Some,
    ensures
        worktree::last_component(seq![first] + components) == worktree::last_component(components),
    decreases components.len(),
{
    let longer = seq![first] + components;
    assert(longer.last() == components.last());
    assert(longer.drop_last() =~= seq![first] + components.drop_last());
    if components.last().len() == 0 || components.last() == "."@ {
        lemma_component_before(first, components.drop_last());
    }
}

/// An absolute path with slashes that leads to a directory with a name, as git writes
/// it for a worktree on a local disk.
pub open spec fn local_path(path: Seq<char>) -> bool {
    &&& path.len() > 0 && path[0] == '/'
    &&& path.len() > 1 ==> path[1] != '/' && path[1] != ':'
    &&& forall|i: int| 0 <= i < path.len() ==> path[i] != '\\'
    &&& worktree::directory_name(path) is Some
}

/// The components of a path that begins with a slash.
proof fn lemma_local_components(path: Seq<char>)
    requires
        path.len() > 0,
        path[0] == '/',
    ensures
        text::split(path, '/') == seq![Seq::<char>::empty()] + text::split(path.skip(1), '/'),
        worktree::directory_name(path) == worktree::last_component(
            text::split(path.skip(1), '/'),
        ),
{
    lemma_split_first(Seq::empty(), '/', path.skip(1));
    assert(path =~= Seq::<char>::empty().push('/') + path.skip(1));
    lemma_empty_component_before(text::split(path.skip(1), '/'));
}

/// A local path is read alike on Unix and on Windows, with a drive before it or
/// without, and the drive does not change the name of its directory.
pub proof fn law_local_paths_read_alike(drive: char, path: Seq<char>)
    requires
        local_path(path),
        drive != '/',
        drive != '\\',
    ensures
        worktree::reads_alike(path),
        worktree::reads_alike(seq![drive, ':'] + path),
        worktree::directory_name(seq![drive, ':'] + path) == worktree::directory_name(path),
{
    let full = seq![drive, ':'] + path;
    assert(worktree::slashed(path) =~= path);
    assert(worktree::slashed(full) =~= full);
    assert(full.skip(2) =~= path);
    lemma_local_components(path);
    let prefix = seq![drive, ':'];
    lemma_split_first(prefix, '/', path.skip(1));
    assert(full =~= prefix.push('/') + path.skip(1));
    lemma_component_before(prefix, text::split(path.skip(1), '/'));
}

/// A text without separators of any platform.
pub open spec fn one_component(name: Seq<char>) -> bool {
    forall|i: int| 0 <= i < name.len() ==> name[i] != '/' && name[i] != '\\'
}

/// A network path `//<server>/<share>` with a local path after it is read alike on
/// Unix and on Windows, and its directory has the name that the local path gives.
pub proof fn law_network_paths_read_alike(server: Seq<char>, share: Seq<char>, path: Seq<char>)
    requires
        local_path(path),
        one_component(server) && server.len() > 0,
        one_component(share) && share.len() > 0,
        server != "?"@,
    ensures
        ({
            let full = "//"@ + server + "/"@ + share + path;
            &&& worktree::reads_alike(full)
            &&& worktree::directory_name(full) == worktree::directory_name(path)
        }),
{
    reveal_strlit("//");
    reveal_strlit("/");
    let empty = Seq::<char>::empty();
    let full = "//"@ + server + "/"@ + share + path;
    assert(worktree::slashed(full) =~= full);
    let rest = path.skip(1);
    let after_server = share.push('/') + rest;
    let after_first = empty.push('/') + (server.push('/') + after_server);
    assert(full =~= empty.push('/') + after_first);
    lemma_split_first(empty, '/', after_first);
    lemma_split_first(empty, '/', server.push('/') + after_server);
    lemma_split_first(server, '/', after_server);
    lemma_split_first(share, '/', rest);
    lemma_local_components(path);
    let components = text::split(rest, '/');
    let all = text::split(full, '/');
    let from_share = seq![share] + components;
    let from_server = seq![server] + from_share;
    assert(all =~= seq![empty] + (seq![empty] + from_server));
    assert(all[2] == server);
    assert(all[3] == share);
    assert(all.skip(4) =~= components);
    lemma_component_before(share, components);
    lemma_component_before(server, from_share);
    lemma_component_before(empty, from_server);
    lemma_component_before(empty, seq![empty] + from_server);
}

/// Splitting a text that begins with a piece and a separator.
pub proof fn lemma_split_first(piece: Seq<char>, c: char, s: Seq<char>)
    requires
        forall|i: int| 0 <= i < piece.len() ==> piece[i] != c,
    ensures
        text::split(piece.push(c) + s, c) == seq![piece] + text::split(s, c),
{
    let whole = piece.push(c) + s;
    let n = piece.len() as int;
    text::lemma_first_index(whole, c, n);
    assert(whole.take(n) =~= piece);
    assert(whole.skip(n + 1) =~= s);
}

/// The directory name that a platform gives a worktree whose path does not begin with
/// two separators is its last component: cut at slashes, or at backslashes too, or
/// also after a drive.
pub proof fn law_directories_are_last_components(
    worktrees: Seq<WorktreeInfo>,
    directories: Seq<Option<Seq<char>>>,
    i: int,
    turned: Seq<char>,
)
    requires
        worktree::are_directories(worktrees, directories),
        0 <= i < worktrees.len(),
        turned.len() == worktrees[i].path.len(),
        forall|k: int|
            0 <= k < turned.len() ==> #[trigger] turned[k] == (if worktrees[i].path[k] == '\\' {
                '/'
            } else {
                worktrees[i].path[k]
            }),
        turned.len() < 2 || turned[0] != '/' || turned[1] != '/',
    ensures
        ({
            let path = worktrees[i].path;
            let directory = directories[i];
            ||| directory == worktree::directory_name(path)
            ||| directory == worktree::directory_name(turned)
            ||| path.len() >= 2 && path[1] == ':' && directory == worktree::directory_name(
                turned.skip(2),
            )
        }),
{
    let path = worktrees[i].path;
    assert(worktree::slashed(path) =~= turned);
    assert(worktree::is_directory_of(path, directories[i]));
}

/// Whether backslashes separate components or not, a directory below the last slash
/// has the name that follows it, where that holds no backslash and the path does not
/// begin like a drive or a network path.
pub proof fn law_backslashes_before_the_name(parent: Seq<char>, name: Seq<char>)
    requires
        name.len() > 0,
        name != "."@,
        name != ".."@,
        one_component(name),
        !worktree::has_drive(parent + "/"@ + name),
        !worktree::is_network_path(parent + "/"@ + name),
    ensures
        worktree::reads_alike(parent + "/"@ + name),
        worktree::directory_name(parent + "/"@ + name) == Some(name),
{
    reveal_strlit("/");
    let path = parent + "/"@ + name;
    law_directory_name(parent, name);
    law_directory_name(worktree::slashed(parent), name);
    assert(worktree::slashed(path) =~= worktree::slashed(parent) + "/"@ + name);
}

/// An empty component before others is not the last that counts.
proof fn lemma_empty_component_before(components: Seq<Seq<char>>)
    ensures
        worktree::last_component(seq![Seq::<char>::empty()] + components)
            == worktree::last_component(components),
    decreases components.len(),
{
    let longer = seq![Seq::<char>::empty()] + components;
    if components.len() == 0 {
        assert(longer.drop_last() =~= components);
    } else {
        assert(longer.last() == components.last());
        assert(longer.drop_last() =~= seq![Seq::<char>::empty()] + components.drop_last());
        lemma_empty_component_before(components.drop_last());
    }
}

} // verus!
