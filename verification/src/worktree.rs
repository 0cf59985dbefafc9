//! Worktrees and how they are found by name.

use vstd::prelude::*;

use crate::porcelain::{Entry, PartialWorktree};
use crate::session::{GitReply, Outcome};
use crate::text;
use crate::times::{metadata_created_at, FileTimes};
use crate::tracking;

verus! {

/// The branches that a main worktree is on.
pub const MAIN_BRANCHES: [&'static str; 2] = ["main", "master"];

/// One worktree.
#[derive(Debug, PartialEq, Eq)]
pub struct Worktree {
    pub path: String,
    pub branch: String,
    pub head: String,
    /// Seconds since the epoch.
    pub created_at: i64,
    pub is_dirty: bool,
    pub is_locked: bool,
    pub is_prunable: bool,
    pub is_main: bool,
}

/// What a [`Worktree`] holds.
#[verifier::ext_equal]
pub struct WorktreeInfo {
    pub path: Seq<char>,
    pub branch: Seq<char>,
    pub head: Seq<char>,
    pub created_at: int,
    pub is_dirty: bool,
    pub is_locked: bool,
    pub is_prunable: bool,
    pub is_main: bool,
}

impl DeepView for Worktree {
    type V = WorktreeInfo;

    open spec fn deep_view(&self) -> WorktreeInfo {
        WorktreeInfo {
            path: self.path@,
            branch: self.branch@,
            head: self.head@,
            created_at: self.created_at as int,
            is_dirty: self.is_dirty,
            is_locked: self.is_locked,
            is_prunable: self.is_prunable,
            is_main: self.is_main,
        }
    }
}

impl Clone for Worktree {
    fn clone(&self) -> (r: Self)
        ensures
            r == *self,
    {
        Worktree {
            path: self.path.clone(),
            branch: self.branch.clone(),
            head: self.head.clone(),
            created_at: self.created_at,
            is_dirty: self.is_dirty,
            is_locked: self.is_locked,
            is_prunable: self.is_prunable,
            is_main: self.is_main,
        }
    }
}

// ---- from the listing to a worktree ----

/// The text, or an empty one where there is none.
pub open spec fn or_empty(s: Option<Seq<char>>) -> Seq<char> {
    match s {
        Some(s) => s,
        None => Seq::empty(),
    }
}

/// `git status --porcelain` wrote something.
pub open spec fn reports_changes(status: Outcome) -> bool {
    match status {
        Outcome::NotRun(_) => false,
        Outcome::Exited { stdout, .. } => stdout.len() > 0,
    }
}

/// The creation time of a worktree, or the epoch where it is not known.
pub open spec fn created_at(times: Option<FileTimes>) -> int {
    match times {
        Some(times) => match crate::times::creation_timestamp(times) {
            Some(secs) => secs,
            None => 0,
        },
        None => 0,
    }
}

/// A main worktree is on one of the [`MAIN_BRANCHES`].
pub open spec fn main_branch(branch: Seq<char>) -> bool {
    branch == "main"@ || branch == "master"@
}

/// A worktree from its entry in the listing, the reply to `git status --porcelain`
/// inside it, and its file times, which are missing where they cannot be read.
pub open spec fn completed(
    entry: Entry,
    status: Outcome,
    times: Option<FileTimes>,
) -> WorktreeInfo {
    WorktreeInfo {
        path: or_empty(entry.path),
        branch: or_empty(entry.branch),
        head: or_empty(entry.head),
        created_at: created_at(times),
        is_dirty: reports_changes(status),
        is_locked: entry.is_locked,
        is_prunable: entry.is_prunable,
        is_main: main_branch(or_empty(entry.branch)),
    }
}

fn is_main_branch(branch: &str) -> (r: bool)
    ensures
        r == main_branch(branch@),
{
    let chars = text::to_chars(branch);
    text::is(chars.as_slice(), MAIN_BRANCHES[0]) || text::is(chars.as_slice(), MAIN_BRANCHES[1])
}

/// Completes an entry of the listing to a worktree, see [`completed`].
pub fn complete_worktree_info(
    partial: PartialWorktree,
    status: &GitReply,
    times: Option<FileTimes>,
) -> (worktree: Worktree)
    ensures
        worktree.deep_view() == completed(partial.deep_view(), status.deep_view(), times),
{
    let path = partial.path.unwrap_or_default();
    let branch = partial.branch.unwrap_or_default();
    let head = partial.head.unwrap_or_default();
    let is_main = is_main_branch(branch.as_str());
    let is_dirty = match status {
        GitReply::NotRun(_) => false,
        GitReply::Exited { stdout, .. } => !stdout.as_str().is_empty(),
    };
    let created_at: i64 = match times {
        Some(times) => match metadata_created_at(&times) {
            Some(secs) => secs,
            None => 0,
        },
        None => 0,
    };
    Worktree {
        path,
        branch,
        head,
        created_at,
        is_dirty,
        is_locked: partial.is_locked,
        is_prunable: partial.is_prunable,
        is_main,
    }
}

// ---- finding a worktree by name ----

/// The last of the components that is neither empty nor `.`, unless it is `..`.
pub open spec fn last_component(components: Seq<Seq<char>>) -> Option<Seq<char>>
    decreases components.len(),
{
    if components.len() == 0 {
        None
    } else if components.last().len() == 0 || components.last() == "."@ {
        last_component(components.drop_last())
    } else if components.last() == ".."@ {
        None
    } else {
        Some(components.last())
    }
}

/// The name of the directory that a path with slashes leads to.  A path that ends
/// in `..`, or consists of slashes and components `.` only, has no such name.
pub open spec fn directory_name(path: Seq<char>) -> Option<Seq<char>> {
    last_component(text::split(path, '/'))
}

/// The path with slashes in place of backslashes.
pub open spec fn slashed(path: Seq<char>) -> Seq<char> {
    path.map_values(
        |c: char|
            if c == '\\' {
                '/'
            } else {
                c
            },
    )
}

/// Windows may take the first two characters of the path for a drive.
pub open spec fn has_drive(path: Seq<char>) -> bool {
    path.len() >= 2 && path[1] == ':'
}

/// The path begins with two separators, as a network path does on Windows.
pub open spec fn is_network_path(path: Seq<char>) -> bool {
    path.len() >= 2 && slashed(path)[0] == '/' && slashed(path)[1] == '/'
}

/// A name that Unix or Windows gives the directory of a path that does not begin
/// with two separators: Unix cuts the path at slashes, Windows at backslashes too and
/// after the drive.
pub open spec fn is_reading(path: Seq<char>, directory: Option<Seq<char>>) -> bool {
    ||| directory == directory_name(path)
    ||| directory == directory_name(slashed(path))
    ||| has_drive(path) && directory == directory_name(slashed(path).skip(2))
}

/// A path whose directory has the same name on Unix and on Windows.  One that begins
/// with two slashes is `//<server>/<share>` and more on Windows, and its last
/// component has to come after these.
pub open spec fn reads_alike(path: Seq<char>) -> bool {
    if is_network_path(path) {
        let components = text::split(path, '/');
        &&& slashed(path) == path
        &&& components.len() >= 4
        &&& components[2].len() > 0 && components[2] != "?"@
        &&& components[3].len() > 0
        &&& last_component(components.skip(4)) == directory_name(path)
    } else {
        &&& directory_name(slashed(path)) == directory_name(path)
        &&& has_drive(path) ==> directory_name(slashed(path).skip(2)) == directory_name(path)
    }
}

/// What holds of the directory name that the platform gives a path, be it Unix or
/// Windows.
pub open spec fn is_directory_of(path: Seq<char>, directory: Option<Seq<char>>) -> bool {
    &&& reads_alike(path) ==> directory == directory_name(path)
    &&& !is_network_path(path) ==> is_reading(path, directory)
    &&& directory matches Some(name) ==> name.len() > 0 && text::contains(path, name)
}

/// The standard library's `Path::file_name`, as a string, on Unix and Windows.  The
/// last component of a path is a part of it and not empty.  On a path that does not
/// begin with two separators it is what cutting the path at slashes gives, or at
/// backslashes too, or also after a drive.  Where these agree there is one name, and
/// so there is on a path `//<server>/<share>/..` with a component after the share.
/// What Windows makes of other paths that begin with two separators is not said, nor
/// which platform this is.
#[verifier::external_body]
fn file_name(path: &str) -> (name: Option<String>)
    ensures
        is_directory_of(path@, name.deep_view()),
{
    match std::path::Path::new(path).file_name() {
        Some(name) => name.to_str().map(|name| name.to_owned()),
        None => None,
    }
}

/// Directory names that the platform may give the paths of some worktrees.
pub open spec fn are_directories(
    worktrees: Seq<WorktreeInfo>,
    directories: Seq<Option<Seq<char>>>,
) -> bool {
    &&& directories.len() == worktrees.len()
    &&& forall|i: int|
        0 <= i < worktrees.len() ==> is_directory_of(
            (#[trigger] worktrees[i]).path,
            directories[i],
        )
}

/// The directory names of some worktrees where platforms agree on them.
pub open spec fn directory_names(worktrees: Seq<WorktreeInfo>) -> Seq<Option<Seq<char>>> {
    worktrees.map_values(|worktree: WorktreeInfo| directory_name(worktree.path))
}

/// The directories of the worktrees have the same names on Unix and on Windows.
pub open spec fn all_read_alike(worktrees: Seq<WorktreeInfo>) -> bool {
    forall|i: int| 0 <= i < worktrees.len() ==> reads_alike((#[trigger] worktrees[i]).path)
}

/// Where all platforms agree there is one list of directory names.
pub proof fn lemma_directories_are_known(
    worktrees: Seq<WorktreeInfo>,
    directories: Seq<Option<Seq<char>>>,
)
    requires
        are_directories(worktrees, directories),
        all_read_alike(worktrees),
    ensures
        directories == directory_names(worktrees),
{
    assert forall|i: int| 0 <= i < worktrees.len() implies directories[i] == directory_names(
        worktrees,
    )[i] by {
        assert(is_directory_of(worktrees[i].path, directories[i]));
    }
    assert(directories =~= directory_names(worktrees));
}

/// The directory names that the platform gives the paths of some worktrees.
fn directories_of(worktrees: &[Worktree]) -> (directories: Vec<Option<String>>)
    ensures
        are_directories(worktrees.deep_view(), directories.deep_view()),
{
    let mut directories: Vec<Option<String>> = Vec::new();
    let mut i: usize = 0;
    while i < worktrees.len()
        invariant
            i <= worktrees@.len(),
            directories@.len() == i,
            forall|k: int|
                0 <= k < i ==> is_directory_of(
                    worktrees@[k].path@,
                    (#[trigger] directories@[k]).deep_view(),
                ),
        decreases worktrees@.len() - i,
    {
        directories.push(file_name(worktrees[i].path.as_str()));
        i += 1;
    }
    assert forall|k: int| 0 <= k < worktrees.deep_view().len() implies is_directory_of(
        (#[trigger] worktrees.deep_view()[k]).path,
        directories.deep_view()[k],
    ) by {
        assert(directories.deep_view()[k] == directories@[k].deep_view());
    }
    directories
}

/// The ways in which a name can stand for a worktree.
pub enum Match {
    /// It is the worktree's branch.
    Branch,
    /// It is the name of the worktree's directory.
    Directory,
    /// The worktree's branch ends with it, after a slash.
    BranchSuffix,
}

/// A name stands in the given way for a worktree, whose directory has the given
/// name.
pub open spec fn stands_for(
    how: Match,
    name: Seq<char>,
    worktree: WorktreeInfo,
    directory: Option<Seq<char>>,
) -> bool {
    match how {
        Match::Branch => worktree.branch == name,
        Match::Directory => directory == Some(name),
        Match::BranchSuffix => text::ends_with(worktree.branch, "/"@ + name),
    }
}

/// The first worktree that a name stands for in the given way.
pub open spec fn first_match(
    how: Match,
    name: Seq<char>,
    worktrees: Seq<WorktreeInfo>,
    directories: Seq<Option<Seq<char>>>,
) -> Option<int>
    decreases worktrees.len(),
{
    if worktrees.len() == 0 {
        None
    } else {
        let n = worktrees.len() - 1;
        match first_match(how, name, worktrees.drop_last(), directories) {
            Some(i) => Some(i),
            None => if stands_for(how, name, worktrees[n], directories[n]) {
                Some(n)
            } else {
                None
            },
        }
    }
}

/// Which worktree a name means, where the worktrees' directories have the given
/// names: slashes at its end do not count, an empty name means none, and a branch
/// goes before a directory, which goes before the end of a branch.
pub open spec fn match_position(
    worktrees: Seq<WorktreeInfo>,
    directories: Seq<Option<Seq<char>>>,
    name: Seq<char>,
) -> Option<int> {
    let wanted = tracking::branch_name(name);
    if wanted.len() == 0 {
        None
    } else if first_match(Match::Branch, wanted, worktrees, directories) is Some {
        first_match(Match::Branch, wanted, worktrees, directories)
    } else if first_match(Match::Directory, wanted, worktrees, directories) is Some {
        first_match(Match::Directory, wanted, worktrees, directories)
    } else {
        first_match(Match::BranchSuffix, wanted, worktrees, directories)
    }
}

fn is_match(how: &Match, name: &[char], worktree: &Worktree, directory: &Option<String>) -> (r:
    bool)
    ensures
        r == stands_for(*how, name@, worktree.deep_view(), directory.deep_view()),
{
    let branch = text::to_chars(worktree.branch.as_str());
    match how {
        Match::Branch => text::equal(branch.as_slice(), name),
        Match::Directory => match directory {
            Some(directory) => {
                let directory = text::to_chars(directory.as_str());
                text::equal(directory.as_slice(), name)
            },
            None => false,
        },
        Match::BranchSuffix => {
            let mut suffix = "/".to_owned();
            suffix.append(text::from_chars(name).as_str());
            let suffix = text::to_chars(suffix.as_str());
            text::has_suffix(branch.as_slice(), suffix.as_slice())
        },
    }
}

fn find_first(
    how: Match,
    name: &[char],
    worktrees: &[Worktree],
    directories: &[Option<String>],
) -> (r: Option<usize>)
    requires
        directories@.len() == worktrees@.len(),
    ensures
        r is Some ==> r->0 < worktrees@.len(),
        first_match(how, name@, worktrees.deep_view(), directories.deep_view()) == (match r {
            Some(i) => Some(i as int),
            None => None,
        }),
{
    let ghost all = worktrees.deep_view();
    let mut i: usize = 0;
    while i < worktrees.len()
        invariant
            i <= worktrees@.len() == directories@.len(),
            all == worktrees.deep_view(),
            first_match(how, name@, all.take(i as int), directories.deep_view()) is None,
        decreases worktrees@.len() - i,
    {
        assert(all.take(i + 1).drop_last() =~= all.take(i as int));
        assert(directories.deep_view()[i as int] == directories@[i as int].deep_view());
        if is_match(&how, name, &worktrees[i], &directories[i]) {
            proof {
                lemma_first_match_stays(how, name@, all, directories.deep_view(), i + 1);
            }
            return Some(i);
        }
        i += 1;
    }
    assert(all.take(i as int) =~= all);
    None
}

/// A match among the first worktrees is the match among all of them.
proof fn lemma_first_match_stays(
    how: Match,
    name: Seq<char>,
    worktrees: Seq<WorktreeInfo>,
    directories: Seq<Option<Seq<char>>>,
    n: int,
)
    requires
        0 <= n <= worktrees.len(),
        first_match(how, name, worktrees.take(n), directories) is Some,
    ensures
        first_match(how, name, worktrees, directories) == first_match(
            how,
            name,
            worktrees.take(n),
            directories,
        ),
    decreases worktrees.len() - n,
{
    if n < worktrees.len() {
        assert(worktrees.take(n + 1).drop_last() =~= worktrees.take(n));
        lemma_first_match_stays(how, name, worktrees, directories, n + 1);
    } else {
        assert(worktrees.take(n) =~= worktrees);
    }
}

/// The position of the worktree that a name means, where the worktrees' directories
/// have the given names, see [`match_position`].
pub fn position_by_name(
    worktrees: &[Worktree],
    directories: &[Option<String>],
    name: &str,
) -> (r: Option<usize>)
    requires
        directories@.len() == worktrees@.len(),
    ensures
        r is Some ==> r->0 < worktrees@.len(),
        match_position(worktrees.deep_view(), directories.deep_view(), name@) == (match r {
            Some(i) => Some(i as int),
            None => None,
        }),
{
    let wanted = text::to_chars(tracking::trim_trailing_branch_slashes(name));
    if wanted.len() == 0 {
        return None;
    }
    if let Some(i) = find_first(Match::Branch, wanted.as_slice(), worktrees, directories) {
        return Some(i);
    }
    if let Some(i) = find_first(Match::Directory, wanted.as_slice(), worktrees, directories) {
        return Some(i);
    }
    find_first(Match::BranchSuffix, wanted.as_slice(), worktrees, directories)
}

/// The worktree that a name means, where the worktrees' directories have the given
/// names.
pub open spec fn named(
    worktrees: Seq<WorktreeInfo>,
    directories: Seq<Option<Seq<char>>>,
    name: Seq<char>,
) -> Option<WorktreeInfo> {
    match match_position(worktrees, directories, name) {
        Some(i) => Some(worktrees[i]),
        None => None,
    }
}

/// The worktree that a name means, see [`match_position`].  The platform says what
/// the directories are called.
pub fn match_worktree_by_name<'a>(worktrees: &'a [Worktree], name: &str) -> (r: Option<
    &'a Worktree,
>)
    ensures
        exists|directories: Seq<Option<Seq<char>>>| #[trigger]
            are_directories(worktrees.deep_view(), directories) && (match match_position(
                worktrees.deep_view(),
                directories,
                name@,
            ) {
                Some(i) => 0 <= i < worktrees@.len() && r == Some(&worktrees@[i]),
                None => r is None,
            }),
        all_read_alike(worktrees.deep_view()) ==> (match match_position(
            worktrees.deep_view(),
            directory_names(worktrees.deep_view()),
            name@,
        ) {
            Some(i) => 0 <= i < worktrees@.len() && r == Some(&worktrees@[i]),
            None => r is None,
        }),
{
    let directories = directories_of(worktrees);
    proof {
        if all_read_alike(worktrees.deep_view()) {
            lemma_directories_are_known(worktrees.deep_view(), directories.deep_view());
        }
    }
    match position_by_name(worktrees, directories.as_slice(), name) {
        Some(i) => Some(&worktrees[i]),
        None => None,
    }
}

} // verus!
