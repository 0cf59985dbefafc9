//! The repository that grove works on, and the `git` invocations it asks for.

use vstd::prelude::*;

use crate::text;

verus! {

/// A discovered grove repository: the bare clone and the directory around it.
pub struct RepoContext {
    repo_path: String,
    project_root: String,
}

/// What a [`RepoContext`] holds.
pub struct RepoPaths {
    pub repo_path: Seq<char>,
    pub project_root: Seq<char>,
}

impl View for RepoContext {
    type V = RepoPaths;

    closed spec fn view(&self) -> RepoPaths {
        RepoPaths { repo_path: self.repo_path@, project_root: self.project_root@ }
    }
}

impl RepoContext {
    /// The context for a bare clone and its project root.
    pub fn new(repo_path: String, project_root: String) -> (context: RepoContext)
        ensures
            context@ == (RepoPaths { repo_path: repo_path@, project_root: project_root@ }),
    {
        RepoContext { repo_path, project_root }
    }
}

/// The path of the bare clone.
pub fn repo_path(context: &RepoContext) -> (path: &str)
    ensures
        path@ == context@.repo_path,
{
    context.repo_path.as_str()
}

/// The directory that holds the bare clone and the worktrees.
pub fn project_root(context: &RepoContext) -> (path: &str)
    ensures
        path@ == context@.project_root,
{
    context.project_root.as_str()
}

/// Where a `git` invocation targets, scoping which repository it operates on.
pub enum GitTarget<'a> {
    /// An existing bare repository.  It is identified by `GIT_DIR`, so that the
    /// command works under `safe.bareRepository=explicit`.
    BareRepo(&'a str),
    /// A working tree.  It becomes the working directory of the command, and git
    /// finds the repository from there.
    WorkTree(&'a str),
    /// No repository that exists yet, as for `git clone`.
    Unbound,
}

/// One invocation of `git`: the environment variable `GIT_DIR` and the working
/// directory where they are set, and the arguments.
#[derive(Debug, PartialEq, Eq)]
pub struct GitCommand {
    pub git_dir: Option<String>,
    pub current_dir: Option<String>,
    pub args: Vec<String>,
}

/// What a [`GitCommand`] holds.
#[verifier::ext_equal]
pub struct Invocation {
    pub git_dir: Option<Seq<char>>,
    pub current_dir: Option<Seq<char>>,
    pub args: Seq<Seq<char>>,
}

impl DeepView for GitCommand {
    type V = Invocation;

    open spec fn deep_view(&self) -> Invocation {
        Invocation {
            git_dir: self.git_dir.deep_view(),
            current_dir: self.current_dir.deep_view(),
            args: self.args.deep_view(),
        }
    }
}

/// The path as git takes it in `GIT_DIR` and in arguments: without the prefix
/// `\\?\` of Windows' extended-length paths, where `\\?\UNC\` stands for `\\`.
pub open spec fn git_path(path: Seq<char>) -> Seq<char> {
    if text::starts_with(path, r"\\?\UNC\"@) {
        r"\\"@ + text::without_prefix(path, r"\\?\UNC\"@)
    } else if text::starts_with(path, r"\\?\"@) {
        text::without_prefix(path, r"\\?\"@)
    } else {
        path
    }
}

/// Turns a path into the form that git takes, see [`git_path`].
pub fn normalize_path_for_git(path: &str) -> (r: String)
    ensures
        r@ == git_path(path@),
{
    let chars = text::to_chars(path);
    if let Some(stripped) = text::strip_prefix(chars.as_slice(), r"\\?\UNC\") {
        let mut r = String::new();
        r.append(r"\\");
        r.append(text::from_chars(stripped).as_str());
        return r;
    }
    if let Some(stripped) = text::strip_prefix(chars.as_slice(), r"\\?\") {
        return text::from_chars(stripped);
    }
    path.to_owned()
}

/// An invocation on a bare repository.
pub open spec fn bare_invocation(repo_path: Seq<char>, args: Seq<Seq<char>>) -> Invocation {
    Invocation { git_dir: Some(git_path(repo_path)), current_dir: None, args }
}

/// An invocation inside a working tree.
pub open spec fn work_tree_invocation(path: Seq<char>, args: Seq<Seq<char>>) -> Invocation {
    Invocation { git_dir: None, current_dir: Some(path), args }
}

/// An invocation that targets no existing repository.
pub open spec fn unbound_invocation(args: Seq<Seq<char>>) -> Invocation {
    Invocation { git_dir: None, current_dir: None, args }
}

/// Builds a `git` command for a target.
///
/// Every invocation goes through this function, so that the right scoping is
/// applied uniformly: `GIT_DIR` with a path that git accepts for a bare
/// repository, the working directory for a working tree, and neither otherwise.
pub fn build_git_command(target: GitTarget<'_>, args: &[&str]) -> (command: GitCommand)
    ensures
        command.deep_view() == (match target {
            GitTarget::BareRepo(path) => bare_invocation(path@, args.deep_view()),
            GitTarget::WorkTree(path) => work_tree_invocation(path@, args.deep_view()),
            GitTarget::Unbound => unbound_invocation(args.deep_view()),
        }),
{
    let mut owned: Vec<String> = Vec::new();
    let mut i: usize = 0;
    while i < args.len()
        invariant
            i <= args@.len(),
            owned@.len() == i,
            forall|k: int| 0 <= k < i ==> (#[trigger] owned@[k])@ == args@[k]@,
        decreases args@.len() - i,
    {
        owned.push(args[i].to_owned());
        i += 1;
    }
    assert(owned.deep_view() =~= args.deep_view());
    match target {
        GitTarget::BareRepo(path) => GitCommand {
            git_dir: Some(normalize_path_for_git(path)),
            current_dir: None,
            args: owned,
        },
        GitTarget::WorkTree(path) => GitCommand {
            git_dir: None,
            current_dir: Some(path.to_owned()),
            args: owned,
        },
        GitTarget::Unbound => GitCommand { git_dir: None, current_dir: None, args: owned },
    }
}

/// Builds a `git` command on the bare clone.
pub fn repo_command(context: &RepoContext, args: &[&str]) -> (command: GitCommand)
    ensures
        command.deep_view() == bare_invocation(context@.repo_path, args.deep_view()),
{
    build_git_command(GitTarget::BareRepo(repo_path(context)), args)
}

} // verus!
