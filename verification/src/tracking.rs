//! Remote-tracking references such as `origin/main` and their validity.

use vstd::prelude::*;

use crate::text;

verus! {

/// The branch name without the slashes at its end.
pub open spec fn branch_name(branch: Seq<char>) -> Seq<char> {
    text::trim_end_char(branch, '/')
}

/// The branch name without the slashes at its end.
pub fn trim_trailing_branch_slashes(branch: &str) -> (r: &str)
    ensures
        r@ == branch_name(branch@),
{
    let chars = text::to_chars(branch);
    let n = text::len_without_trailing(chars.as_slice(), '/');
    branch.substring_char(0, n)
}

/// What stands before and after the first slash, where neither is empty.
pub open spec fn at_first_slash(s: Seq<char>) -> Option<(Seq<char>, Seq<char>)> {
    let n = text::first_index(s, '/');
    if 0 < n && n + 1 < s.len() {
        Some((s.take(n), s.skip(n + 1)))
    } else {
        None
    }
}

/// The remote and the branch that a reference names: `<remote>/<branch>`, with
/// or without `refs/remotes/` before it.  Other full references name none.
pub open spec fn remote_and_branch(reference: Seq<char>) -> Option<(Seq<char>, Seq<char>)> {
    if text::starts_with(reference, "refs/remotes/"@) {
        at_first_slash(text::without_prefix(reference, "refs/remotes/"@))
    } else if text::starts_with(reference, "refs/"@) {
        None
    } else {
        at_first_slash(reference)
    }
}

/// Splits a remote-tracking reference into its remote and its branch.
pub fn parse_remote_tracking_reference<'a>(reference: &'a str) -> (r: Option<(&'a str, &'a str)>)
    ensures
        r.deep_view() == remote_and_branch(reference@),
{
    proof {
        reveal_strlit("refs/remotes/");
    }
    let chars = text::to_chars(reference);
    let s = chars.as_slice();
    let from: usize = if text::has_prefix(s, "refs/remotes/") {
        13
    } else if text::has_prefix(s, "refs/") {
        return None;
    } else {
        0
    };
    let slash = text::find_from(s, from, '/');
    proof {
        if from == 0 {
            assert(s@.skip(0) =~= s@);
        }
        text::lemma_first_index_bounds(s@.skip(from as int), '/');
    }
    if slash == from || slash == s.len() || slash + 1 == s.len() {
        return None;
    }
    let ghost body = s@.skip(from as int);
    assert(body.take(slash - from) =~= s@.subrange(from as int, slash as int));
    assert(body.skip(slash - from + 1) =~= s@.subrange(slash + 1, s@.len() as int));
    Some((reference.substring_char(from, slash), reference.substring_char(slash + 1, s.len())))
}

/// The branch that a remote-tracking reference names.
pub fn tracked_branch_name<'a>(reference: &'a str) -> (r: Option<&'a str>)
    ensures
        r.deep_view() == (match remote_and_branch(reference@) {
            Some((remote, branch)) => Some(branch),
            None => None,
        }),
{
    match parse_remote_tracking_reference(reference) {
        Some((_, branch)) => Some(branch),
        None => None,
    }
}

/// A character that no reference name may hold: an ASCII control character or
/// one that git gives a meaning of its own.
pub open spec fn invalid_ref_char(ch: char) -> bool {
    ||| ch <= '\u{1f}'
    ||| ch == '\u{7f}'
    ||| ch == ' '
    ||| ch == '~'
    ||| ch == '^'
    ||| ch == ':'
    ||| ch == '?'
    ||| ch == '*'
    ||| ch == '['
    ||| ch == '\\'
}

/// Whether no reference name may hold this character.
pub fn contains_invalid_ref_char(ch: char) -> (r: bool)
    ensures
        r == invalid_ref_char(ch),
{
    ch <= '\u{1f}' || ch == '\u{7f}' || ch == ' ' || ch == '~' || ch == '^' || ch == ':' || ch
        == '?' || ch == '*' || ch == '[' || ch == '\\'
}

/// A component of a reference name that git accepts: not empty, not beginning
/// with a dot, not ending with `.lock`, without two dots in a row and without an
/// invalid character.
pub open spec fn valid_ref_component(component: Seq<char>) -> bool {
    &&& component.len() > 0
    &&& component[0] != '.'
    &&& !text::ends_with(component, ".lock"@)
    &&& !text::contains(component, ".."@)
    &&& forall|i: int| 0 <= i < component.len() ==> !invalid_ref_char(#[trigger] component[i])
}

fn is_valid_component(component: &[char]) -> (r: bool)
    ensures
        r == valid_ref_component(component@),
{
    if component.len() == 0 || component[0] == '.' {
        return false;
    }
    let lock = text::to_chars(".lock");
    if text::has_suffix(component, lock.as_slice()) || text::has_pattern(component, "..") {
        return false;
    }
    let mut i: usize = 0;
    while i < component.len()
        invariant
            i <= component@.len(),
            forall|k: int| 0 <= k < i ==> !invalid_ref_char(#[trigger] component@[k]),
        decreases component@.len() - i,
    {
        if contains_invalid_ref_char(component[i]) {
            return false;
        }
        i += 1;
    }
    true
}

/// Whether git accepts this as a component of a reference name.
pub fn is_valid_ref_component(component: &str) -> (r: bool)
    ensures
        r == valid_ref_component(component@),
{
    let chars = text::to_chars(component);
    is_valid_component(chars.as_slice())
}

/// A branch part of a reference name that git accepts: components with slashes
/// between them, without `@{` and not ending with a dot.
pub open spec fn valid_ref_path(path: Seq<char>) -> bool {
    &&& path.len() > 0
    &&& !text::contains(path, "@{"@)
    &&& path.last() != '.'
    &&& forall|i: int|
        0 <= i < text::split(path, '/').len() ==> valid_ref_component(
            #[trigger] text::split(path, '/')[i],
        )
}

/// Whether git accepts this as the branch part of a reference name.
pub fn is_valid_ref_path(path: &str) -> (r: bool)
    ensures
        r == valid_ref_path(path@),
{
    let chars = text::to_chars(path);
    let s = chars.as_slice();
    if s.len() == 0 || text::has_pattern(s, "@{") || s[s.len() - 1] == '.' {
        return false;
    }
    let pieces = text::pieces(s, '/');
    let mut i: usize = 0;
    while i < pieces.len()
        invariant
            i <= pieces@.len(),
            text::texts(pieces@) == text::split(path@, '/'),
            forall|k: int|
                0 <= k < i ==> valid_ref_component(#[trigger] text::split(path@, '/')[k]),
        decreases pieces@.len() - i,
    {
        assert(text::texts(pieces@)[i as int] == pieces@[i as int]@);
        if !is_valid_component(pieces[i]) {
            return false;
        }
        i += 1;
    }
    true
}

/// The short form `<remote>/<branch>` of what a user gave as a tracking branch:
/// slashes at the end do not count, and both parts must be valid.
pub open spec fn tracking_name(reference: Seq<char>) -> Option<Seq<char>> {
    match remote_and_branch(branch_name(reference)) {
        Some((remote, branch)) => if valid_ref_component(remote) && valid_ref_path(branch) {
            Some(remote + "/"@ + branch)
        } else {
            None
        },
        None => None,
    }
}

/// The message for something that is no tracking branch.
pub open spec fn invalid_tracking_message(reference: Seq<char>) -> Seq<char> {
    "Invalid tracking branch '"@ + reference
        + "'. Use '<remote>/<branch>' or 'refs/remotes/<remote>/<branch>'."@
}

/// The message for something that is no tracking branch.
pub fn invalid_tracking_reference(reference: &str) -> (message: String)
    ensures
        message@ == invalid_tracking_message(reference@),
{
    let mut message = "Invalid tracking branch '".to_owned();
    message.append(reference);
    message.append("'. Use '<remote>/<branch>' or 'refs/remotes/<remote>/<branch>'.");
    message
}

/// `<remote>/<branch>`.
fn short_form(remote: &str, branch: &str) -> (r: String)
    ensures
        r@ == remote@ + "/"@ + branch@,
{
    let mut r = remote.to_owned();
    r.append("/");
    r.append(branch);
    r
}

/// Turns what a user gave as a tracking branch into `<remote>/<branch>`.
pub fn normalize_tracking_reference_input(reference: &str) -> (r: Result<String, String>)
    ensures
        crate::session::text_result(r) == (match tracking_name(reference@) {
            Some(name) => Ok(name),
            None => Err(invalid_tracking_message(reference@)),
        }),
{
    let normalized = trim_trailing_branch_slashes(reference);
    match parse_remote_tracking_reference(normalized) {
        Some((remote, branch)) => {
            if !is_valid_ref_component(remote) || !is_valid_ref_path(branch) {
                return Err(invalid_tracking_reference(reference));
            }
            Ok(short_form(remote, branch))
        },
        None => Err(invalid_tracking_reference(reference)),
    }
}

/// The short form of a reference that names a remote and a branch; any other
/// reference stays as it is.
pub open spec fn upstream_name(reference: Seq<char>) -> Seq<char> {
    match remote_and_branch(reference) {
        Some((remote, branch)) => remote + "/"@ + branch,
        None => reference,
    }
}

/// Turns a tracking reference into the form for `git branch --set-upstream-to`.
pub fn normalize_tracking_reference(track_ref: &str) -> (r: String)
    ensures
        r@ == upstream_name(track_ref@),
{
    match parse_remote_tracking_reference(track_ref) {
        Some((remote, branch)) => short_form(remote, branch),
        None => track_ref.to_owned(),
    }
}

} // verus!
