//! Laws on tracking references and on paths for git.

use vstd::prelude::*;

use crate::command;
use crate::laws::naming;
use crate::text;
use crate::tracking;

verus! {

// ---- tracking references ----

/// A slash at the end of a tracking branch does not count.
pub proof fn law_tracking_name_ignores_trailing_slash(reference: Seq<char>)
    ensures
        tracking::tracking_name(reference.push('/')) == tracking::tracking_name(reference),
{
    naming::law_branch_name_ignores_trailing_slash(reference);
}

/// A remote without a slash and a branch, joined by a slash, are read back, unless
/// the whole looks like a full reference.
pub proof fn law_remote_and_branch_of_short_form(remote: Seq<char>, branch: Seq<char>)
    requires
        remote.len() > 0,
        branch.len() > 0,
        forall|i: int| 0 <= i < remote.len() ==> remote[i] != '/',
        remote != "refs"@,
    ensures
        tracking::remote_and_branch(remote + "/"@ + branch) == Some((remote, branch)),
{
    reveal_strlit("/");
    let reference = remote + "/"@ + branch;
    lemma_at_first_slash(remote, branch);
    lemma_not_full_reference(remote, branch);
}

/// The full form `refs/remotes/<remote>/<branch>` is read as the remote and the
/// branch, whatever they are called.
pub proof fn law_remote_and_branch_of_full_form(remote: Seq<char>, branch: Seq<char>)
    requires
        remote.len() > 0,
        branch.len() > 0,
        forall|i: int| 0 <= i < remote.len() ==> remote[i] != '/',
    ensures
        tracking::remote_and_branch("refs/remotes/"@ + (remote + "/"@ + branch)) == Some(
            (remote, branch),
        ),
{
    lemma_at_first_slash(remote, branch);
    text::lemma_prefix("refs/remotes/"@, remote + "/"@ + branch);
}

proof fn lemma_at_first_slash(remote: Seq<char>, branch: Seq<char>)
    requires
        remote.len() > 0,
        branch.len() > 0,
        forall|i: int| 0 <= i < remote.len() ==> remote[i] != '/',
    ensures
        tracking::at_first_slash(remote + "/"@ + branch) == Some((remote, branch)),
{
    reveal_strlit("/");
    let s = remote + "/"@ + branch;
    let n = remote.len() as int;
    text::lemma_first_index(s, '/', n);
    assert(s.take(n) =~= remote);
    assert(s.skip(n + 1) =~= branch);
}

/// Only a remote called `refs` makes a short form look like a full reference.
pub proof fn lemma_not_full_reference(remote: Seq<char>, branch: Seq<char>)
    requires
        forall|i: int| 0 <= i < remote.len() ==> remote[i] != '/',
        remote != "refs"@,
    ensures
        !text::starts_with(remote + "/"@ + branch, "refs/"@),
        !text::starts_with(remote + "/"@ + branch, "refs/remotes/"@),
{
    reveal_strlit("/");
    reveal_strlit("refs");
    reveal_strlit("refs/");
    reveal_strlit("refs/remotes/");
    let s = remote + "/"@ + branch;
    if text::starts_with(s, "refs/remotes/"@) {
        assert(s.take(5) =~= s.take(13).take(5));
        assert(s.take(5) =~= "refs/"@);
    }
    if text::starts_with(s, "refs/"@) {
        let head = s.take(5);
        assert(head[0] == 'r' && head[1] == 'e' && head[2] == 'f' && head[3] == 's' && head[4]
            == '/');
        assert(s[4] == '/');
        if remote.len() > 4 {
            assert(s[4] == remote[4]);
        } else if remote.len() < 4 {
            assert(s[remote.len() as int] == '/');
        } else {
            assert(remote =~= "refs"@);
        }
    }
}

/// The full form of a tracking branch stands for the same as its short form.
pub proof fn law_full_form_is_short_form(reference: Seq<char>)
    requires
        !text::starts_with(reference, "refs/"@),
    ensures
        tracking::tracking_name("refs/remotes/"@ + reference) == tracking::tracking_name(reference),
{
    reveal_strlit("refs/");
    reveal_strlit("refs/remotes/");
    let prefix = "refs/remotes/"@;
    let short = tracking::branch_name(reference);
    let full = tracking::branch_name(prefix + reference);
    lemma_branch_name_after(prefix, reference);
    lemma_branch_name_is_prefix(reference);
    if text::starts_with(reference, prefix) {
        assert(reference.take(5) =~= reference.take(13).take(5));
        assert(reference.take(5) =~= "refs/"@);
    }
    if short.len() > 0 {
        text::lemma_prefix(prefix, short);
        if text::starts_with(short, "refs/"@) {
            assert(reference.take(5) =~= short.take(5));
        }
        if text::starts_with(short, prefix) {
            assert(short.take(5) =~= short.take(13).take(5));
            assert(short.take(5) =~= "refs/"@);
        }
    } else {
        let bare = "refs/remotes"@;
        reveal_strlit("refs/remotes");
        assert(prefix =~= bare.push('/'));
        naming::law_branch_name_ignores_trailing_slash(bare);
        naming::law_branch_name_is_stable(bare);
        assert(full == bare);
        assert(bare.take(5) =~= "refs/"@);
        assert(short =~= Seq::<char>::empty());
    }
}

/// The branch name of a text after a prefix: the prefix stays, unless nothing but
/// slashes follows it.
proof fn lemma_branch_name_after(prefix: Seq<char>, s: Seq<char>)
    ensures
        tracking::branch_name(s).len() > 0 ==> tracking::branch_name(prefix + s) == prefix
            + tracking::branch_name(s),
        tracking::branch_name(s).len() == 0 ==> tracking::branch_name(prefix + s)
            == tracking::branch_name(prefix),
    decreases s.len(),
{
    if s.len() == 0 {
        assert(prefix + s =~= prefix);
    } else {
        assert((prefix + s).last() == s.last());
        if s.last() == '/' {
            assert((prefix + s).drop_last() =~= prefix + s.drop_last());
            lemma_branch_name_after(prefix, s.drop_last());
        }
    }
}

proof fn lemma_branch_name_is_prefix(s: Seq<char>)
    ensures
        tracking::branch_name(s).len() <= s.len(),
        tracking::branch_name(s) == s.take(tracking::branch_name(s).len() as int),
    decreases s.len(),
{
    if s.len() > 0 && s.last() == '/' {
        lemma_branch_name_is_prefix(s.drop_last());
        assert(s.drop_last().take(tracking::branch_name(s).len() as int) =~= s.take(
            tracking::branch_name(s).len() as int,
        ));
    } else {
        assert(s.take(s.len() as int) =~= s);
    }
}

/// A text whose pieces are all not empty neither begins nor ends with the
/// separator, and no two separators meet.
proof fn lemma_no_empty_piece(s: Seq<char>, c: char)
    requires
        forall|i: int|
            0 <= i < text::split(s, c).len() ==> #[trigger] text::split(s, c)[i].len() > 0,
    ensures
        s.len() > 0,
        s[0] != c,
        s.last() != c,
        forall|i: int| 0 <= i < s.len() - 1 && s[i] == c ==> #[trigger] s[i + 1] != c,
    decreases s.len(),
{
    text::lemma_first_index_bounds(s, c);
    let n = text::first_index(s, c);
    let pieces = text::split(s, c);
    assert(pieces[0].len() > 0);
    if n < s.len() {
        let rest = s.skip(n + 1);
        assert forall|i: int| 0 <= i < text::split(rest, c).len() implies #[trigger] text::split(
            rest,
            c,
        )[i].len() > 0 by {
            assert(pieces[i + 1] == text::split(rest, c)[i]);
        }
        lemma_no_empty_piece(rest, c);
        assert(rest.last() == s.last());
        assert forall|i: int| 0 <= i < s.len() - 1 && s[i] == c implies #[trigger] s[i + 1]
            != c by {
            if i == n {
                assert(s[i + 1] == rest[0]);
            } else {
                assert(i > n);
                assert(s[i + 1] == rest[i - n]);
                assert(rest[i - n - 1] == c);
                assert(rest[(i - n - 1) + 1] != c);
            }
        }
    }
}

/// A valid branch neither begins nor ends with a slash, and no two of its slashes
/// meet.
pub proof fn law_valid_ref_path_has_no_empty_segment(path: Seq<char>)
    requires
        tracking::valid_ref_path(path),
    ensures
        path[0] != '/',
        path.last() != '/',
        forall|i: int| 0 <= i < path.len() - 1 && path[i] == '/' ==> #[trigger] path[i + 1] != '/',
{
    lemma_no_empty_piece(path, '/');
}

/// A valid branch holds no character that git does not accept in a reference.
pub proof fn law_valid_ref_path_has_valid_characters(path: Seq<char>, k: int)
    requires
        tracking::valid_ref_path(path),
        0 <= k < path.len(),
    ensures
        !tracking::invalid_ref_char(path[k]),
{
    lemma_piece_characters(path, k);
}

proof fn lemma_piece_characters(path: Seq<char>, k: int)
    requires
        forall|i: int|
            0 <= i < text::split(path, '/').len() ==> tracking::valid_ref_component(
                #[trigger] text::split(path, '/')[i],
            ),
        0 <= k < path.len(),
    ensures
        !tracking::invalid_ref_char(path[k]),
    decreases path.len(),
{
    text::lemma_first_index_bounds(path, '/');
    let n = text::first_index(path, '/');
    let pieces = text::split(path, '/');
    assert(tracking::valid_ref_component(pieces[0]));
    if k < n {
        assert(pieces[0][k] == path[k]);
    } else if k > n {
        let rest = path.skip(n + 1);
        assert forall|i: int|
            0 <= i < text::split(rest, '/').len() implies tracking::valid_ref_component(
            #[trigger] text::split(rest, '/')[i],
        ) by {
            assert(pieces[i + 1] == text::split(rest, '/')[i]);
        }
        lemma_piece_characters(rest, k - n - 1);
    }
}

/// What a name of a tracking branch consists of: a valid remote without a slash,
/// and a valid branch.
pub proof fn law_tracking_name_is_valid(reference: Seq<char>)
    ensures
        tracking::tracking_name(reference) matches Some(name) ==> {
            let (remote, branch) = tracking::remote_and_branch(
                tracking::branch_name(reference),
            )->0;
            &&& name == remote + "/"@ + branch
            &&& tracking::valid_ref_component(remote)
            &&& tracking::valid_ref_path(branch)
            &&& forall|i: int| 0 <= i < remote.len() ==> remote[i] != '/'
        },
{
    let s = tracking::branch_name(reference);
    text::lemma_first_index_bounds(s, '/');
    text::lemma_first_index_bounds(text::without_prefix(s, "refs/remotes/"@), '/');
}

/// The name of a tracking branch stands for itself: it is kept when it is given
/// again and when it is set as an upstream, and its branch is the tracked one.  A
/// remote called `refs` is the exception.
pub proof fn law_tracking_name_is_stable(reference: Seq<char>)
    requires
        tracking::tracking_name(reference) is Some,
        !text::starts_with(tracking::tracking_name(reference)->0, "refs/"@),
    ensures
        ({
            let name = tracking::tracking_name(reference)->0;
            &&& tracking::tracking_name(name) == Some(name)
            &&& tracking::upstream_name(name) == name
            &&& tracking::remote_and_branch(name) == tracking::remote_and_branch(
                tracking::branch_name(reference),
            )
        }),
{
    reveal_strlit("/");
    reveal_strlit("refs");
    reveal_strlit("refs/");
    law_tracking_name_is_valid(reference);
    let name = tracking::tracking_name(reference)->0;
    let (remote, branch) = tracking::remote_and_branch(tracking::branch_name(reference))->0;
    law_valid_ref_path_has_no_empty_segment(branch);
    assert(name.last() == branch.last());
    naming::law_branch_name_is_stable(name);
    if remote == "refs"@ {
        assert(name.take(5) =~= "refs/"@);
    }
    law_remote_and_branch_of_short_form(remote, branch);
}

/// A valid remote without a slash and a valid branch make a tracking branch that is
/// accepted under its short name, in its full form always and in its short form
/// unless the remote is called `refs`.
pub proof fn law_valid_tracking_branches_are_accepted(remote: Seq<char>, branch: Seq<char>)
    requires
        tracking::valid_ref_component(remote),
        forall|i: int| 0 <= i < remote.len() ==> remote[i] != '/',
        tracking::valid_ref_path(branch),
    ensures
        remote != "refs"@ ==> tracking::tracking_name(remote + "/"@ + branch) == Some(
            remote + "/"@ + branch,
        ),
        tracking::tracking_name("refs/remotes/"@ + (remote + "/"@ + branch)) == Some(
            remote + "/"@ + branch,
        ),
{
    let short = remote + "/"@ + branch;
    let full = "refs/remotes/"@ + short;
    law_valid_ref_path_has_no_empty_segment(branch);
    assert(short.last() == branch.last());
    assert(full.last() == branch.last());
    naming::law_branch_name_is_stable(short);
    naming::law_branch_name_is_stable(full);
    law_remote_and_branch_of_full_form(remote, branch);
    if remote != "refs"@ {
        law_remote_and_branch_of_short_form(remote, branch);
    }
}

/// Nothing else is accepted: a reference that names a remote and a branch is these
/// two with a slash between them, or that after `refs/remotes/`.
pub proof fn law_reference_is_its_remote_and_branch(reference: Seq<char>)
    ensures
        tracking::remote_and_branch(reference) matches Some((remote, branch)) ==> {
            let short = remote + "/"@ + branch;
            &&& remote.len() > 0
            &&& branch.len() > 0
            &&& forall|i: int| 0 <= i < remote.len() ==> remote[i] != '/'
            &&& reference == "refs/remotes/"@ + short || reference == short && !text::starts_with(
                reference,
                "refs/"@,
            )
        },
{
    if let Some((remote, branch)) = tracking::remote_and_branch(reference) {
        if text::starts_with(reference, "refs/remotes/"@) {
            let rest = text::without_prefix(reference, "refs/remotes/"@);
            lemma_parts_of_first_slash(rest);
            assert(reference =~= "refs/remotes/"@ + rest);
        } else {
            lemma_parts_of_first_slash(reference);
        }
    }
}

proof fn lemma_parts_of_first_slash(s: Seq<char>)
    requires
        tracking::at_first_slash(s) is Some,
    ensures
        ({
            let (remote, branch) = tracking::at_first_slash(s)->0;
            &&& s == remote + "/"@ + branch
            &&& remote.len() > 0
            &&& branch.len() > 0
            &&& forall|i: int| 0 <= i < remote.len() ==> remote[i] != '/'
        }),
{
    reveal_strlit("/");
    text::lemma_first_index_bounds(s, '/');
    let (remote, branch) = tracking::at_first_slash(s)->0;
    assert(s =~= remote + "/"@ + branch);
}

/// A tracking branch that is accepted is, without the slashes at its end, its name or
/// that after `refs/remotes/`.
pub proof fn law_tracking_name_is_what_was_given(reference: Seq<char>)
    ensures
        tracking::tracking_name(reference) matches Some(name) ==> {
            let given = tracking::branch_name(reference);
            given == name || given == "refs/remotes/"@ + name
        },
{
    law_reference_is_its_remote_and_branch(tracking::branch_name(reference));
}

/// What a component of a reference must not be like, point by point; every other
/// text is one.
pub proof fn law_valid_components(component: Seq<char>)
    ensures
        tracking::valid_ref_component(component) <==> {
            &&& component.len() > 0
            &&& !text::starts_with(component, "."@)
            &&& !text::ends_with(component, ".lock"@)
            &&& !text::contains(component, ".."@)
            &&& forall|i: int|
                0 <= i < component.len() ==> {
                    let c = #[trigger] component[i];
                    &&& c > '\u{1f}'
                    &&& c != '\u{7f}'
                    &&& c != ' ' && c != '~' && c != '^' && c != ':'
                    &&& c != '?' && c != '*' && c != '[' && c != '\\'
                }
        },
{
    reveal_strlit(".");
    if component.len() > 0 {
        assert(component.take(1)[0] == component[0]);
        assert(component[0] == '.' ==> component.take(1) =~= "."@);
    }
}

/// A branch is valid exactly where what comes before its first slash is a valid
/// component, and what comes after it is a valid branch again; `@{` may stand
/// nowhere, and a dot not at the end.
pub proof fn law_valid_branches(first: Seq<char>, rest: Seq<char>)
    requires
        forall|i: int| 0 <= i < first.len() ==> first[i] != '/',
    ensures
        tracking::valid_ref_path(first) <==> {
            &&& tracking::valid_ref_component(first)
            &&& !text::contains(first, "@{"@)
            &&& !text::ends_with(first, "."@)
        },
        tracking::valid_ref_path(first + "/"@ + rest) <==> {
            &&& tracking::valid_ref_component(first)
            &&& !text::contains(first, "@{"@)
            &&& tracking::valid_ref_path(rest)
        },
{
    reveal_strlit("/");
    reveal_strlit(".");
    reveal_strlit("@{");
    text::lemma_first_index(first, '/', first.len() as int);
    assert(text::split(first, '/') =~= seq![first]);
    assert(text::split(first, '/')[0] == first);
    if first.len() > 0 {
        assert(first.skip(first.len() - 1)[0] == first.last());
        assert(first.last() == '.' ==> first.skip(first.len() - 1) =~= "."@);
    }
    let whole = first + "/"@ + rest;
    assert(whole =~= first.push('/') + rest);
    naming::lemma_split_first(first, '/', rest);
    let pieces = text::split(whole, '/');
    let later = text::split(rest, '/');
    assert(pieces == seq![first] + later);
    lemma_contains_around_slash(first, rest);
    if rest.len() > 0 {
        assert(whole.last() == rest.last());
    } else {
        text::lemma_first_index(rest, '/', 0);
        assert(later =~= seq![rest]);
        assert(pieces[1].len() == 0);
    }
    if tracking::valid_ref_path(whole) {
        assert(tracking::valid_ref_component(pieces[0]));
        assert forall|i: int| 0 <= i < later.len() implies tracking::valid_ref_component(
            #[trigger] later[i],
        ) by {
            assert(pieces[i + 1] == later[i]);
        }
    }
    if tracking::valid_ref_component(first) && tracking::valid_ref_path(rest) {
        assert forall|i: int| 0 <= i < pieces.len() implies tracking::valid_ref_component(
            #[trigger] pieces[i],
        ) by {
            if i > 0 {
                assert(pieces[i] == later[i - 1]);
            }
        }
    }
}

/// `@{` stands before a slash or after it, but not across.
proof fn lemma_contains_around_slash(first: Seq<char>, rest: Seq<char>)
    ensures
        text::contains(first + "/"@ + rest, "@{"@) <==> text::contains(first, "@{"@)
            || text::contains(rest, "@{"@),
{
    reveal_strlit("/");
    reveal_strlit("@{");
    let whole = first + "/"@ + rest;
    let pattern = "@{"@;
    let n = first.len() as int;
    if text::contains(first, pattern) {
        let i = choose|i: int|
            0 <= i <= first.len() - pattern.len() && #[trigger] first.subrange(i, i + pattern.len())
                == pattern;
        assert(whole.subrange(i, i + pattern.len()) =~= first.subrange(i, i + pattern.len()));
    }
    if text::contains(rest, pattern) {
        let i = choose|i: int|
            0 <= i <= rest.len() - pattern.len() && #[trigger] rest.subrange(i, i + pattern.len())
                == pattern;
        let k = i + n + 1;
        assert(whole.subrange(k, k + pattern.len()) =~= rest.subrange(i, i + pattern.len()));
    }
    if text::contains(whole, pattern) {
        let i = choose|i: int|
            0 <= i <= whole.len() - pattern.len() && #[trigger] whole.subrange(i, i + pattern.len())
                == pattern;
        let found = whole.subrange(i, i + pattern.len());
        assert(found[0] == '@' && found[1] == '{');
        assert(whole[i] == '@' && whole[i + 1] == '{');
        assert(whole[n] == '/');
        if i < n {
            assert(first.subrange(i, i + pattern.len()) =~= found);
        } else {
            let k = i - n - 1;
            assert(rest.subrange(k, k + pattern.len()) =~= found);
        }
    }
}

/// The message for something that is no tracking branch names it as it was given.
pub proof fn law_message_names_the_reference(reference: Seq<char>)
    ensures
        tracking::invalid_tracking_message(reference) == "Invalid tracking branch '"@ + reference
            + "'. Use '<remote>/<branch>' or 'refs/remotes/<remote>/<branch>'."@,
{
}

// ---- paths for git ----

/// Git gets a path without the prefix of Windows' extended-length paths, and a
/// network path with the prefix that it knows.
pub proof fn law_extended_prefix_is_stripped(path: Seq<char>)
    ensures
        !text::starts_with(path, r"UNC\"@) ==> command::git_path(r"\\?\"@ + path) == path,
        command::git_path(r"\\?\UNC\"@ + path) == r"\\"@ + path,
{
    reveal_strlit(r"\\?\");
    reveal_strlit(r"UNC\");
    reveal_strlit(r"\\?\UNC\");
    text::lemma_prefix(r"\\?\"@, path);
    text::lemma_prefix(r"\\?\UNC\"@, path);
    let extended = r"\\?\"@ + path;
    if text::starts_with(extended, r"\\?\UNC\"@) {
        let head = extended.take(8);
        assert forall|i: int| 0 <= i < 4 implies path.take(4)[i] == r"UNC\"@[i] by {
            assert(head[i + 4] == extended[i + 4]);
            assert(head[i + 4] == r"\\?\UNC\"@[i + 4]);
        }
        assert(path.take(4) =~= r"UNC\"@);
    }
}

/// A path that is no extended-length path stays as it is.
pub proof fn law_other_paths_are_kept(path: Seq<char>)
    requires
        !text::starts_with(path, r"\\?\"@),
    ensures
        command::git_path(path) == path,
{
    reveal_strlit(r"\\?\");
    reveal_strlit(r"\\?\UNC\");
    if text::starts_with(path, r"\\?\UNC\"@) {
        assert(path.take(4) =~= path.take(8).take(4));
        assert(path.take(4) =~= r"\\?\"@);
    }
}

} // verus!
