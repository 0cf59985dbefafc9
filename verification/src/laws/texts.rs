//! Laws on texts: what determines each of the operations on them.

use vstd::prelude::*;

use crate::laws::naming;
use crate::text;

verus! {

/// Trimming takes white space off both ends and nothing else: what is left stands in
/// the text between two runs of white space, and has none at its own ends.
pub proof fn law_trim_takes_white_space_off(s: Seq<char>) -> (r: (int, int))
    ensures
        0 <= r.0 <= r.1 <= s.len(),
        text::trim(s) == s.subrange(r.0, r.1),
        forall|i: int| 0 <= i < r.0 ==> text::white_space(#[trigger] s[i]),
        forall|i: int| r.1 <= i < s.len() ==> text::white_space(#[trigger] s[i]),
        r.0 < r.1 ==> !text::white_space(s[r.0]) && !text::white_space(s[r.1 - 1]),
{
    let from = lemma_trim_start(s);
    let rest = s.skip(from);
    let to = lemma_trim_end(rest);
    assert(rest.take(to) =~= s.subrange(from, from + to));
    assert forall|i: int| from + to <= i < s.len() implies text::white_space(#[trigger] s[i]) by {
        assert(rest[i - from] == s[i]);
    }
    if to > 0 {
        assert(rest[to - 1] == s[from + to - 1]);
        assert(rest[0] == s[from]);
    }
    (from, from + to)
}

proof fn lemma_trim_start(s: Seq<char>) -> (n: int)
    ensures
        0 <= n <= s.len(),
        text::trim_start(s) == s.skip(n),
        forall|i: int| 0 <= i < n ==> text::white_space(#[trigger] s[i]),
        n < s.len() ==> !text::white_space(s[n]),
    decreases s.len(),
{
    if s.len() > 0 && text::white_space(s[0]) {
        let n = lemma_trim_start(s.skip(1));
        assert(s.skip(1).skip(n) =~= s.skip(n + 1));
        assert forall|i: int| 0 <= i < n + 1 implies text::white_space(#[trigger] s[i]) by {
            if i > 0 {
                assert(s.skip(1)[i - 1] == s[i]);
            }
        }
        n + 1
    } else {
        assert(s.skip(0) =~= s);
        0
    }
}

proof fn lemma_trim_end(s: Seq<char>) -> (n: int)
    ensures
        0 <= n <= s.len(),
        text::trim_end(s) == s.take(n),
        forall|i: int| n <= i < s.len() ==> text::white_space(#[trigger] s[i]),
        n > 0 ==> !text::white_space(s[n - 1]),
    decreases s.len(),
{
    if s.len() > 0 && text::white_space(s.last()) {
        let n = lemma_trim_end(s.drop_last());
        assert(s.drop_last().take(n) =~= s.take(n));
        assert forall|i: int| n <= i < s.len() implies text::white_space(#[trigger] s[i]) by {
            if i < s.len() - 1 {
                assert(s.drop_last()[i] == s[i]);
            }
        }
        n
    } else {
        assert(s.take(s.len() as int) =~= s);
        s.len() as int
    }
}

/// A text begins with a prefix exactly where it is the prefix and something after it.
pub proof fn law_starts_with(s: Seq<char>, prefix: Seq<char>)
    ensures
        text::starts_with(s, prefix) <==> exists|rest: Seq<char>| s == #[trigger] (prefix + rest),
        forall|rest: Seq<char>|
            s == prefix + rest ==> #[trigger] text::without_prefix(prefix + rest, prefix) == rest,
{
    if text::starts_with(s, prefix) {
        assert(s =~= prefix + s.skip(prefix.len() as int));
    }
    assert forall|rest: Seq<char>| s == prefix + rest implies text::starts_with(s, prefix)
        && #[trigger] text::without_prefix(prefix + rest, prefix) == rest by {
        text::lemma_prefix(prefix, rest);
    }
    if exists|rest: Seq<char>| s == #[trigger] (prefix + rest) {
        let rest = choose|rest: Seq<char>| s == #[trigger] (prefix + rest);
        text::lemma_prefix(prefix, rest);
    }
}

/// A text ends with a suffix exactly where it is something and the suffix after it.
pub proof fn law_ends_with(s: Seq<char>, suffix: Seq<char>)
    ensures
        text::ends_with(s, suffix) <==> exists|rest: Seq<char>| s == #[trigger] (rest + suffix),
{
    if text::ends_with(s, suffix) {
        assert(s =~= s.take(s.len() - suffix.len()) + suffix);
    }
    if exists|rest: Seq<char>| s == #[trigger] (rest + suffix) {
        let rest = choose|rest: Seq<char>| s == #[trigger] (rest + suffix);
        assert(s.skip(s.len() - suffix.len()) =~= suffix);
    }
}

/// A pattern stands in a text exactly where the text is something, the pattern and
/// something more.
pub proof fn law_contains(s: Seq<char>, pattern: Seq<char>)
    ensures
        text::contains(s, pattern) <==> exists|before: Seq<char>, after: Seq<char>|
            s == #[trigger] (before + pattern + after),
{
    if text::contains(s, pattern) {
        let i = choose|i: int|
            0 <= i <= s.len() - pattern.len() && #[trigger] s.subrange(i, i + pattern.len())
                == pattern;
        assert(s =~= s.take(i) + pattern + s.skip(i + pattern.len()));
    }
    if exists|before: Seq<char>, after: Seq<char>| s == #[trigger] (before + pattern + after) {
        let (before, after) = choose|before: Seq<char>, after: Seq<char>|
            s == #[trigger] (before + pattern + after);
        let i = before.len() as int;
        assert(s.subrange(i, i + pattern.len()) =~= pattern);
    }
}

/// A text loses the copies of a prefix that it begins with, one by one, and stays as
/// it is where it begins with none.
pub proof fn law_leading_copies_are_taken_off(s: Seq<char>, prefix: Seq<char>)
    requires
        prefix.len() > 0,
    ensures
        text::trim_start_text(prefix + s, prefix) == text::trim_start_text(s, prefix),
        !text::starts_with(s, prefix) ==> text::trim_start_text(s, prefix) == s,
{
    text::lemma_prefix(prefix, s);
}

/// A text loses the occurrences of a character at its end, and nothing else.
pub proof fn law_trailing_characters_are_taken_off(s: Seq<char>, c: char)
    ensures
        text::trim_end_char(s.push(c), c) == text::trim_end_char(s, c),
        s.len() == 0 || s.last() != c ==> text::trim_end_char(s, c) == s,
{
    assert(s.push(c).drop_last() =~= s);
}

/// A line feed ends a line, together with a carriage return just before it; what
/// follows the last line feed is a line where it is not empty.
pub proof fn law_line_feeds_end_lines(line: Seq<char>, rest: Seq<char>)
    requires
        forall|i: int| 0 <= i < line.len() ==> line[i] != '\n',
    ensures
        text::lines(Seq::empty()).len() == 0,
        line.len() > 0 ==> text::lines(line) == seq![line],
        line.len() == 0 || line.last() != '\r' ==> text::lines(line.push('\n') + rest) == seq![line]
            + text::lines(rest),
        text::lines(line.push('\r').push('\n') + rest) == seq![line] + text::lines(rest),
{
    text::lemma_first_index(line, '\n', line.len() as int);
    let plain = line.push('\n') + rest;
    text::lemma_first_index(plain, '\n', line.len() as int);
    assert(plain.take(line.len() as int) =~= line);
    assert(plain.skip(line.len() as int + 1) =~= rest);
    let returned = line.push('\r').push('\n') + rest;
    text::lemma_first_index(returned, '\n', line.len() as int + 1);
    assert(returned.take(line.len() as int + 1) =~= line.push('\r'));
    assert(line.push('\r').drop_last() =~= line);
    assert(returned.skip(line.len() as int + 2) =~= rest);
}

/// A separator ends a piece; what follows the last one is a piece too.
pub proof fn law_separators_end_pieces(piece: Seq<char>, c: char, rest: Seq<char>)
    requires
        forall|i: int| 0 <= i < piece.len() ==> piece[i] != c,
    ensures
        text::split(piece, c) == seq![piece],
        text::split(piece.push(c) + rest, c) == seq![piece] + text::split(rest, c),
{
    text::lemma_first_index(piece, c, piece.len() as int);
    naming::lemma_split_first(piece, c, rest);
}

/// Removing a pattern takes it out where it begins the text, and otherwise keeps the
/// first character.
pub proof fn law_patterns_are_removed(s: Seq<char>, pattern: Seq<char>)
    requires
        pattern.len() > 0,
    ensures
        text::remove_all(Seq::empty(), pattern).len() == 0,
        text::remove_all(pattern + s, pattern) == text::remove_all(s, pattern),
        s.len() > 0 && !text::starts_with(s, pattern) ==> text::remove_all(s, pattern) == seq![s[0]]
            + text::remove_all(s.skip(1), pattern),
        !text::contains(s, pattern) ==> text::remove_all(s, pattern) == s,
{
    text::lemma_remove_all_prefix(pattern, s);
    if !text::contains(s, pattern) {
        text::lemma_remove_all_absent(s, pattern);
    }
}

/// The letter is an upper-case ASCII letter, and the other its lower-case form.
pub open spec fn is_upper_of(upper: char, lower: char) -> bool {
    'A' <= upper <= 'Z' && lower as int == upper as int + 32
}

/// Texts are equal up to case exactly where they have the same length and differ, if
/// at all, in the case of ASCII letters.
pub proof fn law_case_of_letters_does_not_count(a: Seq<char>, b: Seq<char>)
    ensures
        text::equal_ignoring_case(a, b) <==> a.len() == b.len() && forall|i: int|
            0 <= i < a.len() ==> (#[trigger] a[i] == b[i] || is_upper_of(a[i], b[i]) || is_upper_of(
                b[i],
                a[i],
            )),
{
    assert forall|c: char, d: char| text::ascii_lower(c) == text::ascii_lower(d) <==> (c == d
        || is_upper_of(c, d) || is_upper_of(d, c)) by {
        lemma_lower(c);
        lemma_lower(d);
    }
}

proof fn lemma_lower(c: char)
    ensures
        'A' <= c <= 'Z' ==> text::ascii_lower(c) as int == c as int + 32,
        !('A' <= c <= 'Z') ==> text::ascii_lower(c) == c,
{
}

} // verus!
