//! Text as sequences of characters: trimming, splitting into lines and pieces,
//! prefixes, suffixes and replacement.
//!
//! Every executable function works on a slice of characters, so that a piece of
//! a text is a subslice of it.  [`to_chars`] and [`from_chars`] lead from and to
//! Rust's own strings.

use vstd::prelude::*;
use vstd::slice::slice_subrange;

verus! {

/// The standard library's `String::push`: appends one character to the end of
/// the string and changes nothing else.
pub assume_specification[ String::push ](s: &mut String, c: char)
    ensures
        final(s)@ == old(s)@.push(c),
;

/// The characters of a string, in order.
pub fn to_chars(s: &str) -> (chars: Vec<char>)
    ensures
        chars@ == s@,
{
    let mut chars: Vec<char> = Vec::new();
    for c in it: s.chars()
        invariant
            it.seq() == s@,
            chars@ == s@.take(it.index()),
    {
        chars.push(c);
    }
    chars
}

/// The string that consists of the given characters.
pub fn from_chars(chars: &[char]) -> (s: String)
    ensures
        s@ == chars@,
{
    let mut s = String::new();
    let mut i: usize = 0;
    while i < chars.len()
        invariant
            i <= chars@.len(),
            s@ == chars@.take(i as int),
        decreases chars@.len() - i,
    {
        s.push(chars[i]);
        i += 1;
    }
    s
}

/// Characters with the Unicode property `White_Space`.
pub open spec fn white_space(c: char) -> bool {
    ||| '\t' <= c <= '\r'
    ||| c == ' '
    ||| c == '\u{85}'
    ||| c == '\u{a0}'
    ||| c == '\u{1680}'
    ||| '\u{2000}' <= c <= '\u{200a}'
    ||| c == '\u{2028}'
    ||| c == '\u{2029}'
    ||| c == '\u{202f}'
    ||| c == '\u{205f}'
    ||| c == '\u{3000}'
}

/// Whether a character is white space.
pub fn is_white_space(c: char) -> (r: bool)
    ensures
        r == white_space(c),
{
    ('\t' <= c && c <= '\r') || c == ' ' || c == '\u{85}' || c == '\u{a0}' || c == '\u{1680}' || (
    '\u{2000}' <= c && c <= '\u{200a}') || c == '\u{2028}' || c == '\u{2029}' || c == '\u{202f}'
        || c == '\u{205f}' || c == '\u{3000}'
}

// ---- comparison ----

/// Whether two texts are the same.
pub fn equal(a: &[char], b: &[char]) -> (r: bool)
    ensures
        r == (a@ == b@),
{
    if a.len() != b.len() {
        return false;
    }
    assert(a@.subrange(0, b@.len() as int) =~= a@);
    matches_at(a, 0, b)
}

/// Whether a text is the given string.
pub fn is(s: &[char], other: &str) -> (r: bool)
    ensures
        r == (s@ == other@),
{
    let other = to_chars(other);
    equal(s, other.as_slice())
}

/// Whether `pattern` stands in `s` at position `at`.
pub fn matches_at(s: &[char], at: usize, pattern: &[char]) -> (r: bool)
    requires
        at <= s@.len(),
    ensures
        r == (pattern@.len() <= s@.len() - at && s@.subrange(at as int, at + pattern@.len())
            == pattern@),
{
    if pattern.len() > s.len() - at {
        return false;
    }
    let mut i: usize = 0;
    while i < pattern.len()
        invariant
            i <= pattern@.len() <= s@.len() - at,
            s@.len() == s.len(),
            forall|k: int| 0 <= k < i ==> s@[at + k] == pattern@[k],
        decreases pattern@.len() - i,
    {
        if s[at + i] != pattern[i] {
            assert(s@.subrange(at as int, at + pattern@.len())[i as int] == s@[at + i]);
            return false;
        }
        i += 1;
    }
    assert(s@.subrange(at as int, at + pattern@.len()) =~= pattern@);
    true
}

/// `s` begins with `prefix`.
pub open spec fn starts_with(s: Seq<char>, prefix: Seq<char>) -> bool {
    prefix.len() <= s.len() && s.take(prefix.len() as int) == prefix
}

/// What follows a prefix of `s`.
pub open spec fn without_prefix(s: Seq<char>, prefix: Seq<char>) -> Seq<char>
    recommends
        starts_with(s, prefix),
{
    s.skip(prefix.len() as int)
}

/// Whether a text begins with a prefix.
pub fn has_prefix(s: &[char], prefix: &str) -> (r: bool)
    ensures
        r == starts_with(s@, prefix@),
{
    let prefix = to_chars(prefix);
    matches_at(s, 0, prefix.as_slice())
}

/// What follows a prefix, if the text begins with it.
pub fn strip_prefix<'a>(s: &'a [char], prefix: &str) -> (r: Option<&'a [char]>)
    ensures
        r is Some <==> starts_with(s@, prefix@),
        r is Some ==> r->0@ == without_prefix(s@, prefix@),
{
    let prefix = to_chars(prefix);
    if matches_at(s, 0, prefix.as_slice()) {
        Some(slice_subrange(s, prefix.len(), s.len()))
    } else {
        None
    }
}

/// `s` ends with `suffix`.
pub open spec fn ends_with(s: Seq<char>, suffix: Seq<char>) -> bool {
    suffix.len() <= s.len() && s.skip(s.len() - suffix.len()) == suffix
}

/// Whether a text ends with a suffix.
pub fn has_suffix(s: &[char], suffix: &[char]) -> (r: bool)
    ensures
        r == ends_with(s@, suffix@),
{
    if suffix.len() > s.len() {
        return false;
    }
    matches_at(s, s.len() - suffix.len(), suffix)
}

/// `pattern` stands somewhere in `s`.
pub open spec fn contains(s: Seq<char>, pattern: Seq<char>) -> bool {
    exists|i: int|
        0 <= i <= s.len() - pattern.len() && #[trigger] s.subrange(i, i + pattern.len()) == pattern
}

/// Whether a pattern stands somewhere in a text.
pub fn has_pattern(s: &[char], pattern: &str) -> (r: bool)
    ensures
        r == contains(s@, pattern@),
{
    let pattern_chars = to_chars(pattern);
    let mut i: usize = 0;
    while i < s.len()
        invariant
            i <= s@.len(),
            pattern_chars@ == pattern@,
            forall|k: int|
                0 <= k < i && k <= s@.len() - pattern@.len() ==> #[trigger] s@.subrange(
                    k,
                    k + pattern@.len(),
                ) != pattern@,
        decreases s@.len() - i,
    {
        if matches_at(s, i, pattern_chars.as_slice()) {
            return true;
        }
        i += 1;
    }
    matches_at(s, i, pattern_chars.as_slice())
}

/// The lower-case form of an ASCII letter; every other character is its own.
pub open spec fn ascii_lower(c: char) -> char {
    if 'A' <= c <= 'Z' {
        (c as u32 + 32) as char
    } else {
        c
    }
}

/// Two texts are the same up to the case of ASCII letters.
pub open spec fn equal_ignoring_case(a: Seq<char>, b: Seq<char>) -> bool {
    &&& a.len() == b.len()
    &&& forall|i: int| 0 <= i < a.len() ==> ascii_lower(#[trigger] a[i]) == ascii_lower(b[i])
}

fn to_ascii_lower(c: char) -> (r: char)
    ensures
        r == ascii_lower(c),
{
    if 'A' <= c && c <= 'Z' {
        (c as u8 + 32) as char
    } else {
        c
    }
}

/// Whether two texts are the same up to the case of ASCII letters.
pub fn is_equal_ignoring_case(a: &[char], b: &[char]) -> (r: bool)
    ensures
        r == equal_ignoring_case(a@, b@),
{
    if a.len() != b.len() {
        return false;
    }
    let mut i: usize = 0;
    while i < a.len()
        invariant
            i <= a@.len() == b@.len(),
            forall|k: int| 0 <= k < i ==> ascii_lower(#[trigger] a@[k]) == ascii_lower(b@[k]),
        decreases a@.len() - i,
    {
        if to_ascii_lower(a[i]) != to_ascii_lower(b[i]) {
            return false;
        }
        i += 1;
    }
    true
}

// ---- trimming ----

/// `s` without the white space at its beginning.
pub open spec fn trim_start(s: Seq<char>) -> Seq<char>
    decreases s.len(),
{
    if s.len() > 0 && white_space(s[0]) {
        trim_start(s.skip(1))
    } else {
        s
    }
}

/// `s` without the white space at its end.
pub open spec fn trim_end(s: Seq<char>) -> Seq<char>
    decreases s.len(),
{
    if s.len() > 0 && white_space(s.last()) {
        trim_end(s.drop_last())
    } else {
        s
    }
}

/// `s` without the white space at both ends.
pub open spec fn trim(s: Seq<char>) -> Seq<char> {
    trim_end(trim_start(s))
}

/// A text without the white space at both ends.
pub fn trimmed<'a>(s: &'a [char]) -> (r: &'a [char])
    ensures
        r@ == trim(s@),
{
    let mut from: usize = 0;
    assert(s@.skip(0) =~= s@);
    while from < s.len() && is_white_space(s[from])
        invariant
            from <= s@.len(),
            trim_start(s@) == trim_start(s@.skip(from as int)),
        decreases s@.len() - from,
    {
        assert(s@.skip(from as int).skip(1) =~= s@.skip(from + 1));
        from += 1;
    }
    let mut to: usize = s.len();
    assert(s@.subrange(from as int, to as int) =~= s@.skip(from as int));
    while to > from && is_white_space(s[to - 1])
        invariant
            from <= to <= s@.len(),
            trim_end(s@.skip(from as int)) == trim_end(s@.subrange(from as int, to as int)),
        decreases to,
    {
        assert(s@.subrange(from as int, to as int).drop_last() =~= s@.subrange(
            from as int,
            to - 1,
        ));
        to -= 1;
    }
    slice_subrange(s, from, to)
}

/// `s` without the occurrences of `c` at its end.
pub open spec fn trim_end_char(s: Seq<char>, c: char) -> Seq<char>
    decreases s.len(),
{
    if s.len() > 0 && s.last() == c {
        trim_end_char(s.drop_last(), c)
    } else {
        s
    }
}

/// How many characters are left of a text without the occurrences of `c` at its end.
pub fn len_without_trailing(s: &[char], c: char) -> (n: usize)
    ensures
        n <= s@.len(),
        s@.take(n as int) == trim_end_char(s@, c),
{
    let mut n: usize = s.len();
    assert(s@.take(n as int) =~= s@);
    while n > 0 && s[n - 1] == c
        invariant
            n <= s@.len(),
            trim_end_char(s@, c) == trim_end_char(s@.take(n as int), c),
        decreases n,
    {
        assert(s@.take(n as int).drop_last() =~= s@.take(n - 1));
        n -= 1;
    }
    n
}

/// `s` without the copies of `prefix` that it begins with.
pub open spec fn trim_start_text(s: Seq<char>, prefix: Seq<char>) -> Seq<char>
    decreases s.len(),
{
    if prefix.len() > 0 && starts_with(s, prefix) {
        trim_start_text(s.skip(prefix.len() as int), prefix)
    } else {
        s
    }
}

/// A text without the copies of `prefix` that it begins with.
pub fn without_leading<'a>(s: &'a [char], prefix: &str) -> (r: &'a [char])
    ensures
        r@ == trim_start_text(s@, prefix@),
{
    let prefix_chars = to_chars(prefix);
    if prefix_chars.len() == 0 {
        return s;
    }
    let mut from: usize = 0;
    assert(s@.skip(0) =~= s@);
    while matches_at(s, from, prefix_chars.as_slice())
        invariant
            from <= s@.len() == s.len(),
            prefix_chars@ == prefix@,
            prefix_chars@.len() > 0,
            trim_start_text(s@, prefix@) == trim_start_text(s@.skip(from as int), prefix@),
        decreases s@.len() - from,
    {
        assert(s@.skip(from as int).take(prefix@.len() as int) =~= s@.subrange(
            from as int,
            from + prefix@.len(),
        ));
        assert(s@.skip(from as int).skip(prefix@.len() as int) =~= s@.skip(from + prefix@.len()));
        from += prefix_chars.len();
    }
    assert(starts_with(s@.skip(from as int), prefix@) ==> s@.skip(from as int).take(
        prefix@.len() as int,
    ) =~= s@.subrange(from as int, from + prefix@.len()));
    slice_subrange(s, from, s.len())
}

// ---- splitting ----

/// The position of the first `c` in `s`, or the length of `s` if there is none.
pub open spec fn first_index(s: Seq<char>, c: char) -> int
    decreases s.len(),
{
    if s.len() == 0 || s[0] == c {
        0
    } else {
        1 + first_index(s.skip(1), c)
    }
}

/// What [`first_index`] is: the only position up to which no `c` stands and at
/// which either a `c` stands or the text ends.
pub proof fn lemma_first_index(s: Seq<char>, c: char, n: int)
    requires
        0 <= n <= s.len(),
        forall|k: int| 0 <= k < n ==> s[k] != c,
        n < s.len() ==> s[n] == c,
    ensures
        first_index(s, c) == n,
    decreases s.len(),
{
    if n > 0 {
        lemma_first_index(s.skip(1), c, n - 1);
    }
}

/// No `c` stands before [`first_index`], and one stands there unless the text ends.
pub proof fn lemma_first_index_bounds(s: Seq<char>, c: char)
    ensures
        0 <= first_index(s, c) <= s.len(),
        forall|k: int| 0 <= k < first_index(s, c) ==> s[k] != c,
        first_index(s, c) < s.len() ==> s[first_index(s, c)] == c,
    decreases s.len(),
{
    if s.len() > 0 && s[0] != c {
        lemma_first_index_bounds(s.skip(1), c);
        assert forall|k: int| 0 <= k < first_index(s, c) implies s[k] != c by {
            if k > 0 {
                assert(s[k] == s.skip(1)[k - 1]);
            }
        }
    }
}

/// The position of the first `c` at or after `from`, or the length of the text.
pub fn find_from(s: &[char], from: usize, c: char) -> (n: usize)
    requires
        from <= s@.len(),
    ensures
        from <= n <= s@.len(),
        n - from == first_index(s@.skip(from as int), c),
{
    let mut n: usize = from;
    while n < s.len() && s[n] != c
        invariant
            from <= n <= s@.len(),
            forall|k: int| from <= k < n ==> s@[k] != c,
        decreases s@.len() - n,
    {
        n += 1;
    }
    proof {
        lemma_first_index(s@.skip(from as int), c, n - from);
    }
    n
}

/// The pieces of `s` between the occurrences of `c`: always at least one, and
/// empty where two occurrences meet or where one begins or ends the text.
pub open spec fn split(s: Seq<char>, c: char) -> Seq<Seq<char>>
    decreases s.len() via split_decreases
{
    let n = first_index(s, c);
    if n >= s.len() {
        seq![s]
    } else {
        seq![s.take(n)] + split(s.skip(n + 1), c)
    }
}

#[via_fn]
proof fn split_decreases(s: Seq<char>, c: char) {
    lemma_first_index_bounds(s, c);
}

/// The texts of a list of slices.
pub open spec fn texts(pieces: Seq<&[char]>) -> Seq<Seq<char>> {
    pieces.map_values(|piece: &[char]| piece@)
}

/// The pieces of a text between the occurrences of `c`.
pub fn pieces<'a>(s: &'a [char], c: char) -> (r: Vec<&'a [char]>)
    ensures
        texts(r@) == split(s@, c),
{
    let mut r: Vec<&'a [char]> = Vec::new();
    let mut from: usize = 0;
    assert(s@.skip(0) =~= s@);
    loop
        invariant
            from <= s@.len(),
            split(s@, c) =~= texts(r@) + split(s@.skip(from as int), c),
        decreases s@.len() - from,
    {
        let n = find_from(s, from, c);
        let piece = slice_subrange(s, from, n);
        let ghost before = r@;
        r.push(piece);
        assert(texts(r@) =~= texts(before).push(piece@));
        if n == s.len() {
            assert(piece@ =~= s@.skip(from as int));
            return r;
        }
        assert(piece@ =~= s@.skip(from as int).take(n - from));
        assert(s@.skip(from as int).skip(n - from + 1) =~= s@.skip(n + 1));
        from = n + 1;
    }
}

/// `s` without one carriage return at its end.
pub open spec fn without_carriage_return(s: Seq<char>) -> Seq<char> {
    if s.len() > 0 && s.last() == '\r' {
        s.drop_last()
    } else {
        s
    }
}

/// The lines of `s`.  A line feed, or a carriage return with a line feed, ends a
/// line; the last line need not be ended, and no empty line follows the last end.
pub open spec fn lines(s: Seq<char>) -> Seq<Seq<char>>
    decreases s.len() via lines_decreases
{
    let n = first_index(s, '\n');
    if s.len() == 0 {
        Seq::empty()
    } else if n >= s.len() {
        seq![s]
    } else {
        seq![without_carriage_return(s.take(n))] + lines(s.skip(n + 1))
    }
}

#[via_fn]
proof fn lines_decreases(s: Seq<char>) {
    lemma_first_index_bounds(s, '\n');
}

/// The lines of a text.
pub fn text_lines<'a>(s: &'a [char]) -> (r: Vec<&'a [char]>)
    ensures
        texts(r@) == lines(s@),
{
    let mut r: Vec<&'a [char]> = Vec::new();
    let mut from: usize = 0;
    assert(s@.skip(0) =~= s@);
    while from < s.len()
        invariant
            from <= s@.len(),
            lines(s@) =~= texts(r@) + lines(s@.skip(from as int)),
        decreases s@.len() - from,
    {
        let n = find_from(s, from, '\n');
        let mut to: usize = n;
        if n < s.len() && to > from && s[to - 1] == '\r' {
            to -= 1;
        }
        let line = slice_subrange(s, from, to);
        let ghost before = r@;
        r.push(line);
        assert(texts(r@) =~= texts(before).push(line@));
        if n == s.len() {
            assert(line@ =~= s@.skip(from as int));
            assert(s@.skip(n as int) =~= Seq::empty());
            from = n;
        } else {
            let ghost full = s@.skip(from as int).take(n - from);
            assert(full.len() > 0 ==> full.last() == s@[n - 1]);
            assert(line@ =~= without_carriage_return(full));
            assert(s@.skip(from as int).skip(n - from + 1) =~= s@.skip(n + 1));
            from = n + 1;
        }
    }
    assert(s@.skip(from as int) =~= Seq::empty());
    r
}

// ---- replacement ----

/// `s` without the occurrences of `pattern`, taken from left to right so that
/// no two of them overlap.
pub open spec fn remove_all(s: Seq<char>, pattern: Seq<char>) -> Seq<char>
    decreases s.len(),
{
    if s.len() == 0 || pattern.len() == 0 {
        s
    } else if starts_with(s, pattern) {
        remove_all(s.skip(pattern.len() as int), pattern)
    } else {
        seq![s[0]] + remove_all(s.skip(1), pattern)
    }
}

/// A text without the occurrences of `pattern`.
pub fn removed(s: &[char], pattern: &str) -> (r: String)
    ensures
        r@ == remove_all(s@, pattern@),
{
    let pattern_chars = to_chars(pattern);
    if pattern_chars.len() == 0 {
        return from_chars(s);
    }
    let mut r = String::new();
    let mut i: usize = 0;
    assert(s@.skip(0) =~= s@);
    while i < s.len()
        invariant
            i <= s@.len(),
            pattern_chars@ == pattern@,
            pattern_chars@.len() > 0,
            remove_all(s@, pattern@) =~= r@ + remove_all(s@.skip(i as int), pattern@),
        decreases s@.len() - i,
    {
        let ghost rest = s@.skip(i as int);
        assert(pattern@.len() <= rest.len() ==> rest.take(pattern@.len() as int) =~= s@.subrange(
            i as int,
            i + pattern@.len(),
        ));
        if matches_at(s, i, pattern_chars.as_slice()) {
            assert(rest.skip(pattern@.len() as int) =~= s@.skip(i + pattern@.len()));
            i += pattern_chars.len();
        } else {
            assert(rest.skip(1) =~= s@.skip(i + 1));
            r.push(s[i]);
            i += 1;
        }
    }
    assert(s@.skip(i as int) =~= Seq::empty());
    r
}

// ---- facts ----

/// A text without white space at its ends is trimmed already.
pub proof fn lemma_trim_fixed(s: Seq<char>)
    requires
        s.len() > 0 ==> !white_space(s[0]) && !white_space(s.last()),
    ensures
        trim(s) == s,
{
}

/// White space after a text is trimmed off.
pub proof fn lemma_trim_then_white_space(s: Seq<char>, c: char)
    requires
        s.len() > 0,
        !white_space(s[0]),
        white_space(c),
    ensures
        trim(s.push(c)) == trim(s),
{
    assert(s.push(c).drop_last() =~= s);
}

/// Nothing is removed where the pattern does not occur.
pub proof fn lemma_remove_all_absent(s: Seq<char>, pattern: Seq<char>)
    requires
        !contains(s, pattern),
    ensures
        remove_all(s, pattern) == s,
    decreases s.len(),
{
    if s.len() > 0 && pattern.len() > 0 {
        if starts_with(s, pattern) {
            assert(s.subrange(0, 0int + pattern.len()) =~= s.take(pattern.len() as int));
            assert(contains(s, pattern));
        }
        assert forall|i: int|
            0 <= i <= s.skip(1).len() - pattern.len() implies #[trigger] s.skip(1).subrange(
            i,
            i + pattern.len(),
        ) != pattern by {
            assert(s.skip(1).subrange(i, i + pattern.len()) =~= s.subrange(
                i + 1,
                i + 1 + pattern.len(),
            ));
        }
        lemma_remove_all_absent(s.skip(1), pattern);
        assert(seq![s[0]] + s.skip(1) =~= s);
    }
}

/// A pattern at the beginning is removed.
pub proof fn lemma_remove_all_prefix(pattern: Seq<char>, s: Seq<char>)
    requires
        pattern.len() > 0,
    ensures
        remove_all(pattern + s, pattern) == remove_all(s, pattern),
{
    assert((pattern + s).take(pattern.len() as int) =~= pattern);
    assert((pattern + s).skip(pattern.len() as int) =~= s);
}

/// A text that begins with a prefix is the prefix and what follows it.
pub proof fn lemma_prefix(prefix: Seq<char>, s: Seq<char>)
    ensures
        starts_with(prefix + s, prefix),
        without_prefix(prefix + s, prefix) == s,
{
    assert((prefix + s).take(prefix.len() as int) =~= prefix);
    assert((prefix + s).skip(prefix.len() as int) =~= s);
}

/// The text of some lines, each ended by a line feed.
pub open spec fn ended_lines(lines: Seq<Seq<char>>) -> Seq<char>
    decreases lines.len(),
{
    if lines.len() == 0 {
        Seq::empty()
    } else {
        lines[0] + seq!['\n'] + ended_lines(lines.skip(1))
    }
}

/// A text that stands in one line: it holds no line feed and does not end with a
/// carriage return.
pub open spec fn one_line(line: Seq<char>) -> bool {
    &&& forall|i: int| 0 <= i < line.len() ==> line[i] != '\n'
    &&& line.len() > 0 ==> line.last() != '\r'
}

/// One more line at the end.
pub proof fn lemma_ended_lines_push(lines: Seq<Seq<char>>, last: Seq<char>)
    ensures
        ended_lines(lines.push(last)) == ended_lines(lines) + last + seq!['\n'],
    decreases lines.len(),
{
    let longer = lines.push(last);
    if lines.len() == 0 {
        assert(longer.skip(1) =~= lines);
    } else {
        assert(longer.skip(1) =~= lines.skip(1).push(last));
        lemma_ended_lines_push(lines.skip(1), last);
    }
    assert(ended_lines(longer) =~= ended_lines(lines) + last + seq!['\n']);
}

/// The lines of a text are those that it was made of.  What follows the last line
/// feed is a line of its own unless it is empty.
pub proof fn lemma_lines_of_text(all: Seq<Seq<char>>, last: Seq<char>)
    requires
        forall|i: int| 0 <= i < all.len() ==> one_line(#[trigger] all[i]),
        one_line(last),
    ensures
        lines(ended_lines(all) + last) == (if last.len() == 0 {
            all
        } else {
            all.push(last)
        }),
    decreases all.len(),
{
    let s = ended_lines(all) + last;
    if all.len() == 0 {
        assert(s =~= last);
        lemma_first_index(s, '\n', s.len() as int);
        assert(last.len() == 0 ==> lines(s) =~= all);
        assert(last.len() > 0 ==> lines(s) =~= all.push(last));
    } else {
        let line = all[0];
        let rest = ended_lines(all.skip(1)) + last;
        assert(s =~= line + seq!['\n'] + rest);
        lemma_first_index(s, '\n', line.len() as int);
        assert(s.take(line.len() as int) =~= line);
        assert(s.skip(line.len() as int + 1) =~= rest);
        assert forall|i: int| 0 <= i < all.skip(1).len() implies one_line(
            #[trigger] all.skip(1)[i],
        ) by {
            assert(all.skip(1)[i] == all[i + 1]);
        }
        lemma_lines_of_text(all.skip(1), last);
        assert(lines(s) == seq![line] + lines(rest));
        assert(last.len() == 0 ==> lines(s) =~= all);
        assert(last.len() > 0 ==> lines(s) =~= all.push(last));
    }
}

} // verus!
