//! Character-level text operations with exact specifications over `Seq<char>`.
//!
//! Every executable function here works on the characters of its arguments
//! and is specified by a spec function of the same name prefixed with `spec_`
//! or by one of the predicates below.

use vstd::prelude::*;
use vstd::std_specs::iter::IteratorSpec;

verus! {

/// `String::push` appends one character to the end of the string.
pub assume_specification[ String::push ](s: &mut String, c: char)
    ensures
        final(s)@ == old(s)@.push(c),
;

/// The characters of `s`, in order.
pub fn chars_of(s: &str) -> (out: Vec<char>)
    ensures
        out@ == s@,
{
    let mut out: Vec<char> = Vec::new();
    let mut it = s.chars();
    loop
        invariant
            it.obeys_prophetic_iter_laws(),
            out@ + it.remaining() == s@,
            it.decrease() is Some,
        decreases it.decrease()->0,
    {
        match it.next() {
            Some(c) => {
                out.push(c);
            },
            None => {
                return out;
            },
        }
    }
}

/// The string made of the characters of `chars`, in order.
pub fn string_of(chars: &Vec<char>) -> (out: String)
    ensures
        out@ == chars@,
{
    let mut out = String::new();
    let mut i: usize = 0;
    while i < chars.len()
        invariant
            i <= chars.len(),
            out@ == chars@.subrange(0, i as int),
        decreases chars.len() - i,
    {
        out.push(chars[i]);
        i += 1;
    }
    out
}

/// `needle` occurs in `hay` starting at position `at`.
pub open spec fn occurs_at(hay: Seq<char>, needle: Seq<char>, at: int) -> bool {
    &&& 0 <= at
    &&& at + needle.len() <= hay.len()
    &&& hay.subrange(at, at + needle.len()) == needle
}

/// `needle` occurs somewhere in `hay` as a contiguous run of characters.
pub open spec fn spec_contains(hay: Seq<char>, needle: Seq<char>) -> bool {
    exists|at: int| occurs_at(hay, needle, at)
}

/// `prefix` occurs at the very start of `s`.
pub open spec fn spec_starts_with(s: Seq<char>, prefix: Seq<char>) -> bool {
    occurs_at(s, prefix, 0)
}

/// Whether `needle` occurs in `hay` at character position `at`.
pub fn matches_at(hay: &Vec<char>, needle: &Vec<char>, at: usize) -> (found: bool)
    ensures
        found == occurs_at(hay@, needle@, at as int),
{
    if needle.len() > hay.len() || at > hay.len() - needle.len() {
        return false;
    }
    let mut j: usize = 0;
    while j < needle.len()
        invariant
            j <= needle.len(),
            at + needle.len() <= hay.len(),
            forall|k: int| 0 <= k < j ==> hay@[at + k] == needle@[k],
        decreases needle.len() - j,
    {
        if hay[at + j] != needle[j] {
            assert(hay@.subrange(at as int, at + needle.len())[j as int] == hay@[at + j]);
            return false;
        }
        j += 1;
    }
    assert(hay@.subrange(at as int, at + needle.len()) =~= needle@);
    true
}

/// Whether `needle` occurs anywhere in `hay`.
pub fn contains_chars(hay: &Vec<char>, needle: &Vec<char>) -> (found: bool)
    ensures
        found == spec_contains(hay@, needle@),
{
    if needle.len() > hay.len() {
        return false;
    }
    if needle.len() == 0 {
        assert(hay@.subrange(0, 0) =~= needle@);
        assert(occurs_at(hay@, needle@, 0));
        return true;
    }
    let last: usize = hay.len() - needle.len();
    let mut at: usize = 0;
    while at <= last
        invariant
            at <= last + 1,
            last < hay.len(),
            last == hay.len() - needle.len(),
            forall|k: int| 0 <= k < at ==> !occurs_at(hay@, needle@, k),
        decreases last + 1 - at,
    {
        if matches_at(hay, needle, at) {
            return true;
        }
        at += 1;
    }
    false
}

/// Substring test on strings: whether the characters of `needle` occur in
/// `hay` as a contiguous run. The empty needle occurs in every string.
pub fn contains(hay: &str, needle: &str) -> (found: bool)
    ensures
        found == spec_contains(hay@, needle@),
{
    let h = chars_of(hay);
    let n = chars_of(needle);
    contains_chars(&h, &n)
}

/// The characters that Unicode gives the property `White_Space`.
pub open spec fn spec_is_whitespace(c: char) -> bool {
    let n = c as u32;
    ||| (0x09 <= n && n <= 0x0D)
    ||| n == 0x20
    ||| n == 0x85
    ||| n == 0xA0
    ||| n == 0x1680
    ||| (0x2000 <= n && n <= 0x200A)
    ||| n == 0x2028
    ||| n == 0x2029
    ||| n == 0x202F
    ||| n == 0x205F
    ||| n == 0x3000
}

/// Whether `c` is a white-space character.
pub fn is_whitespace(c: char) -> (white: bool)
    ensures
        white == spec_is_whitespace(c),
{
    let n: u32 = c as u32;
    (0x09 <= n && n <= 0x0D) || n == 0x20 || n == 0x85 || n == 0xA0 || n == 0x1680 || (0x2000 <= n
        && n <= 0x200A) || n == 0x2028 || n == 0x2029 || n == 0x202F || n == 0x205F || n == 0x3000
}

/// `s` without its leading white space.
pub open spec fn spec_trim_start(s: Seq<char>) -> Seq<char>
    decreases s.len(),
{
    if s.len() > 0 && spec_is_whitespace(s[0]) {
        spec_trim_start(s.skip(1))
    } else {
        s
    }
}

/// `s` without its trailing white space.
pub open spec fn spec_trim_end(s: Seq<char>) -> Seq<char>
    decreases s.len(),
{
    if s.len() > 0 && spec_is_whitespace(s.last()) {
        spec_trim_end(s.drop_last())
    } else {
        s
    }
}

/// `s` without its leading and trailing white space.
pub open spec fn spec_trim(s: Seq<char>) -> Seq<char> {
    spec_trim_end(spec_trim_start(s))
}

/// The characters of `s` from `from` up to, not including, `to`.
pub fn slice_chars(s: &Vec<char>, from: usize, to: usize) -> (out: Vec<char>)
    requires
        from <= to <= s.len(),
    ensures
        out@ == s@.subrange(from as int, to as int),
{
    let mut out: Vec<char> = Vec::new();
    let mut i: usize = from;
    while i < to
        invariant
            from <= i <= to <= s.len(),
            out@ == s@.subrange(from as int, i as int),
        decreases to - i,
    {
        out.push(s[i]);
        i += 1;
    }
    out
}

/// Strips leading and trailing white space.
pub fn trim_chars(s: &Vec<char>) -> (out: Vec<char>)
    ensures
        out@ == spec_trim(s@),
{
    let mut start: usize = 0;
    assert(s@.skip(0) =~= s@);
    while start < s.len() && is_whitespace(s[start])
        invariant
            start <= s.len(),
            spec_trim_start(s@) == spec_trim_start(s@.skip(start as int)),
        decreases s.len() - start,
    {
        assert(s@.skip(start as int).skip(1) =~= s@.skip(start + 1));
        start += 1;
    }
    assert(spec_trim_start(s@) == s@.skip(start as int));
    let mut end: usize = s.len();
    assert(s@.skip(start as int) =~= s@.subrange(start as int, end as int));
    while end > start && is_whitespace(s[end - 1])
        invariant
            start <= end <= s.len(),
            spec_trim(s@) == spec_trim_end(s@.subrange(start as int, end as int)),
        decreases end,
    {
        assert(s@.subrange(start as int, end as int).drop_last() =~= s@.subrange(
            start as int,
            end - 1,
        ));
        end -= 1;
    }
    slice_chars(s, start, end)
}

/// The pieces of `s` between the occurrences of `sep`: one more piece than
/// there are separators, empty pieces included.
pub open spec fn spec_split(s: Seq<char>, sep: char) -> Seq<Seq<char>>
    decreases s.len(),
{
    if s.len() == 0 {
        seq![Seq::<char>::empty()]
    } else {
        let before = spec_split(s.drop_last(), sep);
        if s.last() == sep {
            before.push(Seq::<char>::empty())
        } else {
            before.drop_last().push(before.last().push(s.last()))
        }
    }
}

/// The contents of a vector of character vectors.
pub open spec fn piece_views(pieces: Seq<Vec<char>>) -> Seq<Seq<char>> {
    Seq::new(pieces.len(), |i: int| pieces[i]@)
}

/// Splits `s` at every occurrence of `sep`.
pub fn split_chars(s: &Vec<char>, sep: char) -> (pieces: Vec<Vec<char>>)
    ensures
        piece_views(pieces@) == spec_split(s@, sep),
{
    let mut pieces: Vec<Vec<char>> = Vec::new();
    let mut current: Vec<char> = Vec::new();
    let mut i: usize = 0;
    assert(s@.subrange(0, 0) =~= Seq::<char>::empty());
    assert(piece_views(pieces@).push(current@) =~= spec_split(s@.subrange(0, 0), sep));
    while i < s.len()
        invariant
            i <= s.len(),
            piece_views(pieces@).push(current@) == spec_split(s@.subrange(0, i as int), sep),
        decreases s.len() - i,
    {
        let ghost prefix = s@.subrange(0, i as int);
        let ghost next = s@.subrange(0, i + 1);
        let ghost before = spec_split(prefix, sep);
        assert(next.drop_last() =~= prefix);
        assert(next.last() == s@[i as int]);
        assert(before.last() == current@);
        assert(before.drop_last() =~= piece_views(pieces@));
        let c = s[i];
        if c == sep {
            let ghost old_pieces = pieces@;
            pieces.push(current);
            current = Vec::new();
            assert(piece_views(pieces@) =~= before);
            assert(piece_views(pieces@).push(current@) =~= spec_split(next, sep));
        } else {
            current.push(c);
            assert(piece_views(pieces@).push(current@) =~= spec_split(next, sep));
        }
        i += 1;
    }
    assert(s@.subrange(0, i as int) =~= s@);
    let ghost before = piece_views(pieces@);
    pieces.push(current);
    assert(piece_views(pieces@) =~= before.push(current@));
    pieces
}

/// The maximal runs of characters of `s` that are not white space, in order.
pub open spec fn spec_words(s: Seq<char>) -> Seq<Seq<char>>
    decreases s.len(),
{
    if s.len() == 0 {
        Seq::empty()
    } else {
        let before = spec_words(s.drop_last());
        if spec_is_whitespace(s.last()) {
            before
        } else if s.len() >= 2 && !spec_is_whitespace(s[s.len() - 2]) {
            before.drop_last().push(before.last().push(s.last()))
        } else {
            before.push(seq![s.last()])
        }
    }
}

/// The pieces one after another, with `sep` between neighbours.
pub open spec fn spec_join(pieces: Seq<Seq<char>>, sep: Seq<char>) -> Seq<char>
    decreases pieces.len(),
{
    if pieces.len() == 0 {
        Seq::empty()
    } else if pieces.len() == 1 {
        pieces[0]
    } else {
        spec_join(pieces.drop_last(), sep) + sep + pieces.last()
    }
}

/// The words of `s` with a single space between neighbours: `s` with every
/// run of white space turned into one space and none at either end.
pub open spec fn spec_collapse_whitespace(s: Seq<char>) -> Seq<char> {
    spec_join(spec_words(s), seq![' '])
}

/// A sequence that ends in a character that is no white space has a last
/// word, and that word is not empty.
pub proof fn lemma_words_last(s: Seq<char>)
    requires
        s.len() > 0,
        !spec_is_whitespace(s.last()),
    ensures
        spec_words(s).len() >= 1,
        spec_words(s).last().len() >= 1,
    decreases s.len(),
{
    if s.len() >= 2 && !spec_is_whitespace(s[s.len() - 2]) {
        assert(s.drop_last().last() == s[s.len() - 2]);
        lemma_words_last(s.drop_last());
    }
}

/// Turns every run of white space into one space and strips both ends.
pub fn collapse_whitespace_chars(s: &Vec<char>) -> (out: Vec<char>)
    ensures
        out@ == spec_collapse_whitespace(s@),
{
    let mut out: Vec<char> = Vec::new();
    let mut i: usize = 0;
    assert(s@.subrange(0, 0) =~= Seq::<char>::empty());
    while i < s.len()
        invariant
            i <= s.len(),
            out@ == spec_collapse_whitespace(s@.subrange(0, i as int)),
            (out@.len() == 0) == (spec_words(s@.subrange(0, i as int)).len() == 0),
        decreases s.len() - i,
    {
        let ghost prefix = s@.subrange(0, i as int);
        let ghost next = s@.subrange(0, i + 1);
        let ghost before = spec_words(prefix);
        let ghost space = seq![' '];
        assert(next.drop_last() =~= prefix);
        assert(next.last() == s@[i as int]);
        let c = s[i];
        if !is_whitespace(c) {
            if i > 0 && !is_whitespace(s[i - 1]) {
                assert(next[next.len() - 2] == s@[i - 1]);
                assert(prefix.last() == s@[i - 1]);
                proof {
                    lemma_words_last(prefix);
                    let grown = before.drop_last().push(before.last().push(c));
                    assert(spec_words(next) == grown);
                    assert(grown.drop_last() =~= before.drop_last());
                    if before.len() == 1 {
                        assert(spec_join(before, space) == before[0]);
                        assert(spec_join(grown, space) == grown[0]);
                    } else {
                        assert(spec_join(before, space) == spec_join(before.drop_last(), space)
                            + space + before.last());
                        assert(spec_join(grown, space) == spec_join(grown.drop_last(), space)
                            + space + grown.last());
                        assert(spec_join(grown, space) =~= spec_join(before, space).push(c));
                    }
                }
                out.push(c);
            } else {
                proof {
                    if i > 0 {
                        assert(next[next.len() - 2] == s@[i - 1]);
                    }
                    let grown = before.push(seq![c]);
                    assert(spec_words(next) == grown);
                    assert(grown.drop_last() =~= before);
                }
                if out.len() > 0 {
                    out.push(' ');
                    out.push(c);
                    assert(out@ =~= spec_join(before, space) + space + seq![c]);
                } else {
                    out.push(c);
                    assert(out@ =~= seq![c]);
                }
            }
        }
        i += 1;
    }
    assert(s@.subrange(0, i as int) =~= s@);
    out
}

/// `s` with every occurrence of `pattern` replaced by `to`, found from left
/// to right without overlap. An empty pattern replaces nothing.
pub open spec fn spec_replace(s: Seq<char>, pattern: Seq<char>, to: Seq<char>) -> Seq<char>
    decreases s.len(),
{
    if pattern.len() == 0 || s.len() == 0 {
        s
    } else if spec_starts_with(s, pattern) {
        to + spec_replace(s.skip(pattern.len() as int), pattern, to)
    } else {
        seq![s[0]] + spec_replace(s.skip(1), pattern, to)
    }
}

/// Replaces every occurrence of `pattern` in `s` by `to`.
pub fn replace_chars(s: &Vec<char>, pattern: &Vec<char>, to: &Vec<char>) -> (out: Vec<char>)
    ensures
        out@ == spec_replace(s@, pattern@, to@),
{
    if pattern.len() == 0 {
        return slice_chars(s, 0, s.len());
    }
    let mut out: Vec<char> = Vec::new();
    let mut i: usize = 0;
    assert(s@.skip(0) =~= s@);
    while i < s.len()
        invariant
            i <= s.len(),
            pattern.len() > 0,
            out@ + spec_replace(s@.skip(i as int), pattern@, to@) == spec_replace(
                s@,
                pattern@,
                to@,
            ),
        decreases s.len() - i,
    {
        let ghost rest = s@.skip(i as int);
        let ghost done = out@;
        if matches_at(s, pattern, i) {
            assert(rest.subrange(0, pattern.len() as int) =~= s@.subrange(
                i as int,
                i + pattern.len(),
            ));
            assert(rest.skip(pattern.len() as int) =~= s@.skip(i + pattern.len()));
            let mut j: usize = 0;
            while j < to.len()
                invariant
                    j <= to.len(),
                    out@ == done + to@.subrange(0, j as int),
                decreases to.len() - j,
            {
                out.push(to[j]);
                assert(out@ =~= done + to@.subrange(0, j + 1));
                j += 1;
            }
            assert(to@.subrange(0, to.len() as int) =~= to@);
            assert(out@ + spec_replace(s@.skip(i + pattern.len()), pattern@, to@) =~= done
                + spec_replace(rest, pattern@, to@));
            i += pattern.len();
        } else {
            proof {
                if i + pattern.len() <= s.len() {
                    assert(rest.subrange(0, pattern.len() as int) =~= s@.subrange(
                        i as int,
                        i + pattern.len(),
                    ));
                }
            }
            assert(!spec_starts_with(rest, pattern@));
            assert(rest.skip(1) =~= s@.skip(i + 1));
            out.push(s[i]);
            assert(out@ + spec_replace(s@.skip(i + 1), pattern@, to@) =~= done + spec_replace(
                rest,
                pattern@,
                to@,
            ));
            i += 1;
        }
    }
    assert(out@ + Seq::<char>::empty() =~= out@);
    out
}

/// Whether two character vectors hold the same characters.
pub fn same_chars(a: &Vec<char>, b: &Vec<char>) -> (same: bool)
    ensures
        same == (a@ == b@),
{
    if a.len() != b.len() {
        return false;
    }
    let found = matches_at(a, b, 0);
    assert(a@.subrange(0, a@.len() as int) =~= a@);
    found
}

/// Joins the pieces with `sep` between neighbours.
pub fn join(pieces: &Vec<String>, sep: &str) -> (out: String)
    ensures
        out@ == spec_join(pieces.deep_view(), sep@),
{
    let mut out: Vec<char> = Vec::new();
    let mut i: usize = 0;
    let ghost all = pieces.deep_view();
    assert(all.take(0) =~= Seq::<Seq<char>>::empty());
    while i < pieces.len()
        invariant
            i <= pieces.len(),
            all == pieces.deep_view(),
            out@ == spec_join(all.take(i as int), sep@),
        decreases pieces.len() - i,
    {
        let ghost before = all.take(i as int);
        let ghost next = all.take(i + 1);
        assert(next.drop_last() =~= before);
        assert(next.last() == pieces@[i as int]@);
        if i > 0 {
            let mut between = chars_of(sep);
            out.append(&mut between);
        }
        let mut piece = chars_of(pieces[i].as_str());
        out.append(&mut piece);
        i += 1;
    }
    assert(all.take(i as int) =~= all);
    string_of(&out)
}

/// Whether two strings hold the same characters.
pub fn same_text(a: &str, b: &str) -> (same: bool)
    ensures
        same == (a@ == b@),
{
    let a_chars = chars_of(a);
    let b_chars = chars_of(b);
    same_chars(&a_chars, &b_chars)
}

/// `c` does not occur in `s`.
pub open spec fn lacks(s: Seq<char>, c: char) -> bool {
    forall|i: int| 0 <= i < s.len() ==> s[i] != c
}

/// A text without the separator is its own single piece.
pub proof fn lemma_split_whole(s: Seq<char>, sep: char)
    requires
        lacks(s, sep),
    ensures
        spec_split(s, sep) == seq![s],
    decreases s.len(),
{
    if s.len() == 0 {
        assert(s =~= Seq::<char>::empty());
    } else {
        lemma_split_whole(s.drop_last(), sep);
        let before = spec_split(s.drop_last(), sep);
        assert(before.drop_last().push(before.last().push(s.last())) =~= seq![
            s.drop_last().push(s.last()),
        ]);
        assert(s.drop_last().push(s.last()) =~= s);
    }
}

/// A separator followed by a text without separators adds that text as the
/// last piece.
pub proof fn lemma_split_last(s: Seq<char>, t: Seq<char>, sep: char)
    requires
        lacks(t, sep),
    ensures
        spec_split(s + seq![sep] + t, sep) == spec_split(s, sep).push(t),
    decreases t.len(),
{
    let whole = s + seq![sep] + t;
    if t.len() == 0 {
        assert(whole.drop_last() =~= s);
        assert(t =~= Seq::<char>::empty());
    } else {
        let shorter = t.drop_last();
        lemma_split_last(s, shorter, sep);
        assert(whole.drop_last() =~= s + seq![sep] + shorter);
        assert(whole.last() == t.last());
        let before = spec_split(whole.drop_last(), sep);
        assert(before.drop_last() =~= spec_split(s, sep));
        assert(shorter.push(t.last()) =~= t);
    }
}

/// Leading white space does not survive a trim.
pub proof fn lemma_trim_start_skips(white: Seq<char>, s: Seq<char>)
    requires
        forall|i: int| 0 <= i < white.len() ==> spec_is_whitespace(white[i]),
    ensures
        spec_trim_start(white + s) == spec_trim_start(s),
    decreases white.len(),
{
    if white.len() == 0 {
        assert(white + s =~= s);
    } else {
        assert((white + s).skip(1) =~= white.skip(1) + s);
        lemma_trim_start_skips(white.skip(1), s);
    }
}

/// Trailing white space does not survive a trim.
pub proof fn lemma_trim_end_skips(s: Seq<char>, white: Seq<char>)
    requires
        forall|i: int| 0 <= i < white.len() ==> spec_is_whitespace(white[i]),
    ensures
        spec_trim_end(s + white) == spec_trim_end(s),
    decreases white.len(),
{
    if white.len() == 0 {
        assert(s + white =~= s);
    } else {
        assert((s + white).drop_last() =~= s + white.drop_last());
        lemma_trim_end_skips(s, white.drop_last());
    }
}

/// White space around a text that neither begins nor ends with white space
/// is all that a trim takes away.
pub proof fn lemma_trim_padded(before: Seq<char>, s: Seq<char>, after: Seq<char>)
    requires
        forall|i: int| 0 <= i < before.len() ==> spec_is_whitespace(before[i]),
        forall|i: int| 0 <= i < after.len() ==> spec_is_whitespace(after[i]),
        s.len() > 0,
        !spec_is_whitespace(s[0]),
        !spec_is_whitespace(s.last()),
    ensures
        spec_trim(before + s + after) == s,
{
    assert(before + s + after =~= before + (s + after));
    lemma_trim_start_skips(before, s + after);
    assert((s + after)[0] == s[0]);
    lemma_trim_end_skips(s, after);
}

} // verus!
