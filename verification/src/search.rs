//! Finding and splitting: separators, substrings, prefixes.

use vstd::prelude::*;
use crate::text::texts;

verus! {

/// Index of the first `c` in `s`, or `s.len()` where there is none.
pub open spec fn first_index(s: Seq<char>, c: char) -> int
    decreases s.len(),
{
    if s.len() == 0 {
        0
    } else if s[0] == c {
        0
    } else {
        1 + first_index(s.skip(1), c)
    }
}

/// The pieces of `s` between occurrences of `sep`; never empty.
pub open spec fn split(s: Seq<char>, sep: char) -> Seq<Seq<char>>
    decreases s.len(),
{
    let k = first_index(s, sep);
    if 0 <= k < s.len() {
        seq![s.take(k)] + split(s.skip(k + 1), sep)
    } else {
        seq![s]
    }
}

/// `first_index` is the position before which no `c` stands.
pub proof fn lemma_first_index(s: Seq<char>, c: char, k: int)
    requires
        0 <= k <= s.len(),
        forall|i: int| 0 <= i < k ==> #[trigger] s[i] != c,
        k == s.len() || s[k] == c,
    ensures
        first_index(s, c) == k,
    decreases k,
{
    if k > 0 {
        let t = s.skip(1);
        assert forall|i: int| 0 <= i < k - 1 implies #[trigger] t[i] != c by {
            assert(t[i] == s[i + 1]);
        }
        if k < s.len() {
            assert(t[k - 1] == s[k]);
        }
        lemma_first_index(t, c, k - 1);
    }
}

/// A text without the separator is one piece.
pub proof fn lemma_split_whole(s: Seq<char>, sep: char)
    requires
        forall|i: int| 0 <= i < s.len() ==> #[trigger] s[i] != sep,
    ensures
        split(s, sep) == seq![s],
{
    lemma_first_index(s, sep, s.len() as int);
}

/// The first piece ends at the first separator; the other pieces are the
/// pieces of what follows it.
pub proof fn lemma_split_first(a: Seq<char>, rest: Seq<char>, sep: char)
    requires
        forall|i: int| 0 <= i < a.len() ==> #[trigger] a[i] != sep,
    ensures
        split(a + seq![sep] + rest, sep) == seq![a] + split(rest, sep),
{
    let s = a + seq![sep] + rest;
    assert forall|i: int| 0 <= i < a.len() implies #[trigger] s[i] != sep by {
        assert(s[i] == a[i]);
    }
    assert(s[a.len() as int] == sep);
    lemma_first_index(s, sep, a.len() as int);
    assert(s.take(a.len() as int) =~= a);
    assert(s.skip(a.len() as int + 1) =~= rest);
}

/// The pieces of `v` between occurrences of `sep`.
pub fn split_chars(v: &[char], sep: char) -> (parts: Vec<Vec<char>>)
    ensures
        texts(parts@) == split(v@, sep),
        parts.len() >= 1,
{
    let mut parts: Vec<Vec<char>> = Vec::new();
    let mut start: usize = 0;
    let mut i: usize = 0;
    assert(texts(parts@) =~= Seq::<Seq<char>>::empty());
    assert(v@.skip(0) == v@);
    while i < v.len()
        invariant
            start <= i <= v.len(),
            forall|j: int| start <= j < i ==> #[trigger] v@[j] != sep,
            split(v@, sep) == texts(parts@) + split(v@.skip(start as int), sep),
        decreases v.len() - i,
    {
        if v[i] == sep {
            let piece = crate::text::copy_range(v, start, i);
            proof {
                let t = v@.skip(start as int);
                assert forall|j: int| 0 <= j < i - start implies #[trigger] t[j] != sep by {
                    assert(t[j] == v@[j + start]);
                }
                lemma_first_index(t, sep, i - start);
                assert(t.take(i - start) == piece@);
                assert(t.skip(i - start + 1) == v@.skip(i + 1));
                assert(texts(parts@).push(piece@) + split(v@.skip(i + 1), sep)
                    == texts(parts@) + (seq![piece@] + split(v@.skip(i + 1), sep)));
            }
            let ghost before = texts(parts@);
            parts.push(piece);
            assert(texts(parts@) =~= before.push(piece@));
            start = i + 1;
        }
        i += 1;
    }
    let piece = crate::text::copy_range(v, start, v.len());
    proof {
        let t = v@.skip(start as int);
        assert forall|j: int| 0 <= j < t.len() implies #[trigger] t[j] != sep by {
            assert(t[j] == v@[j + start]);
        }
        lemma_first_index(t, sep, t.len() as int);
        assert(t == piece@);
        assert(split(t, sep) == seq![t]);
    }
    let ghost before = texts(parts@);
    parts.push(piece);
    assert(texts(parts@) =~= before.push(piece@));
    assert(before.push(piece@) == before + seq![piece@]);
    parts
}

/// Whether `needle` stands in `hay` at position `i`.
pub open spec fn occurs_at(hay: Seq<char>, needle: Seq<char>, i: int) -> bool {
    &&& 0 <= i
    &&& i + needle.len() <= hay.len()
    &&& hay.subrange(i, i + needle.len()) == needle
}

/// Whether `needle` stands somewhere in `hay`.
pub open spec fn contains(hay: Seq<char>, needle: Seq<char>) -> bool {
    exists|i: int| occurs_at(hay, needle, i)
}

/// Whether `hay` begins with `prefix`.
pub open spec fn starts_with(hay: Seq<char>, prefix: Seq<char>) -> bool {
    occurs_at(hay, prefix, 0)
}

pub fn occurs_at_chars(hay: &[char], needle: &[char], i: usize) -> (r: bool)
    ensures
        r == occurs_at(hay@, needle@, i as int),
{
    if needle.len() > hay.len() || i > hay.len() - needle.len() {
        return false;
    }
    let mut j: usize = 0;
    while j < needle.len()
        invariant
            j <= needle.len(),
            i + needle.len() <= hay.len(),
            hay@.subrange(i as int, i + j) == needle@.take(j as int),
        decreases needle.len() - j,
    {
        if hay[i + j] != needle[j] {
            proof {
                let w = hay@.subrange(i as int, i + needle.len());
                assert(w[j as int] == hay@[i + j]);
            }
            return false;
        }
        assert(hay@.subrange(i as int, i + j + 1) == hay@.subrange(i as int, i + j).push(
            hay@[i + j],
        ));
        assert(needle@.take(j + 1) == needle@.take(j as int).push(needle@[j as int]));
        j += 1;
    }
    assert(needle@.take(needle.len() as int) == needle@);
    true
}

pub fn contains_chars(hay: &[char], needle: &[char]) -> (r: bool)
    ensures
        r == contains(hay@, needle@),
{
    if needle.len() > hay.len() {
        return false;
    }
    let last: usize = hay.len() - needle.len();
    let mut i: usize = 0;
    while i <= last
        invariant
            i <= last,
            last == hay.len() - needle.len(),
            forall|k: int| 0 <= k < i ==> !occurs_at(hay@, needle@, k),
        decreases last - i,
    {
        if occurs_at_chars(hay, needle, i) {
            return true;
        }
        if i == last {
            return false;
        }
        i += 1;
    }
    false
}

/// Whether `needle` stands somewhere in `hay`.
pub fn contains_str(hay: &[char], needle: &str) -> (r: bool)
    ensures
        r == contains(hay@, needle@),
{
    let n = crate::text::chars_of(needle);
    contains_chars(hay, n.as_slice())
}

pub fn starts_with_str(hay: &[char], prefix: &str) -> (r: bool)
    ensures
        r == starts_with(hay@, prefix@),
{
    let n = crate::text::chars_of(prefix);
    occurs_at_chars(hay, n.as_slice(), 0)
}

/// A relative path that names no parent directory stays under the root it
/// is joined to: the result begins with the root, and what follows the
/// root names no parent directory.
pub proof fn lemma_join_stays_under(root: Seq<char>, rel: Seq<char>)
    requires
        !contains(rel, ".."@),
    ensures
        ({
            let p = crate::text::join_path(root, rel);
            &&& starts_with(p, root)
            &&& !contains(p.skip(root.len() as int), ".."@)
        }),
{
    reveal_strlit("..");
    reveal_strlit("/");
    let p = crate::text::join_path(root, rel);
    let tail = p.skip(root.len() as int);
    assert(p.subrange(0, root.len() as int) =~= root);
    let dots = ".."@;
    if root.len() == 0 || root.last() == '/' {
        assert(tail =~= rel);
    } else {
        assert(tail =~= "/"@ + rel);
        assert forall|i: int| !occurs_at(tail, dots, i) by {
            if occurs_at(tail, dots, i) {
                let w = tail.subrange(i, i + 2);
                assert(w[0] == '.' && w[1] == '.');
                if i == 0 {
                    assert(tail[0] == '/');
                } else {
                    assert(rel.subrange(i - 1, i + 1) =~= w);
                    assert(occurs_at(rel, dots, i - 1));
                }
            }
        }
    }
}

} // verus!
