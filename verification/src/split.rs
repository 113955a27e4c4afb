//! Scanning and splitting of character sequences.

use crate::text::{is_white_space, slice_of, white_space};
use vstd::prelude::*;

verus! {

/// Index of the first `c` in `s` at or after `from`; `s.len()` where there is
/// none.
pub open spec fn find_from(s: Seq<char>, c: char, from: int) -> int
    decreases s.len() - from,
{
    if from < 0 || from >= s.len() {
        s.len() as int
    } else if s[from] == c {
        from
    } else {
        find_from(s, c, from + 1)
    }
}

/// What `find_from` returns lies between `from` and the end, no `c` stands
/// before it, and a `c` stands at it unless it is the end.
pub proof fn lemma_find_from(s: Seq<char>, c: char, from: int)
    requires
        0 <= from <= s.len(),
    ensures
        from <= find_from(s, c, from) <= s.len(),
        forall|j: int| from <= j < find_from(s, c, from) ==> s[j] != c,
        find_from(s, c, from) < s.len() ==> s[find_from(s, c, from)] == c,
    decreases s.len() - from,
{
    if from < s.len() && s[from] != c {
        lemma_find_from(s, c, from + 1);
    }
}

/// The first `c` at or after `from` is at `k` when none stands in between.
pub proof fn lemma_find_from_is(s: Seq<char>, c: char, from: int, k: int)
    requires
        0 <= from <= k <= s.len(),
        forall|j: int| from <= j < k ==> s[j] != c,
        k < s.len() ==> s[k] == c,
    ensures
        find_from(s, c, from) == k,
    decreases k - from,
{
    if from < k {
        lemma_find_from_is(s, c, from + 1, k);
    }
}

/// Finds the first `c` in `v` at or after `from`.
pub fn find(v: &Vec<char>, c: char, from: usize) -> (i: usize)
    requires
        from <= v.len(),
    ensures
        i == find_from(v@, c, from as int),
        from <= i <= v.len(),
{
    let mut i: usize = from;
    while i < v.len() && v[i] != c
        invariant
            from <= i <= v.len(),
            forall|j: int| from <= j < i ==> v@[j] != c,
        decreases v.len() - i,
    {
        i += 1;
    }
    proof {
        lemma_find_from_is(v@, c, from as int, i as int);
    }
    i
}

/// The pieces of `s` from `from` on, cut at every `sep`. There is always at
/// least one piece; two separators in a row give an empty piece.
pub open spec fn split_from(s: Seq<char>, sep: char, from: int) -> Seq<Seq<char>>
    decreases s.len() - from,
{
    if from < 0 || from > s.len() {
        Seq::empty()
    } else {
        let i = find_from(s, sep, from);
        if i >= s.len() {
            seq![s.subrange(from, s.len() as int)]
        } else {
            proof {
                lemma_find_from(s, sep, from);
            }
            seq![s.subrange(from, i)] + split_from(s, sep, i + 1)
        }
    }
}

/// The pieces of `s`, cut at every `sep`.
pub open spec fn split(s: Seq<char>, sep: char) -> Seq<Seq<char>> {
    split_from(s, sep, 0)
}

/// The views of the vectors in `v`, in order.
pub open spec fn views(v: Seq<Vec<char>>) -> Seq<Seq<char>> {
    Seq::new(v.len(), |i: int| v[i]@)
}

/// Cuts `v` at every `sep`.
pub fn split_chars(v: &Vec<char>, sep: char) -> (r: Vec<Vec<char>>)
    ensures
        views(r@) == split(v@, sep),
        r.len() >= 1,
{
    let mut r: Vec<Vec<char>> = Vec::new();
    let mut start: usize = 0;
    loop
        invariant_except_break
            start <= v.len(),
            split(v@, sep) == views(r@) + split_from(v@, sep, start as int),
        ensures
            views(r@) == split(v@, sep),
            r.len() >= 1,
        decreases v.len() - start,
    {
        let i = find(v, sep, start);
        let piece = slice_of(v, start, i);
        let ghost before = views(r@);
        r.push(piece);
        assert(views(r@) == before.push(piece@));
        if i >= v.len() {
            assert(split_from(v@, sep, start as int) == seq![piece@]);
            assert(before.push(piece@) == before + seq![piece@]);
            break ;
        }
        assert(split_from(v@, sep, start as int) == seq![piece@] + split_from(
            v@,
            sep,
            i as int + 1,
        ));
        assert(before + (seq![piece@] + split_from(v@, sep, i as int + 1)) == before.push(piece@)
            + split_from(v@, sep, i as int + 1));
        start = i + 1;
    }
    r
}

/// Index of the first character at or after `from` that is no white space;
/// `s.len()` where there is none.
pub open spec fn skip_space(s: Seq<char>, from: int) -> int
    decreases s.len() - from,
{
    if from < 0 || from >= s.len() {
        s.len() as int
    } else if !is_white_space(s[from]) {
        from
    } else {
        skip_space(s, from + 1)
    }
}

/// Index of the first white-space character at or after `from`; `s.len()`
/// where there is none.
pub open spec fn skip_word(s: Seq<char>, from: int) -> int
    decreases s.len() - from,
{
    if from < 0 || from >= s.len() {
        s.len() as int
    } else if is_white_space(s[from]) {
        from
    } else {
        skip_word(s, from + 1)
    }
}

/// `skip_space` moves forward only, and stops on a character that is no
/// white space.
pub proof fn lemma_skip_space(s: Seq<char>, from: int)
    requires
        0 <= from <= s.len(),
    ensures
        from <= skip_space(s, from) <= s.len(),
        forall|j: int| from <= j < skip_space(s, from) ==> is_white_space(#[trigger] s[j]),
        skip_space(s, from) < s.len() ==> !is_white_space(s[skip_space(s, from)]),
    decreases s.len() - from,
{
    if from < s.len() && is_white_space(s[from]) {
        lemma_skip_space(s, from + 1);
    }
}

/// `skip_word` moves forward only, past at least one character when it
/// starts on one that is no white space.
pub proof fn lemma_skip_word(s: Seq<char>, from: int)
    requires
        0 <= from <= s.len(),
    ensures
        from <= skip_word(s, from) <= s.len(),
        forall|j: int| from <= j < skip_word(s, from) ==> !is_white_space(#[trigger] s[j]),
        skip_word(s, from) < s.len() ==> is_white_space(s[skip_word(s, from)]),
        from < s.len() && !is_white_space(s[from]) ==> from < skip_word(s, from),
    decreases s.len() - from,
{
    if from < s.len() && !is_white_space(s[from]) {
        lemma_skip_word(s, from + 1);
    }
}

/// The words of `s` from `from` on: the longest runs of characters that are
/// no white space, in order. None of them is empty.
pub open spec fn words_from(s: Seq<char>, from: int) -> Seq<Seq<char>>
    decreases s.len() - from,
{
    let a = skip_space(s, from);
    if from < 0 || a >= s.len() {
        Seq::empty()
    } else {
        let b = skip_word(s, a);
        proof {
            lemma_skip_space(s, from);
            lemma_skip_word(s, a);
        }
        seq![s.subrange(a, b)] + words_from(s, b)
    }
}

/// The words of `s`.
pub open spec fn words(s: Seq<char>) -> Seq<Seq<char>> {
    words_from(s, 0)
}

/// Cuts `v` into its words.
pub fn words_of(v: &Vec<char>) -> (r: Vec<Vec<char>>)
    ensures
        views(r@) == words(v@),
{
    let mut r: Vec<Vec<char>> = Vec::new();
    let mut pos: usize = 0;
    loop
        invariant_except_break
            pos <= v.len(),
            words(v@) == views(r@) + words_from(v@, pos as int),
        ensures
            views(r@) == words(v@),
        decreases v.len() - pos,
    {
        let mut a: usize = pos;
        while a < v.len() && white_space(v[a])
            invariant
                pos <= a <= v.len(),
                skip_space(v@, pos as int) == skip_space(v@, a as int),
            decreases v.len() - a,
        {
            a += 1;
        }
        if a >= v.len() {
            assert(words_from(v@, pos as int) == Seq::<Seq<char>>::empty());
            assert(views(r@) + Seq::<Seq<char>>::empty() == views(r@));
            break ;
        }
        let mut b: usize = a;
        while b < v.len() && !white_space(v[b])
            invariant
                a <= b <= v.len(),
                a < v.len(),
                !is_white_space(v@[a as int]),
                b == a || skip_word(v@, a as int) == skip_word(v@, b as int),
                b > a ==> !is_white_space(v@[b - 1]),
            decreases v.len() - b,
        {
            b += 1;
        }
        assert(a < b);
        let piece = slice_of(v, a, b);
        let ghost before = views(r@);
        r.push(piece);
        proof {
            assert(views(r@) == before.push(piece@));
            assert(skip_word(v@, a as int) == b);
            assert(words_from(v@, pos as int) == seq![piece@] + words_from(v@, b as int));
            assert(before + (seq![piece@] + words_from(v@, b as int)) == before.push(piece@)
                + words_from(v@, b as int));
        }
        pos = b;
    }
    r
}

/// `s` without the carriage return that it may end with.
pub open spec fn strip_cr(s: Seq<char>) -> Seq<char> {
    if s.len() > 0 && s.last() == '\r' {
        s.drop_last()
    } else {
        s
    }
}

/// The lines of `s`. A line ends with a line feed, or a carriage return and
/// a line feed; what follows the last line feed is a line of its own unless
/// it is empty.
pub open spec fn lines(s: Seq<char>) -> Seq<Seq<char>> {
    let parts = split(s, '\n');
    Seq::new((parts.len() - 1) as nat, |i: int| strip_cr(parts[i])) + (if parts.last().len()
        == 0 {
        Seq::empty()
    } else {
        seq![parts.last()]
    })
}

/// Cuts `v` into its lines.
pub fn lines_of(v: &Vec<char>) -> (r: Vec<Vec<char>>)
    ensures
        views(r@) == lines(v@),
{
    let parts = split_chars(v, '\n');
    let ghost pieces = split(v@, '\n');
    let n: usize = parts.len() - 1;
    let mut r: Vec<Vec<char>> = Vec::new();
    let mut i: usize = 0;
    while i < n
        invariant
            i <= n,
            n == parts.len() - 1,
            views(parts@) == pieces,
            r.len() == i,
            forall|j: int| 0 <= j < i ==> (#[trigger] r@[j])@ == strip_cr(pieces[j]),
        decreases n - i,
    {
        let p = &parts[i];
        assert(views(parts@)[i as int] == p@);
        let end: usize = if p.len() > 0 && p[p.len() - 1] == '\r' {
            p.len() - 1
        } else {
            p.len()
        };
        let line = slice_of(p, 0, end);
        assert(line@ == strip_cr(p@)) by {
            assert(p@.subrange(0, p@.len() as int) == p@);
        }
        r.push(line);
        i += 1;
    }
    assert(views(parts@)[n as int] == parts@[n as int]@);
    let ghost head = views(r@);
    assert(head =~= Seq::new(n as nat, |i: int| strip_cr(pieces[i])));
    if parts[n].len() > 0 {
        let last = slice_of(&parts[n], 0, parts[n].len());
        assert(last@ == pieces.last()) by {
            assert(parts@[n as int]@.subrange(0, parts@[n as int]@.len() as int)
                == parts@[n as int]@);
        }
        r.push(last);
        assert(views(r@) =~= head + seq![pieces.last()]);
    } else {
        assert(head + Seq::<Seq<char>>::empty() == head);
    }
    r
}

/// The pieces put together again, with `sep` between each two.
pub open spec fn join(pieces: Seq<Seq<char>>, sep: char) -> Seq<char>
    decreases pieces.len(),
{
    if pieces.len() == 0 {
        Seq::empty()
    } else if pieces.len() == 1 {
        pieces[0]
    } else {
        pieces[0] + seq![sep] + join(pieces.drop_first(), sep)
    }
}

/// Cutting loses nothing and invents nothing: there is at least one piece,
/// no piece holds the separator, and the pieces joined by the separator
/// are the text that was cut.
pub proof fn lemma_split_from(s: Seq<char>, sep: char, from: int)
    requires
        0 <= from <= s.len(),
    ensures
        split_from(s, sep, from).len() >= 1,
        forall|i: int, j: int|
            0 <= i < split_from(s, sep, from).len() && 0 <= j < split_from(s, sep, from)[i].len()
                ==> #[trigger] split_from(s, sep, from)[i][j] != sep,
        join(split_from(s, sep, from), sep) == s.skip(from),
    decreases s.len() - from,
{
    lemma_find_from(s, sep, from);
    let i = find_from(s, sep, from);
    let pieces = split_from(s, sep, from);
    if i >= s.len() {
        assert(pieces == seq![s.subrange(from, s.len() as int)]);
        assert(s.subrange(from, s.len() as int) == s.skip(from));
    } else {
        let rest = split_from(s, sep, i + 1);
        let head = s.subrange(from, i);
        lemma_split_from(s, sep, i + 1);
        assert(pieces == seq![head] + rest);
        assert(pieces.drop_first() == rest);
        assert forall|a: int, b: int| 0 <= a < pieces.len() && 0 <= b < pieces[a].len() implies
            #[trigger] pieces[a][b] != sep by {
            if a == 0 {
                assert(pieces[0][b] == s[from + b]);
            } else {
                assert(pieces[a] == rest[a - 1]);
            }
        }
        assert(join(pieces, sep) == head + seq![sep] + s.skip(i + 1));
        assert(head + seq![sep] + s.skip(i + 1) =~= s.skip(from));
    }
}

/// The law of `split`: at least one piece, no separator in any piece, and
/// the pieces joined by the separator give the text back.
pub proof fn lemma_split(s: Seq<char>, sep: char)
    ensures
        split(s, sep).len() >= 1,
        forall|i: int, j: int|
            0 <= i < split(s, sep).len() && 0 <= j < split(s, sep)[i].len()
                ==> #[trigger] split(s, sep)[i][j] != sep,
        join(split(s, sep), sep) == s,
{
    lemma_split_from(s, sep, 0);
    assert(s.skip(0) == s);
}

/// The law of `words`: no word is empty, and no word holds white space.
pub proof fn lemma_words_from(s: Seq<char>, from: int)
    requires
        0 <= from <= s.len(),
    ensures
        forall|i: int|
            0 <= i < words_from(s, from).len() ==> (#[trigger] words_from(s, from)[i]).len() > 0,
        forall|i: int, j: int|
            0 <= i < words_from(s, from).len() && 0 <= j < words_from(s, from)[i].len()
                ==> !is_white_space(#[trigger] words_from(s, from)[i][j]),
    decreases s.len() - from,
{
    lemma_skip_space(s, from);
    let a = skip_space(s, from);
    if a < s.len() {
        lemma_skip_word(s, a);
        let b = skip_word(s, a);
        let word = s.subrange(a, b);
        let rest = words_from(s, b);
        let all = words_from(s, from);
        lemma_words_from(s, b);
        assert(all == seq![word] + rest);
        assert forall|i: int| 0 <= i < all.len() implies (#[trigger] all[i]).len() > 0 by {
            if i > 0 {
                assert(all[i] == rest[i - 1]);
            }
        }
        assert forall|i: int, j: int| 0 <= i < all.len() && 0 <= j < all[i].len()
            implies !is_white_space(#[trigger] all[i][j]) by {
            if i == 0 {
                assert(all[0][j] == s[a + j]);
            } else {
                assert(all[i] == rest[i - 1]);
            }
        }
    }
}

} // verus!
