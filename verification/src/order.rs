//! The orders in which clips are listed, and the sort that puts them so.

use crate::clip::{Clip, ClipView, Instant};
use crate::text::chars_of;
use vstd::prelude::*;

verus! {

/// `a` comes before `b` in the order of the dictionary, character by
/// character, a shorter text before its extensions.
pub open spec fn lex_less(a: Seq<char>, b: Seq<char>) -> bool
    decreases a.len(),
{
    if b.len() == 0 {
        false
    } else if a.len() == 0 {
        true
    } else if a[0] != b[0] {
        a[0] < b[0]
    } else {
        lex_less(a.drop_first(), b.drop_first())
    }
}

/// Of two texts at most one comes before the other.
pub proof fn lemma_lex_asymmetric(a: Seq<char>, b: Seq<char>)
    ensures
        !(lex_less(a, b) && lex_less(b, a)),
    decreases a.len(),
{
    if a.len() > 0 && b.len() > 0 && a[0] == b[0] {
        lemma_lex_asymmetric(a.drop_first(), b.drop_first());
    }
}

/// Where `a` does not come before `b`, nor `b` before `c`, `a` does not
/// come before `c`.
pub proof fn lemma_lex_negatively_transitive(a: Seq<char>, b: Seq<char>, c: Seq<char>)
    requires
        !lex_less(a, b),
        !lex_less(b, c),
    ensures
        !lex_less(a, c),
    decreases a.len(),
{
    if a.len() > 0 && b.len() > 0 && c.len() > 0 {
        if a[0] == b[0] && b[0] == c[0] {
            lemma_lex_negatively_transitive(a.drop_first(), b.drop_first(), c.drop_first());
        }
    }
}

/// Compares two texts in the order of the dictionary.
pub fn less_chars(a: &Vec<char>, b: &Vec<char>) -> (r: bool)
    ensures
        r == lex_less(a@, b@),
{
    let mut i: usize = 0;
    assert(a@.skip(0) == a@ && b@.skip(0) == b@);
    while i < a.len() && i < b.len()
        invariant
            i <= a.len(),
            i <= b.len(),
            lex_less(a@, b@) == lex_less(a@.skip(i as int), b@.skip(i as int)),
        decreases a.len() - i,
    {
        let ghost x = a@.skip(i as int);
        let ghost y = b@.skip(i as int);
        assert(x[0] == a@[i as int] && y[0] == b@[i as int]);
        assert(x.drop_first() == a@.skip(i + 1) && y.drop_first() == b@.skip(i + 1));
        if a[i] != b[i] {
            return a[i] < b[i];
        }
        i += 1;
    }
    assert(a@.skip(i as int).len() == a.len() - i);
    assert(b@.skip(i as int).len() == b.len() - i);
    i < b.len()
}

/// What `str::to_lowercase` makes of a text: its lower-case form by the
/// rules of Unicode.
pub uninterp spec fn lowercase(s: Seq<char>) -> Seq<char>;

/// `str::to_lowercase`: the lower-case form of `s`.
#[verifier::external_body]
fn to_lowercase(s: &str) -> (r: String)
    ensures
        r@ == lowercase(s@),
{
    s.to_lowercase()
}

/// An order of the clip list.
#[derive(Clone, Copy, Debug, PartialEq, Eq, Structural)]
pub enum SortOrder {
    /// By date, the newest first.
    NewestFirst,
    /// By name in lower case, in the order of the dictionary.
    NameAscending,
    /// Liked clips first, then by date, the newest first.
    LikedFirst,
    /// Hosted clips first, then by date, the newest first.
    HostedFirst,
}

/// `a` is later than `b`.
pub open spec fn later(a: Instant, b: Instant) -> bool {
    a.secs > b.secs || (a.secs == b.secs && a.nanos > b.nanos)
}

/// `a` has to stand before `b` in the given order.
pub open spec fn precedes(order: SortOrder, a: ClipView, b: ClipView) -> bool {
    match order {
        SortOrder::NewestFirst => later(a.created_at, b.created_at),
        SortOrder::NameAscending => lex_less(lowercase(a.name), lowercase(b.name)),
        SortOrder::LikedFirst => (a.is_liked() && !b.is_liked()) || (a.is_liked() == b.is_liked()
            && later(a.created_at, b.created_at)),
        SortOrder::HostedFirst => (a.is_hosted && !b.is_hosted) || (a.is_hosted == b.is_hosted
            && later(a.created_at, b.created_at)),
    }
}

/// Each order is a strict weak order: of two clips at most one has to
/// stand before the other, and having to stand before carries over clips
/// that are free to stand on either side.
pub proof fn lemma_precedes_is_strict_weak(order: SortOrder, a: ClipView, b: ClipView, c: ClipView)
    ensures
        !(precedes(order, a, b) && precedes(order, b, a)),
        !precedes(order, a, b) && !precedes(order, b, c) ==> !precedes(order, a, c),
{
    if order == SortOrder::NameAscending {
        lemma_lex_asymmetric(lowercase(a.name), lowercase(b.name));
        if !precedes(order, a, b) && !precedes(order, b, c) {
            lemma_lex_negatively_transitive(
                lowercase(a.name),
                lowercase(b.name),
                lowercase(c.name),
            );
        }
    }
}

/// Tells whether `a` has to stand before `b`.
pub fn comes_before(order: SortOrder, a: &Clip, b: &Clip) -> (r: bool)
    ensures
        r == precedes(order, a@, b@),
{
    let newer = a.created_at.secs > b.created_at.secs || (a.created_at.secs == b.created_at.secs
        && a.created_at.nanos > b.created_at.nanos);
    match order {
        SortOrder::NewestFirst => newer,
        SortOrder::NameAscending => {
            let x = to_lowercase(a.name.as_str());
            let y = to_lowercase(b.name.as_str());
            less_chars(&chars_of(x.as_str()), &chars_of(y.as_str()))
        },
        SortOrder::LikedFirst => {
            let x = a.is_liked();
            let y = b.is_liked();
            (x && !y) || (x == y && newer)
        },
        SortOrder::HostedFirst => (a.is_hosted && !b.is_hosted) || (a.is_hosted == b.is_hosted
            && newer),
    }
}

/// `output` is `input` sorted by `order`, equal clips in the order they
/// had: `from[i]` is the place in `input` of the clip at `i` in `output`,
/// every place is taken once, no clip stands behind one that it has to
/// stand before, and of two clips that are free to stand on either side
/// the one that came first stands first.
pub open spec fn is_stable_sort(
    order: SortOrder,
    input: Seq<Clip>,
    output: Seq<Clip>,
    from: Seq<int>,
) -> bool {
    &&& output.len() == input.len()
    &&& from.len() == input.len()
    &&& forall|i: int|
        0 <= i < from.len() ==> 0 <= #[trigger] from[i] < input.len() && output[i] == input[from[i]]
    &&& forall|i: int, j: int|
        0 <= i < j < from.len() ==> #[trigger] from[i] != #[trigger] from[j]
    &&& forall|j: int| 0 <= j < input.len() ==> #[trigger] from.contains(j)
    &&& forall|i: int, j: int|
        0 <= i < j < from.len() ==> !precedes(order, #[trigger] output[j]@, #[trigger] output[i]@)
            && (precedes(order, output[i]@, output[j]@) || from[i] < from[j])
}

/// The invariant of the sort while the last `input.len() - k` clips have
/// been placed.
spec fn placed(order: SortOrder, input: Seq<Clip>, output: Seq<Clip>, from: Seq<int>, k: int)
    -> bool {
    &&& output.len() == input.len() - k
    &&& from.len() == output.len()
    &&& forall|i: int|
        0 <= i < from.len() ==> k <= #[trigger] from[i] < input.len() && output[i] == input[from[i]]
    &&& forall|i: int, j: int|
        0 <= i < j < from.len() ==> #[trigger] from[i] != #[trigger] from[j]
    &&& forall|j: int| k <= j < input.len() ==> #[trigger] from.contains(j)
    &&& forall|i: int, j: int|
        0 <= i < j < from.len() ==> !precedes(order, #[trigger] output[j]@, #[trigger] output[i]@)
            && (precedes(order, output[i]@, output[j]@) || from[i] < from[j])
}

/// Placing the clip at `k - 1` keeps the invariant, where it goes behind
/// the clips that have to stand before it and in front of all others.
proof fn lemma_place(
    order: SortOrder,
    input: Seq<Clip>,
    output: Seq<Clip>,
    from: Seq<int>,
    k: int,
    pos: int,
)
    requires
        0 < k <= input.len(),
        placed(order, input, output, from, k),
        0 <= pos <= output.len(),
        forall|i: int| 0 <= i < pos ==> precedes(order, (#[trigger] output[i])@, input[k - 1]@),
        pos < output.len() ==> !precedes(order, output[pos]@, input[k - 1]@),
    ensures
        placed(order, input, output.insert(pos, input[k - 1]), from.insert(pos, k - 1), k - 1),
{
    let x = input[k - 1];
    let out2 = output.insert(pos, x);
    let from2 = from.insert(pos, k - 1);
    assert forall|i: int| 0 <= i < from2.len() implies k - 1 <= #[trigger] from2[i] < input.len()
        && out2[i] == input[from2[i]] by {
        if i < pos {
            assert(from2[i] == from[i] && out2[i] == output[i]);
        } else if i > pos {
            assert(from2[i] == from[i - 1] && out2[i] == output[i - 1]);
        }
    }
    assert forall|i: int, j: int| 0 <= i < j < from2.len() implies #[trigger] from2[i]
        != #[trigger] from2[j] by {
        let fi = if i < pos {
            from[i]
        } else if i == pos {
            k - 1
        } else {
            from[i - 1]
        };
        let fj = if j < pos {
            from[j]
        } else if j == pos {
            k - 1
        } else {
            from[j - 1]
        };
        assert(from2[i] == fi && from2[j] == fj);
    }
    assert forall|j: int| k - 1 <= j < input.len() implies #[trigger] from2.contains(j) by {
        if j == k - 1 {
            assert(from2[pos] == j);
        } else {
            assert(from.contains(j));
            let i = choose|i: int| 0 <= i < from.len() && from[i] == j;
            if i < pos {
                assert(from2[i] == j);
            } else {
                assert(from2[i + 1] == j);
            }
        }
    }
    assert forall|i: int, j: int| 0 <= i < j < from2.len() implies !precedes(
        order,
        #[trigger] out2[j]@,
        #[trigger] out2[i]@,
    ) && (precedes(order, out2[i]@, out2[j]@) || from2[i] < from2[j]) by {
        if j < pos {
            assert(out2[i] == output[i] && out2[j] == output[j]);
            assert(from2[i] == from[i] && from2[j] == from[j]);
        } else if j == pos {
            assert(out2[i] == output[i] && out2[j] == x);
            lemma_precedes_is_strict_weak(order, output[i]@, x@, x@);
        } else if i < pos {
            assert(out2[i] == output[i] && out2[j] == output[j - 1]);
            assert(from2[i] == from[i] && from2[j] == from[j - 1]);
        } else if i == pos {
            assert(out2[i] == x && out2[j] == output[j - 1]);
            assert(from2[i] == k - 1 && from2[j] == from[j - 1]);
            if j - 1 > pos {
                lemma_precedes_is_strict_weak(order, output[j - 1]@, output[pos]@, x@);
            }
        } else {
            assert(out2[i] == output[i - 1] && out2[j] == output[j - 1]);
            assert(from2[i] == from[i - 1] && from2[j] == from[j - 1]);
        }
    }
}

/// Sorts the clips by `order`. Clips of which neither has to stand before
/// the other keep the order they came in.
pub fn sort_clips(clips: Vec<Clip>, order: SortOrder) -> (r: Vec<Clip>)
    ensures
        exists|from: Seq<int>| is_stable_sort(order, clips@, r@, from),
{
    let ghost input = clips@;
    let mut rest = clips;
    let mut out: Vec<Clip> = Vec::new();
    let ghost mut from: Seq<int> = Seq::empty();
    while rest.len() > 0
        invariant
            rest@ == input.take(rest.len() as int),
            rest.len() <= input.len(),
            placed(order, input, out@, from, rest.len() as int),
        decreases rest.len(),
    {
        let ghost k = rest.len() as int;
        let x = rest.pop().unwrap();
        assert(x == input[k - 1]);
        let mut pos: usize = 0;
        while pos < out.len() && comes_before(order, &out[pos], &x)
            invariant
                pos <= out.len(),
                forall|i: int| 0 <= i < pos ==> precedes(order, (#[trigger] out@[i])@, x@),
            decreases out.len() - pos,
        {
            pos += 1;
        }
        proof {
            lemma_place(order, input, out@, from, k, pos as int);
            from = from.insert(pos as int, k - 1);
        }
        out.insert(pos, x);
        assert(rest@ == input.take(rest.len() as int));
    }
    proof {
        assert(is_stable_sort(order, input, out@, from));
    }
    out
}

/// The place `x` comes before the place `y` in the sorted list: its clip
/// has to stand before the other, or they are free and `x` came first.
pub open spec fn place_before(order: SortOrder, input: Seq<Clip>, x: int, y: int) -> bool {
    !precedes(order, input[y]@, input[x]@) && (precedes(order, input[x]@, input[y]@) || x < y)
}

/// Two stable sorts of the same clips agree on their first `k` places.
proof fn lemma_sorts_agree(
    order: SortOrder,
    input: Seq<Clip>,
    first: Seq<Clip>,
    from_first: Seq<int>,
    second: Seq<Clip>,
    from_second: Seq<int>,
    k: int,
)
    requires
        is_stable_sort(order, input, first, from_first),
        is_stable_sort(order, input, second, from_second),
        0 <= k <= input.len(),
    ensures
        forall|i: int| 0 <= i < k ==> from_first[i] == from_second[i],
    decreases k,
{
    if k > 0 {
        lemma_sorts_agree(order, input, first, from_first, second, from_second, k - 1);
        let x = from_first[k - 1];
        let y = from_second[k - 1];
        if x != y {
            assert(from_second.contains(x));
            let m = choose|m: int| 0 <= m < from_second.len() && from_second[m] == x;
            assert(m > k - 1) by {
                if m < k - 1 {
                    assert(from_first[m] == from_second[m]);
                }
            }
            assert(place_before(order, input, y, x)) by {
                assert(second[k - 1] == input[y] && second[m] == input[x]);
            }
            assert(from_first.contains(y));
            let n = choose|n: int| 0 <= n < from_first.len() && from_first[n] == y;
            assert(n > k - 1) by {
                if n < k - 1 {
                    assert(from_first[n] == from_second[n]);
                }
            }
            assert(place_before(order, input, x, y)) by {
                assert(first[k - 1] == input[x] && first[n] == input[y]);
            }
        }
    }
}

/// There is one stable sort only: two that sort the same clips by the same
/// order are the same list.
pub proof fn lemma_stable_sort_is_unique(
    order: SortOrder,
    input: Seq<Clip>,
    first: Seq<Clip>,
    from_first: Seq<int>,
    second: Seq<Clip>,
    from_second: Seq<int>,
)
    requires
        is_stable_sort(order, input, first, from_first),
        is_stable_sort(order, input, second, from_second),
    ensures
        first == second,
        from_first == from_second,
{
    lemma_sorts_agree(
        order,
        input,
        first,
        from_first,
        second,
        from_second,
        input.len() as int,
    );
    assert(from_first =~= from_second);
    assert forall|i: int| 0 <= i < first.len() implies first[i] == second[i] by {
        assert(first[i] == input[from_first[i]]);
        assert(second[i] == input[from_second[i]]);
    }
    assert(first =~= second);
}

} // verus!
