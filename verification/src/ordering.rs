//! Lemmas about sorting by combining class and about canonical reordering.
use vstd::prelude::*;
use crate::codepoint::Codepoint;
use crate::model::classes_through;
use crate::model::in_class;
use crate::model::of_class;
use crate::model::sort_by_ccc;
use crate::model::sorted_by_ccc;
use crate::model::Reordering;

verus! {

/// Every codepoint of `s` satisfies `p`.
pub open spec fn all(s: Seq<Codepoint>, p: spec_fn(Codepoint) -> bool) -> bool {
    forall|i: int| 0 <= i < s.len() ==> p(#[trigger] s[i])
}

/// Nothing has no codepoints of any class.
pub proof fn lemma_of_class_empty(k: int)
    ensures
        of_class(Seq::<Codepoint>::empty(), k) == Seq::<Codepoint>::empty(),
{
    reveal(Seq::filter);
}

/// One more codepoint joins its own class and no other.
pub proof fn lemma_of_class_push(s: Seq<Codepoint>, c: Codepoint, k: int)
    ensures
        of_class(s.push(c), k) == if c.spec_ccc() == k {
            of_class(s, k).push(c)
        } else {
            of_class(s, k)
        },
{
    s.lemma_filter_push(c, in_class(k));
}

/// The classes of a concatenation are the concatenations of the classes.
pub proof fn lemma_of_class_add(a: Seq<Codepoint>, b: Seq<Codepoint>, k: int)
    ensures
        of_class(a + b, k) == of_class(a, k) + of_class(b, k),
{
    Seq::filter_distributes_over_add(a, b, in_class(k));
}

/// The codepoints of a class are codepoints of that class, taken from `s`.
pub proof fn lemma_of_class_members(s: Seq<Codepoint>, k: int)
    ensures
        forall|i: int| 0 <= i < of_class(s, k).len() ==> (#[trigger] of_class(s, k)[i]).spec_ccc() == k,
        forall|i: int| 0 <= i < of_class(s, k).len() ==> s.contains(#[trigger] of_class(s, k)[i]),
        of_class(s, k).len() <= s.len(),
    decreases s.len(),
{
    reveal(Seq::filter);
    if s.len() > 0 {
        let front = s.drop_last();
        lemma_of_class_members(front, k);
        assert(s =~= front.push(s.last()));
        lemma_of_class_push(front, s.last(), k);
        assert forall|i: int| 0 <= i < of_class(s, k).len() implies s.contains(
            #[trigger] of_class(s, k)[i],
        ) by {
            if i < of_class(front, k).len() {
                let c = of_class(front, k)[i];
                assert(front.contains(c));
                let j = choose|j: int| 0 <= j < front.len() && front[j] == c;
                assert(s[j] == c);
            } else {
                assert(s[s.len() - 1] == s.last());
            }
        }
    }
}

/// Where no codepoint of `s` has class `k`, the class is empty.
pub proof fn lemma_of_class_none(s: Seq<Codepoint>, k: int)
    requires
        forall|i: int| 0 <= i < s.len() ==> (#[trigger] s[i]).spec_ccc() != k,
    ensures
        of_class(s, k) == Seq::<Codepoint>::empty(),
    decreases s.len(),
{
    reveal(Seq::filter);
    if s.len() > 0 {
        lemma_of_class_none(s.drop_last(), k);
    }
}

/// Where every codepoint of `s` has class `k`, the class is all of `s`.
pub proof fn lemma_of_class_whole(s: Seq<Codepoint>, k: int)
    requires
        forall|i: int| 0 <= i < s.len() ==> (#[trigger] s[i]).spec_ccc() == k,
    ensures
        of_class(s, k) == s,
    decreases s.len(),
{
    reveal(Seq::filter);
    if s.len() > 0 {
        lemma_of_class_whole(s.drop_last(), k);
        assert(s.drop_last().push(s.last()) =~= s);
    }
}

/// Taking a class of a class gives the class itself or nothing.
pub proof fn lemma_of_class_twice(s: Seq<Codepoint>, j: int, k: int)
    ensures
        of_class(of_class(s, j), k) == if j == k {
            of_class(s, k)
        } else {
            Seq::<Codepoint>::empty()
        },
{
    lemma_of_class_members(s, j);
    if j == k {
        lemma_of_class_whole(of_class(s, j), k);
    } else {
        lemma_of_class_none(of_class(s, j), k);
    }
}

/// The classes up to `n` hold class `k` unchanged if `k` is among them, and
/// nothing of it otherwise.
pub proof fn lemma_class_of_classes(s: Seq<Codepoint>, n: int, k: int)
    ensures
        of_class(classes_through(s, n), k) == if 0 <= k <= n {
            of_class(s, k)
        } else {
            Seq::<Codepoint>::empty()
        },
    decreases n + 1,
{
    if n < 0 {
        lemma_of_class_empty(k);
    } else {
        lemma_class_of_classes(s, n - 1, k);
        lemma_of_class_add(classes_through(s, n - 1), of_class(s, n), k);
        lemma_of_class_twice(s, n, k);
    }
}

/// The classes up to `n` ascend, hold no class above `n`, and hold only
/// codepoints of `s`.
pub proof fn lemma_classes_sorted(s: Seq<Codepoint>, n: int)
    ensures
        sorted_by_ccc(classes_through(s, n)),
        forall|i: int|
            0 <= i < classes_through(s, n).len() ==> (#[trigger] classes_through(s, n)[i]).spec_ccc()
                <= n,
        forall|i: int|
            0 <= i < classes_through(s, n).len() ==> s.contains(
                #[trigger] classes_through(s, n)[i],
            ),
    decreases n + 1,
{
    if n >= 0 {
        lemma_classes_sorted(s, n - 1);
        lemma_of_class_members(s, n);
    }
}

/// A codepoint of a class above `n` does not show in the classes up to `n`.
pub proof fn lemma_classes_push_above(s: Seq<Codepoint>, c: Codepoint, n: int)
    requires
        n < c.spec_ccc(),
    ensures
        classes_through(s.push(c), n) == classes_through(s, n),
    decreases n + 1,
{
    if n >= 0 {
        lemma_classes_push_above(s, c, n - 1);
        lemma_of_class_push(s, c, n);
    }
}

/// A codepoint whose class is the highest of all comes last.
pub proof fn lemma_classes_push_highest(s: Seq<Codepoint>, c: Codepoint, n: int)
    requires
        forall|i: int| 0 <= i < s.len() ==> (#[trigger] s[i]).spec_ccc() <= c.spec_ccc(),
        c.spec_ccc() <= n,
    ensures
        classes_through(s.push(c), n) == classes_through(s, n).push(c),
    decreases n + 1,
{
    lemma_of_class_push(s, c, n);
    if n == c.spec_ccc() {
        lemma_classes_push_above(s, c, n - 1);
        assert(classes_through(s, n - 1) + of_class(s, n).push(c) =~= (classes_through(s, n - 1)
            + of_class(s, n)).push(c));
    } else {
        lemma_classes_push_highest(s, c, n - 1);
        lemma_of_class_none(s, n);
        assert(classes_through(s, n - 1).push(c) + Seq::<Codepoint>::empty() =~= (classes_through(
            s,
            n - 1,
        ) + Seq::<Codepoint>::empty()).push(c));
    }
}

/// What is left of an ascending sequence without its last codepoint
/// ascends, and stays below that codepoint.
pub proof fn lemma_sorted_front(s: Seq<Codepoint>)
    requires
        sorted_by_ccc(s),
        s.len() > 0,
    ensures
        sorted_by_ccc(s.drop_last()),
        forall|i: int|
            0 <= i < s.drop_last().len() ==> (#[trigger] s.drop_last()[i]).spec_ccc()
                <= s.last().spec_ccc(),
{
    let front = s.drop_last();
    assert forall|i: int, j: int| 0 <= i < j < front.len() implies front[i].spec_ccc()
        <= front[j].spec_ccc() by {
        assert(front[i] == s[i] && front[j] == s[j]);
    }
    assert forall|i: int| 0 <= i < front.len() implies (#[trigger] front[i]).spec_ccc()
        <= s.last().spec_ccc() by {
        assert(front[i] == s[i] && s.last() == s[s.len() - 1]);
    }
}

/// Sorting leaves an ascending sequence as it is.
pub proof fn lemma_sort_of_sorted(s: Seq<Codepoint>)
    requires
        sorted_by_ccc(s),
    ensures
        sort_by_ccc(s) == s,
    decreases s.len(),
{
    if s.len() == 0 {
        lemma_sort_empty();
        assert(s =~= Seq::<Codepoint>::empty());
    } else {
        let front = s.drop_last();
        let c = s.last();
        assert(front.push(c) == s) by {
            assert(front.push(c) =~= s);
        }
        assert(classes_through(front, 255) == front) by {
            lemma_sorted_front(s);
            lemma_sort_of_sorted(front);
        }
        assert(classes_through(front.push(c), 255) == classes_through(front, 255).push(c)) by {
            lemma_sorted_front(s);
            lemma_classes_push_highest(front, c, 255);
        }
    }
}

/// Sorting nothing gives nothing.
pub proof fn lemma_sort_empty()
    ensures
        sort_by_ccc(Seq::<Codepoint>::empty()) == Seq::<Codepoint>::empty(),
{
    lemma_classes_empty(255);
}

/// Nothing has no codepoints in the classes up to `n`.
pub proof fn lemma_classes_empty(n: int)
    ensures
        classes_through(Seq::<Codepoint>::empty(), n) == Seq::<Codepoint>::empty(),
    decreases n + 1,
{
    if n >= 0 {
        lemma_classes_empty(n - 1);
        lemma_of_class_empty(n);
    }
}

/// Sorting one codepoint gives that codepoint.
pub proof fn lemma_sort_single(c: Codepoint)
    ensures
        sort_by_ccc(seq![c]) == seq![c],
{
    lemma_sort_of_sorted(seq![c]);
}

/// Sequences that agree class by class have the same classes up to `n`.
pub proof fn lemma_classes_agree(a: Seq<Codepoint>, b: Seq<Codepoint>, n: int)
    requires
        forall|k: int| 0 <= k <= 255 ==> of_class(a, k) == of_class(b, k),
        n <= 255,
    ensures
        classes_through(a, n) == classes_through(b, n),
    decreases n + 1,
{
    if n >= 0 {
        lemma_classes_agree(a, b, n - 1);
    }
}

/// There is one stable sort: an ascending sequence that holds every class
/// of `s` unchanged is the sort of `s`.
pub proof fn lemma_stable_sort_unique(s: Seq<Codepoint>, r: Seq<Codepoint>)
    requires
        sorted_by_ccc(r),
        forall|k: int| 0 <= k <= 255 ==> of_class(r, k) == of_class(s, k),
    ensures
        r == sort_by_ccc(s),
{
    lemma_sort_of_sorted(r);
    lemma_classes_agree(r, s, 255);
}

/// Sorting ascends, keeps every class unchanged, keeps the length and takes
/// its codepoints from `s`.
pub proof fn lemma_sort_properties(s: Seq<Codepoint>)
    ensures
        sorted_by_ccc(sort_by_ccc(s)),
        forall|k: int| 0 <= k <= 255 ==> of_class(sort_by_ccc(s), k) == of_class(s, k),
        forall|i: int| 0 <= i < sort_by_ccc(s).len() ==> s.contains(#[trigger] sort_by_ccc(s)[i]),
{
    lemma_classes_sorted(s, 255);
    assert forall|k: int| 0 <= k <= 255 implies of_class(sort_by_ccc(s), k) == of_class(s, k) by {
        lemma_class_of_classes(s, 255, k);
    }
}

/// Sorting keeps what holds of every codepoint.
pub proof fn lemma_sort_keeps_all(s: Seq<Codepoint>, p: spec_fn(Codepoint) -> bool)
    requires
        all(s, p),
    ensures
        all(sort_by_ccc(s), p),
{
    lemma_sort_properties(s);
    assert forall|i: int| 0 <= i < sort_by_ccc(s).len() implies p(#[trigger] sort_by_ccc(s)[i]) by {
        let c = sort_by_ccc(s)[i];
        assert(s.contains(c));
        let j = choose|j: int| 0 <= j < s.len() && s[j] == c;
        assert(p(s[j]));
    }
}

/// Reading nothing changes nothing, and reading one codepoint is one step.
pub proof fn lemma_feed_one(st: Reordering, c: Codepoint)
    ensures
        st.feed_all(seq![c]) == st.feed(c),
        st.feed_all(Seq::<Codepoint>::empty()) == st,
{
    assert(seq![c].drop_last() =~= Seq::<Codepoint>::empty());
    reveal_with_fuel(Reordering::feed_all, 2);
}

/// Reading `a` and then `b` is reading both.
pub proof fn lemma_feed_add(st: Reordering, a: Seq<Codepoint>, b: Seq<Codepoint>)
    ensures
        st.feed_all(a + b) == st.feed_all(a).feed_all(b),
    decreases b.len(),
{
    if b.len() == 0 {
        assert(a + b =~= a);
    } else {
        lemma_feed_add(st, a, b.drop_last());
        assert((a + b).drop_last() =~= a + b.drop_last());
        assert((a + b).last() == b.last());
    }
}

/// Reading one more codepoint is one more step.
pub proof fn lemma_feed_push(st: Reordering, d: Seq<Codepoint>, c: Codepoint)
    ensures
        st.feed_all(d.push(c)) == st.feed_all(d).feed(c),
{
    assert(d.push(c).drop_last() =~= d);
}

/// What is settled already stays in front, whatever is read next.
pub proof fn lemma_feed_prefix(out: Seq<Codepoint>, pending: Seq<Codepoint>, d: Seq<Codepoint>)
    ensures
        (Reordering { out, pending }).feed_all(d) == {
            let rest = (Reordering { out: seq![], pending }).feed_all(d);
            Reordering { out: out + rest.out, pending: rest.pending }
        },
    decreases d.len(),
{
    let empty = Seq::<Codepoint>::empty();
    if d.len() == 0 {
        assert(out + empty =~= out);
    } else {
        lemma_feed_prefix(out, pending, d.drop_last());
        let rest = (Reordering { out: empty, pending }).feed_all(d.drop_last());
        let c = d.last();
        if c.spec_is_starter() {
            assert(out + rest.out + sort_by_ccc(rest.pending) + seq![c] =~= out + (rest.out
                + sort_by_ccc(rest.pending) + seq![c]));
        }
    }
}

/// One more codepoint makes the classes up to `n` longer by one if its
/// class is among them, and leaves their length otherwise.
pub proof fn lemma_classes_push_length(s: Seq<Codepoint>, c: Codepoint, n: int)
    ensures
        classes_through(s.push(c), n).len() == classes_through(s, n).len() + if c.spec_ccc() <= n {
            1int
        } else {
            0int
        },
    decreases n + 1,
{
    if n >= 0 {
        lemma_classes_push_length(s, c, n - 1);
        lemma_of_class_push(s, c, n);
    }
}

/// Sorting keeps the length.
pub proof fn lemma_sort_length(s: Seq<Codepoint>)
    ensures
        sort_by_ccc(s).len() == s.len(),
    decreases s.len(),
{
    if s.len() == 0 {
        lemma_sort_empty();
        assert(s =~= Seq::<Codepoint>::empty());
    } else {
        let front = s.drop_last();
        lemma_sort_length(front);
        lemma_classes_push_length(front, s.last(), 255);
        assert(front.push(s.last()) =~= s);
    }
}

/// Reading settles or keeps waiting every codepoint read: none is lost and
/// none is added.
pub proof fn lemma_feed_length(st: Reordering, d: Seq<Codepoint>)
    ensures
        st.feed_all(d).out.len() + st.feed_all(d).pending.len() == st.out.len() + st.pending.len()
            + d.len(),
    decreases d.len(),
{
    if d.len() > 0 {
        lemma_feed_length(st, d.drop_last());
        lemma_sort_length(st.feed_all(d.drop_last()).pending);
    }
}

} // verus!
