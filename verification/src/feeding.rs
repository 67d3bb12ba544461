//! How the output and the reorder buffer move when codepoints are read.
use vstd::prelude::*;
use vstd::utf8::*;
use crate::codepoint::Codepoint;
use crate::hangul::hangul_decomposition;
use crate::hangul::is_hangul_syllable;
use crate::hangul::lemma_hangul_decomposition;
use crate::model::sort_by_ccc;
use crate::model::Reordering;
use crate::ordering::lemma_feed_add;
use crate::ordering::lemma_feed_length;
use crate::ordering::lemma_feed_one;
use crate::ordering::lemma_feed_prefix;
use crate::ordering::lemma_feed_push;
use crate::ordering::lemma_sort_empty;
use crate::ordering::lemma_sort_single;
use crate::text::lemma_scalars_add;
use crate::text::scalar_of;
use crate::text::scalars;

verus! {

/// What may wait in the reorder buffer: nonstarters that hold scalar values.
pub open spec fn buffer_ok(b: Seq<Codepoint>) -> bool {
    forall|i: int|
        0 <= i < b.len() ==> is_scalar((#[trigger] b[i]).spec_code()) && !b[i].spec_is_starter()
}

/// The output and the buffer after the codepoints of `d` have been read,
/// starting from the output `out` and the buffer `pending`.
pub open spec fn fed(out: Seq<char>, pending: Seq<Codepoint>, d: Seq<Codepoint>) -> (
    Seq<char>,
    Seq<Codepoint>,
) {
    let st = (Reordering { out: seq![], pending }).feed_all(d);
    (out + scalars(st.out), st.pending)
}

/// Reading nothing changes nothing.
pub proof fn lemma_fed_empty(out: Seq<char>, pending: Seq<Codepoint>)
    ensures
        fed(out, pending, Seq::<Codepoint>::empty()) == (out, pending),
{
    lemma_feed_one((Reordering { out: seq![], pending }), Codepoint(0));
    assert(out + scalars(Seq::<Codepoint>::empty()) =~= out);
}

/// One more codepoint: a starter flushes the buffer and is written, a
/// nonstarter joins the buffer.
pub proof fn lemma_fed_push(out: Seq<char>, pending: Seq<Codepoint>, d: Seq<Codepoint>, c: Codepoint)
    ensures
        fed(out, pending, d.push(c)) == if c.spec_is_starter() {
            (
                fed(out, pending, d).0 + scalars(sort_by_ccc(fed(out, pending, d).1)).push(
                    scalar_of(c),
                ),
                Seq::<Codepoint>::empty(),
            )
        } else {
            (fed(out, pending, d).0, fed(out, pending, d).1.push(c))
        },
{
    let start = Reordering { out: seq![], pending };
    let st = start.feed_all(d);
    lemma_feed_push(start, d, c);
    if c.spec_is_starter() {
        lemma_scalars_add(st.out + sort_by_ccc(st.pending), seq![c]);
        lemma_scalars_add(st.out, sort_by_ccc(st.pending));
        assert(scalars(seq![c]) =~= seq![scalar_of(c)]);
        assert(out + (scalars(st.out) + scalars(sort_by_ccc(st.pending)) + seq![scalar_of(c)])
            =~= out + scalars(st.out) + scalars(sort_by_ccc(st.pending)).push(scalar_of(c)));
    }
}

/// Reading `a` and then `b` is reading both.
pub proof fn lemma_fed_add(
    out: Seq<char>,
    pending: Seq<Codepoint>,
    a: Seq<Codepoint>,
    b: Seq<Codepoint>,
)
    ensures
        fed(out, pending, a + b) == fed(fed(out, pending, a).0, fed(out, pending, a).1, b),
{
    let start = Reordering { out: seq![], pending };
    let first = start.feed_all(a);
    let rest = (Reordering { out: seq![], pending: first.pending }).feed_all(b);
    lemma_feed_add(start, a, b);
    lemma_feed_prefix(first.out, first.pending, b);
    lemma_scalars_add(first.out, rest.out);
    assert(out + (scalars(first.out) + scalars(rest.out)) =~= out + scalars(first.out) + scalars(
        rest.out,
    ));
}

/// One codepoint read: a starter flushes the buffer and is written, a
/// nonstarter joins the buffer.
pub proof fn lemma_fed_single(out: Seq<char>, pending: Seq<Codepoint>, c: Codepoint)
    ensures
        fed(out, pending, seq![c]) == if c.spec_is_starter() {
            (out + scalars(sort_by_ccc(pending)).push(scalar_of(c)), Seq::<Codepoint>::empty())
        } else {
            (out, pending.push(c))
        },
{
    let empty = Seq::<Codepoint>::empty();
    lemma_fed_empty(out, pending);
    lemma_fed_push(out, pending, empty, c);
    assert(empty.push(c) =~= seq![c]);
}

/// One codepoint read while nothing waits.
pub proof fn lemma_fed_single_from_empty(out: Seq<char>, c: Codepoint)
    ensures
        fed(out, Seq::<Codepoint>::empty(), seq![c]) == if c.spec_is_starter() {
            (out.push(scalar_of(c)), Seq::<Codepoint>::empty())
        } else {
            (out, seq![c])
        },
{
    let empty = Seq::<Codepoint>::empty();
    lemma_fed_single(out, empty, c);
    lemma_sort_empty();
    assert(scalars(empty) =~= Seq::<char>::empty());
    assert(out + Seq::<char>::empty().push(scalar_of(c)) =~= out.push(scalar_of(c)));
    assert(empty.push(c) =~= seq![c]);
}

/// Two codepoints read while nothing waits.
pub proof fn lemma_fed_two(out: Seq<char>, c2: Codepoint, c3: Codepoint)
    ensures
        fed(out, Seq::<Codepoint>::empty(), seq![c2, c3]) == if c3.spec_is_starter() {
            (out.push(scalar_of(c2)).push(scalar_of(c3)), Seq::<Codepoint>::empty())
        } else if c2.spec_is_starter() {
            (out.push(scalar_of(c2)), seq![c3])
        } else {
            (out, seq![c2, c3])
        },
{
    let empty = Seq::<Codepoint>::empty();
    lemma_fed_add(out, empty, seq![c2], seq![c3]);
    assert(seq![c2] + seq![c3] =~= seq![c2, c3]);
    lemma_fed_single_from_empty(out, c2);
    if c2.spec_is_starter() {
        lemma_fed_single_from_empty(out.push(scalar_of(c2)), c3);
    } else {
        lemma_fed_single(out, seq![c2], c3);
        if c3.spec_is_starter() {
            lemma_sort_single(c2);
            assert(scalars(seq![c2]) =~= seq![scalar_of(c2)]);
            assert(out + seq![scalar_of(c2)].push(scalar_of(c3)) =~= out.push(scalar_of(c2)).push(
                scalar_of(c3),
            ));
        } else {
            assert(seq![c2].push(c3) =~= seq![c2, c3]);
        }
    }
}

/// The jamo of a syllable are starters: the buffer is flushed and they are
/// written one after the other.
pub proof fn lemma_fed_hangul(out: Seq<char>, pending: Seq<Codepoint>, code: u32)
    requires
        is_hangul_syllable(code),
    ensures
        fed(out, pending, hangul_decomposition(code)) == (
            out + scalars(sort_by_ccc(pending)) + scalars(hangul_decomposition(code)),
            Seq::<Codepoint>::empty(),
        ),
{
    let d = hangul_decomposition(code);
    let empty = Seq::<Codepoint>::empty();
    lemma_hangul_decomposition(code);
    lemma_fed_empty(out, pending);
    lemma_sort_empty();
    assert(scalars(empty) =~= Seq::<char>::empty());
    lemma_fed_push(out, pending, empty, d[0]);
    lemma_fed_push(out, pending, empty.push(d[0]), d[1]);
    if d.len() == 2 {
        assert(d =~= empty.push(d[0]).push(d[1]));
        assert(fed(out, pending, d).0 =~= out + scalars(sort_by_ccc(pending)) + scalars(d));
    } else {
        lemma_fed_push(out, pending, empty.push(d[0]).push(d[1]), d[2]);
        assert(d =~= empty.push(d[0]).push(d[1]).push(d[2]));
        assert(fed(out, pending, d).0 =~= out + scalars(sort_by_ccc(pending)) + scalars(d));
    }
}

/// The output and the buffer together grow by the number of codepoints
/// read.
pub proof fn lemma_fed_length(out: Seq<char>, pending: Seq<Codepoint>, d: Seq<Codepoint>)
    ensures
        fed(out, pending, d).0.len() + fed(out, pending, d).1.len() == out.len() + pending.len()
            + d.len(),
{
    lemma_feed_length((Reordering { out: seq![], pending }), d);
}

} // verus!
