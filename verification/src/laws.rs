//! The laws of decomposing normalization, proved over the model.
use vstd::prelude::*;
use vstd::utf8::*;
use crate::codepoint::Codepoint;
use crate::decomposition::DecompositionValue;
use crate::hangul::hangul_decomposition;
use crate::hangul::is_hangul_syllable;
use crate::hangul::lemma_hangul_decomposition;
use crate::model::normalized;
use crate::model::normalized_codepoints;
use crate::model::of_class;
use crate::model::reorder;
use crate::model::sort_by_ccc;
use crate::model::sorted_by_ccc;
use crate::model::Reordering;
use crate::model::Tables;
use crate::model::LAST_DECOMPOSING_CODEPOINT;
use crate::model::MAX_DECOMPOSITION_LENGTH;
use crate::ordering::all;
use crate::ordering::lemma_feed_length;
use crate::ordering::lemma_of_class_add;
use crate::ordering::lemma_of_class_empty;
use crate::ordering::lemma_of_class_push;
use crate::ordering::lemma_sort_empty;
use crate::ordering::lemma_sort_keeps_all;
use crate::ordering::lemma_sort_length;
use crate::ordering::lemma_sort_of_sorted;
use crate::ordering::lemma_sort_properties;
use crate::progress::all_plain;
use crate::progress::lemma_finished;
use crate::progress::lemma_plain_step;
use crate::progress::lemma_stands_at_start;
use crate::progress::stands_for;
use crate::text::scalar_of;
use crate::text::scalars;

verus! {

/// Neighbouring nonstarters ascend by combining class.
pub open spec fn canonically_ordered(x: Seq<Codepoint>) -> bool {
    forall|i: int, j: int|
        #![trigger x[i], x[j]]
        0 <= i && j == i + 1 && j < x.len() && !x[i].spec_is_starter() && !x[j].spec_is_starter()
            ==> x[i].spec_ccc() <= x[j].spec_ccc()
}

/// Every codepoint of `x` is a nonstarter.
pub open spec fn all_nonstarters(x: Seq<Codepoint>) -> bool {
    forall|i: int| 0 <= i < x.len() ==> !(#[trigger] x[i]).spec_is_starter()
}

/// `x` is empty or ends with a starter.
pub open spec fn settled(x: Seq<Codepoint>) -> bool {
    x.len() > 0 ==> x.last().spec_is_starter()
}

/// An ascending run of nonstarters behind settled, ordered text keeps the
/// text ordered.
pub proof fn lemma_ordered_add_sorted(a: Seq<Codepoint>, b: Seq<Codepoint>)
    requires
        canonically_ordered(a),
        settled(a),
        sorted_by_ccc(b),
    ensures
        canonically_ordered(a + b),
{
    let x = a + b;
    assert forall|i: int, j: int|
        #![trigger x[i], x[j]]
        0 <= i && j == i + 1 && j < x.len() && !x[i].spec_is_starter()
            && !x[j].spec_is_starter() implies x[i].spec_ccc() <= x[j].spec_ccc() by {
        if j < a.len() {
            assert(x[i] == a[i] && x[j] == a[j]);
        } else if i < a.len() {
            assert(x[i] == a.last());
        } else {
            assert(x[i] == b[i - a.len()] && x[j] == b[j - a.len()]);
        }
    }
}

/// A starter behind ordered text keeps the text ordered, and settles it.
pub proof fn lemma_ordered_push_starter(a: Seq<Codepoint>, c: Codepoint)
    requires
        canonically_ordered(a),
        c.spec_is_starter(),
    ensures
        canonically_ordered(a.push(c)),
        settled(a.push(c)),
{
    let x = a.push(c);
    assert forall|i: int, j: int|
        #![trigger x[i], x[j]]
        0 <= i && j == i + 1 && j < x.len() && !x[i].spec_is_starter()
            && !x[j].spec_is_starter() implies x[i].spec_ccc() <= x[j].spec_ccc() by {
        if j < a.len() {
            assert(x[i] == a[i] && x[j] == a[j]);
        }
    }
}

/// What is settled is ordered and ends with a starter; what waits are
/// nonstarters.
pub proof fn lemma_feed_ordered(d: Seq<Codepoint>)
    ensures
        canonically_ordered(Reordering::start().feed_all(d).out),
        settled(Reordering::start().feed_all(d).out),
        all_nonstarters(Reordering::start().feed_all(d).pending),
    decreases d.len(),
{
    if d.len() > 0 {
        let front = d.drop_last();
        let c = d.last();
        lemma_feed_ordered(front);
        let st = Reordering::start().feed_all(front);
        if c.spec_is_starter() {
            let sorted = sort_by_ccc(st.pending);
            assert(sorted_by_ccc(sorted)) by {
                lemma_sort_properties(st.pending);
            }
            let joined = st.out + sorted;
            assert(canonically_ordered(joined)) by {
                lemma_ordered_add_sorted(st.out, sorted);
            }
            assert(canonically_ordered(joined.push(c)) && settled(joined.push(c))) by {
                lemma_ordered_push_starter(joined, c);
            }
            assert(Reordering::start().feed_all(d).out == joined.push(c)) by {
                assert(joined + seq![c] =~= joined.push(c));
            }
            assert(Reordering::start().feed_all(d).pending =~= Seq::<Codepoint>::empty());
        } else {
            let waits = st.pending.push(c);
            assert(Reordering::start().feed_all(d).pending == waits);
            assert(Reordering::start().feed_all(d).out == st.out);
            assert forall|i: int| 0 <= i < waits.len() implies !(#[trigger] waits[i]).spec_is_starter() by {
                if i < st.pending.len() {
                    assert(waits[i] == st.pending[i]);
                }
            }
        }
    }
}

/// **Ordering.** In canonically reordered text no nonstarter stands
/// directly before a nonstarter of a lower combining class.
pub proof fn law_reorder_is_ordered(d: Seq<Codepoint>)
    ensures
        canonically_ordered(reorder(d)),
{
    let st = Reordering::start().feed_all(d);
    lemma_feed_ordered(d);
    lemma_sort_properties(st.pending);
    lemma_ordered_add_sorted(st.out, sort_by_ccc(st.pending));
}

/// **Ordering.** In the normal form of a text no nonstarter stands directly
/// before a nonstarter of a lower combining class.
pub proof fn law_ordering(t: Tables, s: Seq<char>)
    ensures
        canonically_ordered(normalized_codepoints(t, s)),
{
    law_reorder_is_ordered(t.decompose_all(s));
}

/// What is settled and what waits hold every class as the text read so far
/// holds it.
pub proof fn lemma_feed_keeps_classes(d: Seq<Codepoint>, k: int)
    requires
        0 <= k <= 255,
    ensures
        of_class(Reordering::start().feed_all(d).out, k) + of_class(
            Reordering::start().feed_all(d).pending,
            k,
        ) == of_class(d, k),
    decreases d.len(),
{
    let empty = Seq::<Codepoint>::empty();
    if d.len() == 0 {
        lemma_of_class_empty(k);
        assert(d =~= empty);
        assert(empty + empty =~= empty);
    } else {
        let front = d.drop_last();
        let c = d.last();
        lemma_feed_keeps_classes(front, k);
        let st = Reordering::start().feed_all(front);
        assert(front.push(c) =~= d);
        lemma_of_class_push(front, c, k);
        if c.spec_is_starter() {
            lemma_sort_properties(st.pending);
            lemma_of_class_add(st.out, sort_by_ccc(st.pending), k);
            assert(st.out + sort_by_ccc(st.pending) + seq![c] =~= (st.out + sort_by_ccc(
                st.pending,
            )).push(c));
            lemma_of_class_push(st.out + sort_by_ccc(st.pending), c, k);
            lemma_of_class_empty(k);
            let kept = of_class(st.out, k) + of_class(st.pending, k);
            if c.spec_ccc() == k {
                assert(kept.push(c) + empty =~= kept.push(c));
            } else {
                assert(kept + empty =~= kept);
            }
        } else {
            lemma_of_class_push(st.pending, c, k);
            if c.spec_ccc() == k {
                assert(of_class(st.out, k) + of_class(st.pending, k).push(c) =~= (of_class(
                    st.out,
                    k,
                ) + of_class(st.pending, k)).push(c));
            }
        }
    }
}

/// **Stability.** Canonical reordering keeps the codepoints of every
/// combining class, starters included, in the order in which they came.
pub proof fn law_reorder_is_stable(d: Seq<Codepoint>, k: int)
    requires
        0 <= k <= 255,
    ensures
        of_class(reorder(d), k) == of_class(d, k),
{
    let st = Reordering::start().feed_all(d);
    lemma_feed_keeps_classes(d, k);
    lemma_sort_properties(st.pending);
    lemma_of_class_add(st.out, sort_by_ccc(st.pending), k);
}

/// **Stability.** The codepoints of one combining class stand in the normal
/// form in the order that they have in the decomposed text.
pub proof fn law_stability(t: Tables, s: Seq<char>, k: int)
    requires
        0 <= k <= 255,
    ensures
        of_class(normalized_codepoints(t, s), k) == of_class(t.decompose_all(s), k),
{
    law_reorder_is_stable(t.decompose_all(s), k);
}

/// A text of characters that all have the zero word is its own normal form.
pub proof fn law_plain_text(t: Tables, s: Seq<char>)
    requires
        all_plain(t, s),
    ensures
        normalized(t, s) == s,
{
    let none = Seq::<Codepoint>::empty();
    let nothing = Seq::<char>::empty();
    lemma_plain_reading(t, s);
    lemma_finished(t, nothing, none, s, s);
    lemma_sort_empty();
    assert(scalars(none) =~= nothing);
    assert(nothing + nothing + s =~= s);
}

/// Reading plain characters only leaves the output empty and the whole
/// text in the block.
pub proof fn lemma_plain_reading(t: Tables, s: Seq<char>)
    requires
        all_plain(t, s),
    ensures
        stands_for(t, Seq::<char>::empty(), Seq::<Codepoint>::empty(), s, s),
    decreases s.len(),
{
    if s.len() == 0 {
        lemma_stands_at_start(t);
        assert(s =~= Seq::<char>::empty());
    } else {
        let front = s.drop_last();
        assert forall|i: int| 0 <= i < front.len() implies t.lookup(#[trigger] front[i] as u32)
            == 0 by {
            assert(front[i] == s[i]);
        }
        lemma_plain_reading(t, front);
        assert(t.lookup(s[s.len() - 1] as u32) == 0);
        lemma_plain_step(
            t,
            Seq::<char>::empty(),
            Seq::<Codepoint>::empty(),
            front,
            front,
            s.last(),
        );
        assert(front.push(s.last()) =~= s);
    }
}

/// **ASCII passthrough.** Under well-formed tables a text of ASCII
/// characters is its own normal form.
pub proof fn law_ascii_passthrough(t: Tables, s: Seq<char>)
    requires
        t.well_formed(),
        is_ascii_chars(s),
    ensures
        normalized(t, s) == s,
{
    assert forall|i: int| 0 <= i < s.len() implies t.lookup(#[trigger] s[i] as u32) == 0 by {
        assert(t.code_ok(s[i] as u32));
    }
    law_plain_text(t, s);
}

/// **Hangul.** Under well-formed tables a precomposed syllable decomposes
/// by the arithmetic of its position: into its leading consonant and its
/// vowel, and its trailing consonant if it has one.
pub proof fn law_hangul(t: Tables, code: u32)
    requires
        t.well_formed(),
        is_hangul_syllable(code),
    ensures
        t.decomposition(code) == hangul_decomposition(code),
        2 <= t.decomposition(code).len() <= 3,
        t.decomposition(code)[0] == Codepoint::starter((0x1100 + (code - 0xAC00) / 588) as u32),
        t.decomposition(code)[1] == Codepoint::starter(
            (0x1161 + (code - 0xAC00) % 588 / 28) as u32,
        ),
        t.decomposition(code).len() == 3 <==> (code - 0xAC00) % 28 != 0,
        t.decomposition(code).len() == 3 ==> t.decomposition(code)[2] == Codepoint::starter(
            (0x11A7 + (code - 0xAC00) % 28) as u32,
        ),
{
    assert(t.code_ok(code));
    lemma_hangul_decomposition(code);
}

/// **Length bound.** Under well-formed tables no scalar value decomposes
/// into more than eighteen codepoints, and every one into at least one.
pub proof fn law_decomposition_length(t: Tables, code: u32)
    requires
        t.well_formed(),
    ensures
        1 <= t.decomposition(code).len() <= MAX_DECOMPOSITION_LENGTH,
{
    if code <= LAST_DECOMPOSING_CODEPOINT {
        assert(t.code_ok(code));
        if is_hangul_syllable(code) {
            lemma_hangul_decomposition(code);
        }
    }
}

/// No more codepoints wait after `d` has been read than waited before,
/// plus the length of `d`.
pub proof fn lemma_pending_growth(st: Reordering, d: Seq<Codepoint>)
    ensures
        st.feed_all(d).pending.len() <= st.pending.len() + d.len(),
    decreases d.len(),
{
    if d.len() > 0 {
        lemma_pending_growth(st, d.drop_last());
    }
}

/// **Length bound.** Under well-formed tables one more character of the
/// text lets at most eighteen more codepoints wait for reordering.
pub proof fn law_buffer_growth(t: Tables, s: Seq<char>, c: char)
    requires
        t.well_formed(),
    ensures
        Reordering::start().feed_all(t.decompose_all(s.push(c))).pending.len()
            <= Reordering::start().feed_all(t.decompose_all(s)).pending.len()
            + MAX_DECOMPOSITION_LENGTH,
{
    let d = t.decompose_all(s);
    let part = t.decomposition(c as u32);
    assert(s.push(c).drop_last() =~= s);
    crate::ordering::lemma_feed_add(Reordering::start(), d, part);
    lemma_pending_growth(Reordering::start().feed_all(d), part);
    law_decomposition_length(t, c as u32);
}

/// The predicate "is fully decomposed under `t`".
pub open spec fn stable_under(t: Tables) -> spec_fn(Codepoint) -> bool {
    |c: Codepoint| t.is_stable(c)
}

/// Under well-formed tables every codepoint of a decomposition is fully
/// decomposed.
pub proof fn lemma_decomposition_stable(t: Tables, c: char)
    requires
        t.well_formed(),
    ensures
        all(t.decomposition(c as u32), stable_under(t)),
{
    let code = c as u32;
    let d = t.decomposition(code);
    if code <= LAST_DECOMPOSING_CODEPOINT {
        assert(t.code_ok(code));
    }
    match t.descriptor(code) {
        DecompositionValue::Starter => {
            Codepoint::lemma_pack_fields(code, 0);
        },
        DecompositionValue::Nonstarter(ccc) => {
            Codepoint::lemma_pack_fields(code, ccc);
        },
        DecompositionValue::Hangul => {
            lemma_hangul_decomposition(code);
            assert forall|i: int| 0 <= i < d.len() implies t.is_stable(#[trigger] d[i]) by {
                let e = hangul_decomposition(code)[i];
                assert(crate::hangul::is_jamo(e.spec_code()));
                assert(t.code_ok(e.spec_code()));
            }
        },
        _ => {},
    }
}

/// Under well-formed tables every codepoint of a decomposed text is fully
/// decomposed.
pub proof fn lemma_decomposed_text_stable(t: Tables, s: Seq<char>)
    requires
        t.well_formed(),
    ensures
        all(t.decompose_all(s), stable_under(t)),
    decreases s.len(),
{
    if s.len() > 0 {
        lemma_decomposed_text_stable(t, s.drop_last());
        lemma_decomposition_stable(t, s.last());
        let a = t.decompose_all(s.drop_last());
        let b = t.decomposition(s.last() as u32);
        assert forall|i: int| 0 <= i < (a + b).len() implies stable_under(t)(#[trigger] (a + b)[i]) by {
            if i < a.len() {
                assert((a + b)[i] == a[i]);
            } else {
                assert((a + b)[i] == b[i - a.len()]);
            }
        }
    }
}

/// Reading keeps what holds of every codepoint.
pub proof fn lemma_feed_keeps_all(d: Seq<Codepoint>, p: spec_fn(Codepoint) -> bool)
    requires
        all(d, p),
    ensures
        all(Reordering::start().feed_all(d).out, p),
        all(Reordering::start().feed_all(d).pending, p),
    decreases d.len(),
{
    if d.len() > 0 {
        let front = d.drop_last();
        let c = d.last();
        assert forall|i: int| 0 <= i < front.len() implies p(#[trigger] front[i]) by {
            assert(front[i] == d[i]);
        }
        assert(p(d[d.len() - 1]));
        lemma_feed_keeps_all(front, p);
        let st = Reordering::start().feed_all(front);
        let next = Reordering::start().feed_all(d);
        if c.spec_is_starter() {
            let sorted = sort_by_ccc(st.pending);
            lemma_sort_keeps_all(st.pending, p);
            assert(next.out == st.out + sorted + seq![c]);
            assert forall|i: int| 0 <= i < next.out.len() implies p(#[trigger] next.out[i]) by {
                if i < st.out.len() {
                    assert(next.out[i] == st.out[i]);
                } else if i < st.out.len() + sorted.len() {
                    assert(next.out[i] == sorted[i - st.out.len()]);
                } else {
                    assert(next.out[i] == c);
                }
            }
        } else {
            assert(next.pending == st.pending.push(c));
            assert forall|i: int| 0 <= i < next.pending.len() implies p(
                #[trigger] next.pending[i],
            ) by {
                if i < st.pending.len() {
                    assert(next.pending[i] == st.pending[i]);
                }
            }
        }
    }
}

/// Canonical reordering keeps what holds of every codepoint.
pub proof fn lemma_reorder_keeps_all(d: Seq<Codepoint>, p: spec_fn(Codepoint) -> bool)
    requires
        all(d, p),
    ensures
        all(reorder(d), p),
{
    let st = Reordering::start().feed_all(d);
    let sorted = sort_by_ccc(st.pending);
    lemma_feed_keeps_all(d, p);
    lemma_sort_keeps_all(st.pending, p);
    assert forall|i: int| 0 <= i < reorder(d).len() implies p(#[trigger] reorder(d)[i]) by {
        if i < st.out.len() {
            assert(reorder(d)[i] == st.out[i]);
        } else {
            assert(reorder(d)[i] == sorted[i - st.out.len()]);
        }
    }
}

/// The characters of fully decomposed codepoints decompose into those
/// codepoints again.
pub proof fn lemma_stable_roundtrip(t: Tables, r: Seq<Codepoint>)
    requires
        all(r, stable_under(t)),
    ensures
        t.decompose_all(scalars(r)) == r,
    decreases r.len(),
{
    if r.len() == 0 {
        assert(t.decompose_all(scalars(r)) =~= r);
    } else {
        let front = r.drop_last();
        let e = r.last();
        assert forall|i: int| 0 <= i < front.len() implies stable_under(t)(#[trigger] front[i]) by {
            assert(front[i] == r[i]);
        }
        assert(stable_under(t)(r[r.len() - 1]));
        lemma_stable_roundtrip(t, front);
        assert(scalars(r).drop_last() =~= scalars(front));
        assert(scalars(r).last() == scalar_of(e));
        e.lemma_unpack_pack();
        assert(scalar_of(e) as u32 == e.spec_code());
        assert(t.decomposition(e.spec_code()) =~= seq![e]);
        assert(front + seq![e] =~= r);
    }
}

/// Reading ordered text settles and keeps waiting exactly what was read,
/// and what waits ascends.
pub proof fn lemma_feed_of_ordered(x: Seq<Codepoint>)
    requires
        canonically_ordered(x),
    ensures
        Reordering::start().feed_all(x).out + Reordering::start().feed_all(x).pending == x,
        sorted_by_ccc(Reordering::start().feed_all(x).pending),
        all_nonstarters(Reordering::start().feed_all(x).pending),
        Reordering::start().feed_all(x).pending.len() > 0 ==> Reordering::start().feed_all(
            x,
        ).pending.last() == x.last(),
    decreases x.len(),
{
    let empty = Seq::<Codepoint>::empty();
    if x.len() == 0 {
        assert(empty + empty =~= x);
    } else {
        let front = x.drop_last();
        let c = x.last();
        assert(canonically_ordered(front)) by {
            assert forall|i: int, j: int|
                #![trigger front[i], front[j]]
                0 <= i && j == i + 1 && j < front.len() && !front[i].spec_is_starter()
                    && !front[j].spec_is_starter() implies front[i].spec_ccc()
                <= front[j].spec_ccc() by {
                assert(front[i] == x[i] && front[j] == x[j]);
            }
        }
        lemma_feed_of_ordered(front);
        let st = Reordering::start().feed_all(front);
        let next = Reordering::start().feed_all(x);
        if c.spec_is_starter() {
            lemma_sort_of_sorted(st.pending);
            assert(next.out + next.pending =~= (st.out + st.pending).push(c));
            assert(front.push(c) =~= x);
        } else {
            let waits = st.pending.push(c);
            assert(next.pending == waits);
            assert(next.out + waits =~= (st.out + st.pending).push(c));
            assert(front.push(c) =~= x);
            assert forall|i: int| 0 <= i < waits.len() implies !(#[trigger] waits[i]).spec_is_starter() by {
                if i < st.pending.len() {
                    assert(waits[i] == st.pending[i]);
                }
            }
            assert forall|i: int, j: int|
                #![trigger waits[i], waits[j]]
                0 <= i < j < waits.len() implies waits[i].spec_ccc() <= waits[j].spec_ccc() by {
                if j < st.pending.len() {
                    assert(waits[i] == st.pending[i] && waits[j] == st.pending[j]);
                } else {
                    let last = st.pending.len() - 1;
                    assert(waits[i] == st.pending[i]);
                    assert(st.pending[last] == front.last());
                    assert(front.last() == x[x.len() - 2] && c == x[x.len() - 1]);
                    assert(st.pending[last].spec_ccc() <= c.spec_ccc());
                    if i < last {
                        assert(st.pending[i].spec_ccc() <= st.pending[last].spec_ccc());
                    }
                }
            }
        }
    }
}

/// Canonical reordering leaves ordered text as it is.
pub proof fn lemma_reorder_of_ordered(x: Seq<Codepoint>)
    requires
        canonically_ordered(x),
    ensures
        reorder(x) == x,
{
    let st = Reordering::start().feed_all(x);
    lemma_feed_of_ordered(x);
    lemma_sort_of_sorted(st.pending);
}

/// Canonical reordering changes nothing when it is done again.
pub proof fn law_reorder_idempotent(d: Seq<Codepoint>)
    ensures
        reorder(reorder(d)) == reorder(d),
{
    law_reorder_is_ordered(d);
    lemma_reorder_of_ordered(reorder(d));
}

/// **Idempotence.** Under well-formed tables the normal form of a normal
/// form is that normal form.
pub proof fn law_idempotence(t: Tables, s: Seq<char>)
    requires
        t.well_formed(),
    ensures
        normalized(t, normalized(t, s)) == normalized(t, s),
{
    let d = t.decompose_all(s);
    let r = reorder(d);
    lemma_decomposed_text_stable(t, s);
    lemma_reorder_keeps_all(d, stable_under(t));
    lemma_stable_roundtrip(t, r);
    law_reorder_idempotent(d);
}

/// **Ordering.** Under well-formed tables, of two neighbouring characters
/// of a normal form that are both nonstarters by the tables, the second
/// has no lower combining class than the first.
pub proof fn law_ordering_of_text(t: Tables, s: Seq<char>, i: int)
    requires
        t.well_formed(),
        0 <= i,
        i + 1 < normalized(t, s).len(),
        t.ccc(normalized(t, s)[i] as u32) != 0,
        t.ccc(normalized(t, s)[i + 1] as u32) != 0,
    ensures
        t.ccc(normalized(t, s)[i] as u32) <= t.ccc(normalized(t, s)[i + 1] as u32),
{
    let d = t.decompose_all(s);
    let r = reorder(d);
    lemma_decomposed_text_stable(t, s);
    lemma_reorder_keeps_all(d, stable_under(t));
    law_reorder_is_ordered(d);
    let a = r[i];
    let b = r[i + 1];
    assert(stable_under(t)(a) && stable_under(t)(b));
    assert(normalized(t, s)[i] == scalar_of(a) && normalized(t, s)[i + 1] == scalar_of(b));
    assert(scalar_of(a) as u32 == a.spec_code() && scalar_of(b) as u32 == b.spec_code());
}

/// Canonical reordering keeps the length.
pub proof fn law_reorder_length(d: Seq<Codepoint>)
    ensures
        reorder(d).len() == d.len(),
{
    let st = Reordering::start().feed_all(d);
    lemma_feed_length(Reordering::start(), d);
    lemma_sort_length(st.pending);
}

/// What waits is the end of what was read, and every starter read stands
/// settled at the position at which it was read.
pub proof fn lemma_feed_keeps_starters(d: Seq<Codepoint>)
    ensures
        Reordering::start().feed_all(d).out.len() + Reordering::start().feed_all(d).pending.len()
            == d.len(),
        all_nonstarters(Reordering::start().feed_all(d).pending),
        forall|i: int|
            0 <= i < d.len() && (#[trigger] d[i]).spec_is_starter() ==> i
                < Reordering::start().feed_all(d).out.len() && Reordering::start().feed_all(
                d,
            ).out[i] == d[i],
    decreases d.len(),
{
    lemma_feed_length(Reordering::start(), d);
    lemma_feed_ordered(d);
    if d.len() > 0 {
        let front = d.drop_last();
        let c = d.last();
        let st = Reordering::start().feed_all(front);
        let next = Reordering::start().feed_all(d);
        lemma_feed_keeps_starters(front);
        lemma_sort_length(st.pending);
        assert forall|i: int| 0 <= i < d.len() && (#[trigger] d[i]).spec_is_starter() implies i
            < next.out.len() && next.out[i] == d[i] by {
            if i < front.len() {
                assert(d[i] == front[i]);
                assert(i < st.out.len() && st.out[i] == d[i]);
                if c.spec_is_starter() {
                    assert(next.out == st.out + sort_by_ccc(st.pending) + seq![c]);
                    assert(next.out[i] == st.out[i]);
                }
            } else {
                assert(d[i] == c);
                assert(next.out == st.out + sort_by_ccc(st.pending) + seq![c]);
                assert(next.out[i] == c);
            }
        }
    }
}

/// Canonical reordering leaves every starter at its position.
pub proof fn law_reorder_keeps_starters(d: Seq<Codepoint>, i: int)
    requires
        0 <= i < d.len(),
        d[i].spec_is_starter(),
    ensures
        reorder(d).len() == d.len(),
        reorder(d)[i] == d[i],
{
    law_reorder_length(d);
    lemma_feed_keeps_starters(d);
}

/// The normal form of a text has as many characters as its decomposition
/// has codepoints.
pub proof fn law_normal_form_length(t: Tables, s: Seq<char>)
    ensures
        normalized(t, s).len() == t.decompose_all(s).len(),
        normalized_codepoints(t, s).len() == t.decompose_all(s).len(),
{
    law_reorder_length(t.decompose_all(s));
}

} // verus!
