//! How the state of the normalizer stands for a state of the model.
use vstd::prelude::*;
use vstd::utf8::*;
use crate::codepoint::Codepoint;
use crate::feeding::fed;
use crate::model::normalized;
use crate::model::sort_by_ccc;
use crate::model::Reordering;
use crate::model::Tables;
use crate::ordering::lemma_feed_add;
use crate::ordering::lemma_feed_prefix;
use crate::ordering::lemma_feed_push;
use crate::ordering::lemma_sort_empty;
use crate::reader::boundary;
use crate::reader::chars_between;
use crate::reader::lemma_between_boundaries;
use crate::reader::lemma_first_between;
use crate::reader::lemma_step;
use crate::reader::scalar_at;
use crate::reader::width_at;
use crate::text::lemma_scalars_add;
use crate::text::scalars;

verus! {

/// Every character of `block` has the zero word: it is a starter that
/// stays as it is.
pub open spec fn all_plain(t: Tables, block: Seq<char>) -> bool {
    forall|i: int| 0 <= i < block.len() ==> t.lookup(#[trigger] block[i] as u32) == 0
}

/// The output `out` and the buffer `pending`, with the characters of
/// `block` read but not yet written, are where the model is after
/// `consumed`.
pub open spec fn stands_for(
    t: Tables,
    out: Seq<char>,
    pending: Seq<Codepoint>,
    block: Seq<char>,
    consumed: Seq<char>,
) -> bool {
    let st = Reordering::start().feed_all(t.decompose_all(consumed));
    if block.len() == 0 {
        out == scalars(st.out) && pending == st.pending
    } else {
        out + scalars(sort_by_ccc(pending)) + block == scalars(st.out) && st.pending.len() == 0
    }
}

/// A character with the zero word joins the block.
pub proof fn lemma_plain_step(
    t: Tables,
    out: Seq<char>,
    pending: Seq<Codepoint>,
    block: Seq<char>,
    consumed: Seq<char>,
    c: char,
)
    requires
        stands_for(t, out, pending, block, consumed),
        t.lookup(c as u32) == 0,
    ensures
        stands_for(t, out, pending, block.push(c), consumed.push(c)),
{
    let d = t.decompose_all(consumed);
    let st = Reordering::start().feed_all(d);
    let x = Codepoint::starter(c as u32);
    assert(consumed.push(c).drop_last() =~= consumed);
    assert(t.decompose_all(consumed.push(c)) == d + seq![x]);
    assert(d + seq![x] =~= d.push(x));
    lemma_feed_push(Reordering::start(), d, x);
    lemma_scalars_add(st.out + sort_by_ccc(st.pending), seq![x]);
    lemma_scalars_add(st.out, sort_by_ccc(st.pending));
    assert(scalars(seq![x]) =~= seq![c]);
    if block.len() == 0 {
        assert(out + scalars(sort_by_ccc(pending)) + block.push(c) =~= scalars(st.out) + scalars(
            sort_by_ccc(st.pending),
        ) + seq![c]);
    } else {
        lemma_sort_empty();
        assert(st.pending =~= Seq::<Codepoint>::empty());
        assert(out + scalars(sort_by_ccc(pending)) + block.push(c) =~= scalars(st.out) + scalars(
            sort_by_ccc(st.pending),
        ) + seq![c]);
    }
}

/// A character that was dispatched moves the model on by its decomposition.
pub proof fn lemma_dispatch_step(
    t: Tables,
    out: Seq<char>,
    pending: Seq<Codepoint>,
    consumed: Seq<char>,
    code: u32,
)
    requires
        stands_for(t, out, pending, Seq::<char>::empty(), consumed),
        is_scalar(code),
    ensures
        stands_for(
            t,
            fed(out, pending, t.decomposition(code)).0,
            fed(out, pending, t.decomposition(code)).1,
            Seq::<char>::empty(),
            consumed.push(code as char),
        ),
{
    let d = t.decompose_all(consumed);
    let st = Reordering::start().feed_all(d);
    let part = t.decomposition(code);
    assert(consumed.push(code as char).drop_last() =~= consumed);
    assert(t.decompose_all(consumed.push(code as char)) == d + part);
    lemma_feed_add(Reordering::start(), d, part);
    lemma_feed_prefix(st.out, st.pending, part);
    let rest = (Reordering { out: seq![], pending }).feed_all(part);
    lemma_scalars_add(st.out, rest.out);
}

/// Writing the block after the flushed buffer leaves the model where it is.
pub proof fn lemma_block_written(
    t: Tables,
    out: Seq<char>,
    pending: Seq<Codepoint>,
    block: Seq<char>,
    consumed: Seq<char>,
)
    requires
        stands_for(t, out, pending, block, consumed),
        block.len() > 0,
    ensures
        stands_for(
            t,
            out + scalars(sort_by_ccc(pending)) + block,
            Seq::<Codepoint>::empty(),
            Seq::<char>::empty(),
            consumed,
        ),
{
    let st = Reordering::start().feed_all(t.decompose_all(consumed));
    assert(st.pending =~= Seq::<Codepoint>::empty());
}

/// At the end of the text the flushed output is the normal form.
pub proof fn lemma_finished(
    t: Tables,
    out: Seq<char>,
    pending: Seq<Codepoint>,
    block: Seq<char>,
    text: Seq<char>,
)
    requires
        stands_for(t, out, pending, block, text),
    ensures
        out + scalars(sort_by_ccc(pending)) + block == normalized(t, text),
{
    let st = Reordering::start().feed_all(t.decompose_all(text));
    lemma_scalars_add(st.out, sort_by_ccc(st.pending));
    if block.len() == 0 {
        assert(out + scalars(sort_by_ccc(pending)) + block =~= out + scalars(sort_by_ccc(pending)));
    } else {
        lemma_sort_empty();
        assert(st.pending =~= Seq::<Codepoint>::empty());
        assert(scalars(st.out) + scalars(Seq::<Codepoint>::empty()) =~= scalars(st.out));
    }
}

/// Flushing the buffer while a block waits leaves the model where it is.
pub proof fn lemma_buffer_flushed(
    t: Tables,
    out: Seq<char>,
    pending: Seq<Codepoint>,
    block: Seq<char>,
    consumed: Seq<char>,
)
    requires
        stands_for(t, out, pending, block, consumed),
        block.len() > 0,
    ensures
        stands_for(
            t,
            out + scalars(sort_by_ccc(pending)),
            Seq::<Codepoint>::empty(),
            block,
            consumed,
        ),
{
    lemma_sort_empty();
    assert(out + scalars(sort_by_ccc(pending)) + scalars(Seq::<Codepoint>::empty()) + block
        =~= out + scalars(sort_by_ccc(pending)) + block);
}

/// Before anything is read, nothing is written and nothing waits.
pub proof fn lemma_stands_at_start(t: Tables)
    ensures
        stands_for(
            t,
            Seq::<char>::empty(),
            Seq::<Codepoint>::empty(),
            Seq::<char>::empty(),
            Seq::<char>::empty(),
        ),
{
    assert(scalars(Seq::<Codepoint>::empty()) =~= Seq::<char>::empty());
}

/// A block of characters with the zero word stays one when such a
/// character joins it.
pub proof fn lemma_plain_block(t: Tables, block: Seq<char>, c: char)
    requires
        all_plain(t, block),
        t.lookup(c as u32) == 0,
    ensures
        all_plain(t, block.push(c)),
{
    let more = block.push(c);
    assert forall|k: int| 0 <= k < more.len() implies t.lookup(#[trigger] more[k] as u32) == 0 by {
        if k < block.len() {
            assert(more[k] == block[k]);
        }
    }
}

/// From `from` on only characters with the zero word were walked over, up
/// to the character at `p`, whose word is not zero and which is handed out
/// as `entry`.
pub open spec fn walked_to(t: Tables, b: Seq<u8>, from: int, p: int, entry: (u64, u32)) -> bool {
    &&& 0 <= from <= p < b.len()
    &&& boundary(b, p)
    &&& all_plain(t, chars_between(b, from, p))
    &&& entry.1 == scalar_at(b, p)
    &&& entry.0 == t.lookup(entry.1)
    &&& entry.0 != 0
}

/// Nothing has been walked over yet.
pub proof fn lemma_walk_start(t: Tables, b: Seq<u8>, from: int)
    requires
        0 <= from <= b.len(),
    ensures
        valid_utf8(b.subrange(from, from)),
        chars_between(b, from, from) == Seq::<char>::empty(),
        all_plain(t, chars_between(b, from, from)),
{
    assert(b.subrange(from, from) =~= Seq::<u8>::empty());
    assert(chars_between(b, from, from) =~= Seq::<char>::empty());
}

/// One more character with the zero word has been walked over.
pub proof fn lemma_walk_step(t: Tables, b: Seq<u8>, from: int, i: int)
    requires
        boundary(b, i),
        i < b.len(),
        0 <= from <= i,
        valid_utf8(b.subrange(from, i)),
        all_plain(t, chars_between(b, from, i)),
        t.lookup(scalar_at(b, i)) == 0,
    ensures
        valid_utf8(b.subrange(from, i + width_at(b, i))),
        all_plain(t, chars_between(b, from, i + width_at(b, i))),
{
    lemma_step(b, from, i);
    let walked = chars_between(b, from, i);
    let c = scalar_at(b, i) as char;
    let more = chars_between(b, from, i + width_at(b, i));
    assert(more == walked.push(c));
    assert forall|k: int| 0 <= k < more.len() implies t.lookup(#[trigger] more[k] as u32) == 0 by {
        if k < walked.len() {
            assert(more[k] == walked[k]);
        } else {
            assert(more[k] == c);
            assert(c as u32 == scalar_at(b, i));
        }
    }
}

/// Every character that starts within a walk over characters with the
/// zero word has the zero word.
pub proof fn lemma_walked_is_plain(t: Tables, b: Seq<u8>, from: int, p: int, q: int)
    requires
        boundary(b, from),
        boundary(b, p),
        boundary(b, q),
        from <= p < q,
        all_plain(t, chars_between(b, from, q)),
    ensures
        t.lookup(scalar_at(b, p)) == 0,
{
    lemma_between_boundaries(b, from, p, q);
    lemma_first_between(b, p, q);
    lemma_step(b, p, p);
    let walked = chars_between(b, from, q);
    let k = chars_between(b, from, p).len() as int;
    assert(walked[k] == chars_between(b, p, q)[0]);
    assert(t.lookup(walked[k] as u32) == 0);
    assert((scalar_at(b, p) as char) as u32 == scalar_at(b, p));
}

/// The walk stops at one place only: at the first character whose word is
/// not zero.
pub proof fn lemma_walk_stops_once(
    t: Tables,
    b: Seq<u8>,
    from: int,
    p: int,
    q: int,
    first: (u64, u32),
    second: (u64, u32),
)
    requires
        boundary(b, from),
        walked_to(t, b, from, p, first),
        walked_to(t, b, from, q, second),
    ensures
        p == q,
        first == second,
{
    if p < q {
        lemma_walked_is_plain(t, b, from, p, q);
    }
    if q < p {
        lemma_walked_is_plain(t, b, from, q, p);
    }
}

} // verus!
