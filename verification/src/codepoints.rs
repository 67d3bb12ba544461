//! Normalization into packed codepoints instead of UTF-8: for callers that
//! go on to work with scalar values and combining classes.
use vstd::prelude::*;
use vstd::utf8::*;
use crate::codepoint::Codepoint;
use crate::decomposition::parse_data_value;
use crate::decomposition::DecompositionValue;
use crate::hangul::decompose_hangul_syllable_u32;
use crate::hangul::lemma_hangul_decomposition;
use crate::model::normalized_codepoints;
use crate::model::sort_by_ccc;
use crate::model::Reordering;
use crate::model::Tables;
use crate::model::LAST_DECOMPOSING_CODEPOINT;
use crate::model::MAX_DECOMPOSITION_LENGTH;
use crate::normalizer::found;
use crate::normalizer::sort_buffer;
use crate::normalizer::DecomposingNormalizer;
use crate::ordering::lemma_feed_add;
use crate::ordering::lemma_feed_length;
use crate::ordering::lemma_feed_one;
use crate::ordering::lemma_feed_push;
use crate::ordering::lemma_sort_empty;
use crate::progress::all_plain;
use crate::progress::lemma_walk_start;
use crate::progress::lemma_walk_step;
use crate::progress::lemma_walk_stops_once;
use crate::progress::lemma_walked_is_plain;
use crate::progress::walked_to;
use crate::reader::boundary;
use crate::reader::chars_between;
use crate::reader::lemma_step;
use crate::reader::scalar_at;
use crate::reader::scalar_width;
use crate::reader::width_at;
use crate::reader::CharsIter;
use crate::text::all_scalar;

verus! {

/// The output and the buffer as a state of the model.
pub open spec fn state(out: Seq<Codepoint>, pending: Seq<Codepoint>) -> Reordering {
    Reordering { out, pending }
}

/// The output `out` and the buffer `pending` are where the model is after
/// `consumed`.
pub open spec fn models(
    t: Tables,
    out: Seq<Codepoint>,
    pending: Seq<Codepoint>,
    consumed: Seq<char>,
) -> bool {
    state(out, pending) == Reordering::start().feed_all(t.decompose_all(consumed))
}

/// The text has been read to its end, nothing waits, and the output is the
/// normal form.
pub open spec fn finished(
    t: Tables,
    out: Seq<Codepoint>,
    pending: Seq<Codepoint>,
    iter: &CharsIter,
) -> bool {
    &&& iter@.cursor == iter@.bytes.len()
    &&& pending.len() == 0
    &&& out == normalized_codepoints(t, iter.text())
}

/// The character read last is the one of `entry`, and the output and the
/// buffer are where the model is before that character.
pub open spec fn stopped_before(
    t: Tables,
    entry: (u64, u32),
    out: Seq<Codepoint>,
    pending: Seq<Codepoint>,
    iter: &CharsIter,
) -> bool {
    &&& found(t, entry)
    &&& iter.consumed().len() > 0
    &&& iter.consumed().last() == entry.1 as char
    &&& models(t, out, pending, iter.consumed().drop_last())
}

/// The starters that the characters of `s` are when their word is zero.
pub open spec fn starters(s: Seq<char>) -> Seq<Codepoint> {
    Seq::new(s.len(), |i: int| Codepoint::starter(s[i] as u32))
}

/// The starters of the characters walked over, after one more character.
pub proof fn lemma_starters_step(out: Seq<Codepoint>, b: Seq<u8>, from: int, i: int)
    requires
        boundary(b, i),
        i < b.len(),
        0 <= from <= i,
        valid_utf8(b.subrange(from, i)),
    ensures
        out + starters(chars_between(b, from, i + width_at(b, i))) == (out + starters(
            chars_between(b, from, i),
        )).push(Codepoint::starter(scalar_at(b, i))),
{
    lemma_step(b, from, i);
    let c = scalar_at(b, i) as char;
    assert(c as u32 == scalar_at(b, i));
    assert(out + starters(chars_between(b, from, i).push(c)) =~= (out + starters(
        chars_between(b, from, i),
    )).push(Codepoint::starter(scalar_at(b, i))));
}

/// A starter settles what waits and then itself.
pub proof fn lemma_feed_starter(out: Seq<Codepoint>, pending: Seq<Codepoint>, c: Codepoint)
    requires
        c.spec_is_starter(),
    ensures
        state(out, pending).feed(c) == state((out + sort_by_ccc(pending)).push(c), seq![]),
        state(out, seq![]).feed(c) == state(out.push(c), seq![]),
{
    let empty = Seq::<Codepoint>::empty();
    lemma_sort_empty();
    assert(out + sort_by_ccc(pending) + seq![c] =~= (out + sort_by_ccc(pending)).push(c));
    assert(out + empty + seq![c] =~= out.push(c));
}

/// A character with the zero word is a starter that stays.
pub proof fn lemma_plain_char(
    t: Tables,
    out: Seq<Codepoint>,
    pending: Seq<Codepoint>,
    consumed: Seq<char>,
    c: char,
)
    requires
        models(t, out, pending, consumed),
        t.lookup(c as u32) == 0,
    ensures
        models(
            t,
            (out + sort_by_ccc(pending)).push(Codepoint::starter(c as u32)),
            seq![],
            consumed.push(c),
        ),
        pending.len() == 0 ==> models(
            t,
            out.push(Codepoint::starter(c as u32)),
            seq![],
            consumed.push(c),
        ),
{
    let d = t.decompose_all(consumed);
    let x = Codepoint::starter(c as u32);
    assert(consumed.push(c).drop_last() =~= consumed);
    assert(d + seq![x] =~= d.push(x));
    lemma_feed_push(Reordering::start(), d, x);
    lemma_feed_starter(out, pending, x);
    if pending.len() == 0 {
        assert(pending =~= Seq::<Codepoint>::empty());
    }
}

/// A character that was dispatched moves the model on by its decomposition.
pub proof fn lemma_dispatched(
    t: Tables,
    out: Seq<Codepoint>,
    pending: Seq<Codepoint>,
    consumed: Seq<char>,
    code: u32,
)
    requires
        models(t, out, pending, consumed),
        is_scalar(code),
    ensures
        state(out, pending).feed_all(t.decomposition(code)) == Reordering::start().feed_all(
            t.decompose_all(consumed.push(code as char)),
        ),
{
    assert(consumed.push(code as char).drop_last() =~= consumed);
    lemma_feed_add(Reordering::start(), t.decompose_all(consumed), t.decomposition(code));
}

/// Appends a codepoint to the output.
#[inline(always)]
fn write_u32(result: &mut Vec<Codepoint>, codepoint: Codepoint)
    ensures
        final(result)@ == old(result)@.push(codepoint),
{
    result.push(codepoint);
}

/// Sorts the buffer by combining class and moves it to the output.
#[inline(always)]
fn flush_buffer_u32(result: &mut Vec<Codepoint>, buffer: &mut Vec<Codepoint>)
    requires
        all_scalar(old(buffer)@),
    ensures
        final(result)@ == old(result)@ + sort_by_ccc(old(buffer)@),
        final(buffer)@ == Seq::<Codepoint>::empty(),
{
    if !buffer.is_empty() {
        sort_buffer(buffer);
        result.append(buffer);
    } else {
        proof {
            lemma_sort_empty();
            assert(buffer@ =~= Seq::<Codepoint>::empty());
            assert(old(result)@ + Seq::<Codepoint>::empty() =~= old(result)@);
        }
    }
}

/// Reads one codepoint of a decomposition: a starter flushes the buffer
/// and is written, a nonstarter joins the buffer.
#[inline(always)]
fn feed_u32(result: &mut Vec<Codepoint>, buffer: &mut Vec<Codepoint>, codepoint: Codepoint)
    requires
        all_scalar(old(buffer)@),
        is_scalar(codepoint.spec_code()),
    ensures
        state(final(result)@, final(buffer)@) == state(old(result)@, old(buffer)@).feed(codepoint),
        all_scalar(final(buffer)@),
        final(buffer)@.len() <= old(buffer)@.len() + 1,
{
    if codepoint.is_starter() {
        proof {
            lemma_feed_starter(old(result)@, old(buffer)@, codepoint);
        }
        flush_buffer_u32(result, buffer);
        write_u32(result, codepoint);
    } else {
        buffer.push(codepoint);
    }
}

impl DecomposingNormalizer {
    /// The normal form of `input` as packed codepoints, each with its
    /// combining class.
    #[inline(never)]
    pub fn normalize_u32(&self, input: &str) -> (result: Vec<Codepoint>)
        requires
            self.wf(),
        ensures
            result@ == normalized_codepoints(self@, input@),
    {
        let mut result: Vec<Codepoint> = Vec::with_capacity(input.len());
        let mut buffer: Vec<Codepoint> = Vec::with_capacity(18);
        let mut iter = CharsIter::new(input);
        proof {
            assert(iter.consumed() =~= Seq::<char>::empty());
            assert(result@ =~= Seq::<Codepoint>::empty());
            assert(buffer@ =~= Seq::<Codepoint>::empty());
        }
        loop
            invariant
                self.wf(),
                iter.wf(),
                iter.text() == input@,
                all_scalar(buffer@),
                models(self@, result@, buffer@, iter.consumed()) || finished(
                    self@,
                    result@,
                    buffer@,
                    &iter,
                ),
            decreases iter@.bytes.len() - iter@.cursor, buffer@.len(),
        {
            let entry = if !buffer.is_empty() {
                match self.forward_u32(&mut iter, &mut result, &mut buffer) {
                    Some(entry) => Some(entry),
                    None => continue ,
                }
            } else {
                proof {
                    assert(buffer@ =~= Seq::<Codepoint>::empty());
                }
                self.fast_forward_u32(&mut iter, &mut result)
            };
            match entry {
                Some((value, code)) => {
                    proof {
                        lemma_dispatched(
                            self@,
                            result@,
                            buffer@,
                            iter.consumed().drop_last(),
                            code,
                        );
                        assert(iter.consumed().drop_last().push(code as char) =~= iter.consumed());
                    }
                    self.handle_decomposition_value_u32(value, code, &mut result, &mut buffer);
                },
                None => return result,
            }
        }
    }

    /// While nonstarters wait, reads one character. If its word is not zero
    /// it is handed out for dispatch. Otherwise the buffer is flushed and
    /// the character is written.
    #[inline(always)]
    pub fn forward_u32(
        &self,
        iter: &mut CharsIter,
        result: &mut Vec<Codepoint>,
        buffer: &mut Vec<Codepoint>,
    ) -> (r: Option<(u64, u32)>)
        requires
            self.wf(),
            old(iter).wf(),
            all_scalar(old(buffer)@),
        ensures
            final(iter).wf(),
            final(iter).text() == old(iter).text(),
            final(iter)@.bytes == old(iter)@.bytes,
            final(iter)@.breakpoint == old(iter)@.breakpoint,
            old(iter)@.cursor == old(iter)@.bytes.len() ==> {
                &&& r is None
                &&& final(iter)@.cursor == old(iter)@.cursor
                &&& final(result)@ == old(result)@ + sort_by_ccc(old(buffer)@)
            },
            old(iter)@.cursor < old(iter)@.bytes.len() ==> {
                let c = scalar_at(old(iter)@.bytes, old(iter)@.cursor);
                &&& final(iter)@.cursor == old(iter)@.cursor + width_at(
                    old(iter)@.bytes,
                    old(iter)@.cursor,
                )
                &&& (r is Some <==> self@.lookup(c) != 0)
                &&& (r is Some ==> r->0 == (self@.lookup(c), c))
                &&& (r is None ==> final(result)@ == (old(result)@ + sort_by_ccc(
                    old(buffer)@,
                )).push(Codepoint::starter(c)))
            },
            r is Some ==> final(result)@ == old(result)@ && final(buffer)@ == old(buffer)@,
            r is None ==> final(buffer)@.len() == 0,
            models(self@, old(result)@, old(buffer)@, old(iter).consumed()) ==> match r {
                Some(entry) => stopped_before(
                    self@,
                    entry,
                    final(result)@,
                    final(buffer)@,
                    final(iter),
                ),
                None => models(self@, final(result)@, final(buffer)@, final(iter).consumed())
                    || finished(self@, final(result)@, final(buffer)@, final(iter)),
            },
    {
        let ghost t = self@;
        let ghost before = old(iter).consumed();
        let ghost in_step = models(self@, old(result)@, old(buffer)@, old(iter).consumed());
        if iter.is_empty() {
            proof {
                iter.lemma_consumed();
            }
            flush_buffer_u32(result, buffer);
            return None;
        }
        let first = iter.first_byte();
        if first < 0xC2 {
            iter.skip_ascii();
            proof {
                assert(t.code_ok(first as u32));
                if in_step {
                    lemma_plain_char(t, old(result)@, old(buffer)@, before, first as char);
                }
            }
            flush_buffer_u32(result, buffer);
            write_u32(result, Codepoint::from_code(first as u32));
            return None;
        }
        let code = iter.read_scalar(first);
        let data_value = self.get_decomposition_value(code);
        if data_value != 0 {
            proof {
                assert(iter.consumed().drop_last() =~= before);
            }
            Some((data_value, code))
        } else {
            proof {
                if in_step {
                    lemma_plain_char(t, old(result)@, old(buffer)@, before, code as char);
                }
            }
            flush_buffer_u32(result, buffer);
            write_u32(result, Codepoint::from_code(code));
            None
        }
    }

    /// While nothing waits, writes the characters whose word is zero as
    /// they come, up to the first other character, which is handed out for
    /// dispatch, or up to the end of the text.
    #[inline(always)]
    pub fn fast_forward_u32(&self, iter: &mut CharsIter, result: &mut Vec<Codepoint>) -> (r: Option<
        (u64, u32),
    >)
        requires
            self.wf(),
            old(iter).wf(),
        ensures
            final(iter).wf(),
            final(iter).text() == old(iter).text(),
            final(iter)@.bytes == old(iter)@.bytes,
            final(iter)@.breakpoint == old(iter)@.breakpoint,
            forall|q: int, entry: (u64, u32)|
                #[trigger] walked_to(self@, old(iter)@.bytes, old(iter)@.cursor, q, entry) ==> r
                    == Some(entry) && final(iter)@.cursor == q + width_at(old(iter)@.bytes, q),
            match r {
                Some(entry) => {
                    let p = final(iter)@.cursor - scalar_width(entry.1);
                    &&& walked_to(self@, old(iter)@.bytes, old(iter)@.cursor, p, entry)
                    &&& final(iter)@.cursor == p + width_at(old(iter)@.bytes, p)
                    &&& final(result)@ == old(result)@ + starters(
                        chars_between(old(iter)@.bytes, old(iter)@.cursor, p),
                    )
                },
                None => {
                    &&& final(iter)@.cursor == old(iter)@.bytes.len()
                    &&& all_plain(
                        self@,
                        chars_between(
                            old(iter)@.bytes,
                            old(iter)@.cursor,
                            old(iter)@.bytes.len() as int,
                        ),
                    )
                    &&& final(result)@ == old(result)@ + starters(
                        chars_between(
                            old(iter)@.bytes,
                            old(iter)@.cursor,
                            old(iter)@.bytes.len() as int,
                        ),
                    )
                },
            },
            models(self@, old(result)@, Seq::<Codepoint>::empty(), old(iter).consumed()) || finished(
                self@,
                old(result)@,
                Seq::<Codepoint>::empty(),
                old(iter),
            ) ==> match r {
                Some(entry) => stopped_before(
                    self@,
                    entry,
                    final(result)@,
                    Seq::<Codepoint>::empty(),
                    final(iter),
                ),
                None => final(result)@ == normalized_codepoints(self@, final(iter).text()),
            },
    {
        let ghost t = self@;
        let ghost none = Seq::<Codepoint>::empty();
        let ghost from = iter@.cursor;
        let ghost in_step = models(
            self@,
            old(result)@,
            Seq::<Codepoint>::empty(),
            old(iter).consumed(),
        ) || finished(self@, old(result)@, Seq::<Codepoint>::empty(), old(iter));
        proof {
            lemma_walk_start(t, iter@.bytes, from);
            assert(old(result)@ + starters(Seq::<char>::empty()) =~= old(result)@);
        }
        loop
            invariant
                self.wf(),
                t == self@,
                from == old(iter)@.cursor,
                0 <= from <= iter@.cursor,
                boundary(iter@.bytes, from),
                iter@.breakpoint == old(iter)@.breakpoint,
                valid_utf8(iter@.bytes.subrange(from, iter@.cursor)),
                all_plain(t, chars_between(iter@.bytes, from, iter@.cursor)),
                result@ == old(result)@ + starters(chars_between(iter@.bytes, from, iter@.cursor)),
                none == Seq::<Codepoint>::empty(),
                iter.wf(),
                iter.text() == old(iter).text(),
                iter@.bytes == old(iter)@.bytes,
                old(iter)@.cursor <= iter@.cursor,
                in_step == (models(
                    self@,
                    old(result)@,
                    Seq::<Codepoint>::empty(),
                    old(iter).consumed(),
                ) || finished(self@, old(result)@, Seq::<Codepoint>::empty(), old(iter))),
                in_step ==> models(t, result@, none, iter.consumed()) || finished(
                    t,
                    result@,
                    none,
                    iter,
                ),
            decreases iter@.bytes.len() - iter@.cursor,
        {
            if iter.is_empty() {
                proof {
                    assert forall|q: int, entry: (u64, u32)| #[trigger]
                        walked_to(t, iter@.bytes, from, q, entry) implies false by {
                        lemma_walked_is_plain(t, iter@.bytes, from, q, iter@.cursor);
                    }
                    iter.lemma_consumed();
                    lemma_sort_empty();
                    assert(result@ + none =~= result@);
                }
                return None;
            }
            let ghost consumed = iter.consumed();
            let ghost start = iter@.cursor;
            let first = iter.first_byte();
            if first < 0xC2 {
                iter.skip_ascii();
                proof {
                    assert(t.code_ok(first as u32));
                    if in_step {
                        lemma_plain_char(t, result@, none, consumed, first as char);
                    }
                    lemma_walk_step(t, iter@.bytes, from, start);
                    lemma_starters_step(old(result)@, iter@.bytes, from, start);
                }
                write_u32(result, Codepoint::from_code(first as u32));
                continue ;
            }
            let code = iter.read_scalar(first);
            let data_value = self.get_decomposition_value(code);
            if data_value != 0 {
                proof {
                    assert(iter.consumed().drop_last() =~= consumed);
                    lemma_step(iter@.bytes, from, start);
                    assert forall|q: int, entry: (u64, u32)| #[trigger]
                        walked_to(t, iter@.bytes, from, q, entry) implies q == start && entry == (
                        data_value,
                        code,
                    ) by {
                        lemma_walk_stops_once(
                            t,
                            iter@.bytes,
                            from,
                            start,
                            q,
                            (data_value, code),
                            entry,
                        );
                    }
                }
                return Some((data_value, code));
            }
            proof {
                if in_step {
                    lemma_plain_char(t, result@, none, consumed, code as char);
                }
                lemma_walk_step(t, iter@.bytes, from, start);
                lemma_starters_step(old(result)@, iter@.bytes, from, start);
            }
            write_u32(result, Codepoint::from_code(code));
        }
    }

    /// Applies the descriptor word of a character to the output and the
    /// reorder buffer.
    #[inline(always)]
    pub fn handle_decomposition_value_u32(
        &self,
        value: u64,
        code: u32,
        result: &mut Vec<Codepoint>,
        buffer: &mut Vec<Codepoint>,
    )
        requires
            self.wf(),
            is_scalar(code),
            value == self@.lookup(code),
            all_scalar(old(buffer)@),
        ensures
            state(final(result)@, final(buffer)@) == state(old(result)@, old(buffer)@).feed_all(
                self@.decomposition(code),
            ),
            all_scalar(final(buffer)@),
            final(buffer)@.len() <= old(buffer)@.len() + MAX_DECOMPOSITION_LENGTH,
            final(result)@.len() + final(buffer)@.len() == old(result)@.len() + old(buffer)@.len()
                + self@.decomposition(code).len(),
            1 <= self@.decomposition(code).len() <= MAX_DECOMPOSITION_LENGTH,
    {
        let ghost st = state(old(result)@, old(buffer)@);
        let ghost empty = Seq::<Codepoint>::empty();
        proof {
            if code <= LAST_DECOMPOSING_CODEPOINT {
                assert(self@.code_ok(code));
            }
            lemma_feed_length(st, self@.decomposition(code));
            if crate::hangul::is_hangul_syllable(code) {
                lemma_hangul_decomposition(code);
            }
            lemma_feed_one(st, Codepoint(0));
        }
        match parse_data_value(value) {
            DecompositionValue::Starter => {
                let codepoint = Codepoint::from_code(code);
                proof {
                    Codepoint::lemma_pack_fields(code, 0);
                    lemma_feed_one(st, codepoint);
                }
                feed_u32(result, buffer, codepoint);
            },
            DecompositionValue::Nonstarter(ccc) => {
                let codepoint = Codepoint::from_code_and_ccc(code, ccc);
                proof {
                    Codepoint::lemma_pack_fields(code, ccc);
                    lemma_feed_one(st, codepoint);
                }
                feed_u32(result, buffer, codepoint);
            },
            DecompositionValue::Singleton(c1) => {
                proof {
                    lemma_feed_one(st, c1);
                }
                feed_u32(result, buffer, c1);
            },
            DecompositionValue::Pair(c1, c2) => {
                proof {
                    lemma_feed_push(st, empty, c1);
                    lemma_feed_push(st, empty.push(c1), c2);
                    assert(empty.push(c1).push(c2) =~= seq![c1, c2]);
                }
                feed_u32(result, buffer, c1);
                feed_u32(result, buffer, c2);
            },
            DecompositionValue::Triple(c1, c2, c3) => {
                proof {
                    lemma_feed_push(st, empty, c1);
                    lemma_feed_push(st, empty.push(c1), c2);
                    lemma_feed_push(st, empty.push(c1).push(c2), c3);
                    assert(empty.push(c1).push(c2).push(c3) =~= seq![c1, c2, c3]);
                }
                feed_u32(result, buffer, c1);
                feed_u32(result, buffer, c2);
                feed_u32(result, buffer, c3);
            },
            DecompositionValue::Expansion(index, count) => {
                self.handle_expansion_u32(index, count, result, buffer);
            },
            DecompositionValue::Hangul => {
                proof {
                    lemma_feed_jamo(old(result)@, old(buffer)@, code);
                }
                flush_buffer_u32(result, buffer);
                decompose_hangul_syllable_u32(result, code);
            },
        }
    }

    /// Reads the `count` codepoints of an expansion.
    #[inline(always)]
    fn handle_expansion_u32(
        &self,
        index: u16,
        count: u8,
        result: &mut Vec<Codepoint>,
        buffer: &mut Vec<Codepoint>,
    )
        requires
            self.wf(),
            index + count <= self@.expansions.len(),
            forall|j: int|
                0 <= j < count ==> self@.is_stable(Codepoint(#[trigger] self@.expansions[index + j])),
            all_scalar(old(buffer)@),
        ensures
            state(final(result)@, final(buffer)@) == state(old(result)@, old(buffer)@).feed_all(
                self@.expansion(index, count),
            ),
            all_scalar(final(buffer)@),
            final(buffer)@.len() <= old(buffer)@.len() + count,
    {
        let ghost st = state(old(result)@, old(buffer)@);
        let ghost d = self@.expansion(index, count);
        let from = index as usize;
        let n = count as usize;
        let mut i: usize = 0;
        proof {
            lemma_feed_one(st, Codepoint(0));
            assert(d.subrange(0, 0) =~= Seq::<Codepoint>::empty());
        }
        while i < n
            invariant
                i <= n,
                n == count,
                from == index,
                self.wf(),
                d == self@.expansion(index, count),
                index + count <= self@.expansions.len(),
                forall|j: int|
                    0 <= j < count ==> self@.is_stable(
                        Codepoint(#[trigger] self@.expansions[index + j]),
                    ),
                all_scalar(buffer@),
                buffer@.len() <= old(buffer)@.len() + i,
                state(result@, buffer@) == st.feed_all(d.subrange(0, i as int)),
            decreases n - i,
        {
            let entry = self.expansion_entry(from + i);
            let codepoint = Codepoint::from_baked(entry);
            proof {
                assert(self@.is_stable(Codepoint(self@.expansions[index + i])));
                assert(d[i as int] == codepoint);
                assert(d.subrange(0, i + 1) =~= d.subrange(0, i as int).push(codepoint));
                lemma_feed_push(st, d.subrange(0, i as int), codepoint);
            }
            feed_u32(result, buffer, codepoint);
            i = i + 1;
        }
        proof {
            assert(d.subrange(0, n as int) =~= d);
        }
    }
}

/// The jamo of a syllable are starters: what waits is settled, and they
/// follow one after the other.
pub proof fn lemma_feed_jamo(out: Seq<Codepoint>, pending: Seq<Codepoint>, code: u32)
    requires
        crate::hangul::is_hangul_syllable(code),
    ensures
        state(out, pending).feed_all(crate::hangul::hangul_decomposition(code)) == state(
            out + sort_by_ccc(pending) + crate::hangul::hangul_decomposition(code),
            seq![],
        ),
{
    let d = crate::hangul::hangul_decomposition(code);
    let empty = Seq::<Codepoint>::empty();
    let st = state(out, pending);
    let flushed = out + sort_by_ccc(pending);
    lemma_hangul_decomposition(code);
    lemma_feed_one(st, d[0]);
    lemma_feed_push(st, empty, d[0]);
    lemma_feed_push(st, empty.push(d[0]), d[1]);
    lemma_feed_starter(out, pending, d[0]);
    lemma_feed_starter(flushed.push(d[0]), empty, d[1]);
    if d.len() == 2 {
        assert(d =~= empty.push(d[0]).push(d[1]));
        assert(flushed.push(d[0]).push(d[1]) =~= flushed + d);
    } else {
        lemma_feed_push(st, empty.push(d[0]).push(d[1]), d[2]);
        lemma_feed_starter(flushed.push(d[0]).push(d[1]), empty, d[2]);
        assert(d =~= empty.push(d[0]).push(d[1]).push(d[2]));
        assert(flushed.push(d[0]).push(d[1]).push(d[2]) =~= flushed + d);
    }
}

} // verus!
