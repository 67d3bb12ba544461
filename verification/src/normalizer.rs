//! The normalizer: fast-forward over text that needs no change, dispatch on
//! the descriptor of every other character, and the reorder buffer.
use vstd::prelude::*;
use vstd::utf8::*;
use crate::bits::lemma_page_fields;
use crate::codepoint::Codepoint;
use crate::data::DecompositionData;
use crate::decomposition::DecompositionValue;
use crate::decomposition::lemma_first_is_starter;
use crate::decomposition::parse_data_value;
use crate::feeding::buffer_ok;
use crate::feeding::fed;
use crate::feeding::lemma_fed_add;
use crate::feeding::lemma_fed_empty;
use crate::feeding::lemma_fed_hangul;
use crate::feeding::lemma_fed_length;
use crate::feeding::lemma_fed_push;
use crate::feeding::lemma_fed_two;
use crate::hangul::decompose_hangul_syllable;
use crate::model::LAST_DECOMPOSING_CODEPOINT;
use crate::model::MAX_DECOMPOSITION_LENGTH;
use crate::model::Tables;
use crate::model::normalized;
use crate::model::of_class;
use crate::model::sort_by_ccc;
use crate::model::sorted_by_ccc;
use crate::ordering::lemma_sort_empty;
use crate::ordering::lemma_sort_keeps_all;
use crate::ordering::lemma_sort_single;
use crate::ordering::lemma_stable_sort_unique;
use crate::progress::all_plain;
use crate::progress::lemma_block_written;
use crate::progress::lemma_buffer_flushed;
use crate::progress::lemma_dispatch_step;
use crate::progress::lemma_finished;
use crate::progress::lemma_plain_block;
use crate::progress::lemma_plain_step;
use crate::progress::lemma_stands_at_start;
use crate::progress::lemma_walk_start;
use crate::progress::lemma_walk_step;
use crate::progress::lemma_walk_stops_once;
use crate::progress::lemma_walked_is_plain;
use crate::progress::walked_to;
use crate::progress::stands_for;
use crate::reader::CharsIter;
use crate::reader::boundary;
use crate::reader::chars_between;
use crate::reader::get_utf8_sequence_width;
use crate::reader::lemma_step;
use crate::reader::scalar_at;
use crate::reader::scalar_width;
use crate::reader::width_at;
use crate::text::all_scalar;
use crate::text::lemma_scalars_push;
use crate::text::scalar_of;
use crate::text::scalars;
use crate::text::write_str;

verus! {

/// The text has been read to its end, nothing waits, and the output is the
/// normal form.
pub open spec fn done(t: Tables, out: Seq<char>, pending: Seq<Codepoint>, iter: &CharsIter) -> bool {
    &&& iter@.cursor == iter@.bytes.len()
    &&& iter@.breakpoint == iter@.cursor
    &&& pending.len() == 0
    &&& out == normalized(t, iter.text())
}

/// The character read last is the one of `entry`, and the output and the
/// buffer are where the model is before that character.
pub open spec fn stopped_at(
    t: Tables,
    entry: (u64, u32),
    out: Seq<char>,
    pending: Seq<Codepoint>,
    iter: &CharsIter,
) -> bool {
    &&& found(t, entry)
    &&& iter.consumed().len() > 0
    &&& iter.consumed().last() == entry.1 as char
    &&& stands_for(t, out, pending, Seq::<char>::empty(), iter.consumed().drop_last())
}

/// `<[T]>::sort_by_key` with the combining class as the key. The sort is
/// stable: the result ascends by class, and the codepoints of each class
/// are those of the buffer before, in the order they had there.
#[verifier::external_body]
pub(crate) fn sort_by_class(buffer: &mut Vec<Codepoint>)
    ensures
        sorted_by_ccc(final(buffer)@),
        forall|k: int| 0 <= k <= 255 ==> of_class(final(buffer)@, k) == of_class(old(buffer)@, k),
{
    buffer.sort_by_key(|codepoint| codepoint.ccc());
}

/// Puts the buffer into stable order of combining classes.
pub(crate) fn sort_buffer(buffer: &mut Vec<Codepoint>)
    requires
        all_scalar(old(buffer)@),
    ensures
        final(buffer)@ == sort_by_ccc(old(buffer)@),
        all_scalar(final(buffer)@),
{
    if buffer.len() > 1 {
        sort_by_class(buffer);
        proof {
            lemma_stable_sort_unique(old(buffer)@, buffer@);
        }
    } else if buffer.len() == 1 {
        proof {
            assert(buffer@ =~= seq![buffer@[0]]);
            lemma_sort_single(buffer@[0]);
        }
    } else {
        proof {
            assert(buffer@ =~= Seq::<Codepoint>::empty());
            lemma_sort_empty();
        }
    }
    proof {
        lemma_sort_keeps_all(old(buffer)@, |c: Codepoint| is_scalar(c.spec_code()));
    }
}

/// Writes the characters of the buffer in their order.
fn write_buffer(result: &mut String, buffer: &Vec<Codepoint>)
    requires
        all_scalar(buffer@),
    ensures
        final(result)@ == old(result)@ + scalars(buffer@),
{
    let n = buffer.len();
    let mut i: usize = 0;
    proof {
        assert(old(result)@ + scalars(buffer@.subrange(0, 0)) =~= old(result)@);
    }
    while i < n
        invariant
            i <= n,
            n == buffer@.len(),
            all_scalar(buffer@),
            result@ == old(result)@ + scalars(buffer@.subrange(0, i as int)),
        decreases n - i,
    {
        let codepoint = buffer[i];
        crate::text::write(result, codepoint);
        proof {
            let done = buffer@.subrange(0, i as int);
            assert(buffer@.subrange(0, i + 1) =~= done.push(buffer@[i as int]));
            lemma_scalars_push(done, buffer@[i as int]);
            assert((old(result)@ + scalars(done)).push(scalar_of(buffer@[i as int])) =~= old(
                result,
            )@ + scalars(done).push(scalar_of(buffer@[i as int])));
        }
        i = i + 1;
    }
    proof {
        assert(buffer@.subrange(0, n as int) =~= buffer@);
    }
}

/// Sorts the buffer by combining class, writes it out and empties it.
#[inline(always)]
fn flush_inline(result: &mut String, buffer: &mut Vec<Codepoint>)
    requires
        buffer_ok(old(buffer)@),
    ensures
        final(result)@ == old(result)@ + scalars(sort_by_ccc(old(buffer)@)),
        final(buffer)@ == Seq::<Codepoint>::empty(),
{
    if !buffer.is_empty() {
        sort_buffer(buffer);
        write_buffer(result, buffer);
        buffer.clear();
    } else {
        proof {
            lemma_sort_empty();
            assert(buffer@ =~= Seq::<Codepoint>::empty());
            assert(old(result)@ + scalars(Seq::<Codepoint>::empty()) =~= old(result)@);
        }
    }
}

/// Sorts the buffer by combining class, writes it out and empties it.
#[inline(never)]
fn flush(result: &mut String, buffer: &mut Vec<Codepoint>)
    requires
        buffer_ok(old(buffer)@),
    ensures
        final(result)@ == old(result)@ + scalars(sort_by_ccc(old(buffer)@)),
        final(buffer)@ == Seq::<Codepoint>::empty(),
{
    flush_inline(result, buffer)
}

/// A normalizer for one normalization form: NFD or NFKD, by its tables.
pub struct DecomposingNormalizer {
    /// Descriptor words.
    data: Vec<u64>,
    /// Maps a page of 128 scalar values to its block of words in `data`.
    index: Vec<u8>,
    /// Packed codepoints of the decompositions stored out of line.
    expansions: Vec<u32>,
    /// Up to this scalar value the words stand in `data` one after the
    /// other, without the index.
    continuous_block_end: u32,
}

impl View for DecomposingNormalizer {
    type V = Tables;

    closed spec fn view(&self) -> Tables {
        Tables {
            index: self.index@,
            data: self.data@,
            expansions: self.expansions@,
            continuous_block_end: self.continuous_block_end,
        }
    }
}

/// What the fast-forward phase found: a descriptor word that is not zero,
/// and the scalar value that it belongs to.
pub open spec fn found(t: Tables, entry: (u64, u32)) -> bool {
    &&& is_scalar(entry.1)
    &&& entry.0 == t.lookup(entry.1)
    &&& entry.0 != 0
}

impl DecomposingNormalizer {
    /// The tables are well formed.
    pub open spec fn wf(&self) -> bool {
        self@.well_formed()
    }

    /// A normalizer over tables that were prepared beforehand.
    pub fn from_baked(source: DecompositionData) -> (r: Self)
        requires
            source@.well_formed(),
        ensures
            r@ == source@,
            r.wf(),
    {
        DecomposingNormalizer {
            data: source.data,
            index: source.index,
            expansions: source.expansions,
            continuous_block_end: source.continuous_block_end,
        }
    }

    /// The normal form of `input`.
    #[inline(never)]
    pub fn normalize(&self, input: &str) -> (result: String)
        requires
            self.wf(),
        ensures
            result@ == normalized(self@, input@),
    {
        let mut result = String::with_capacity(input.len());
        let mut buffer: Vec<Codepoint> = Vec::with_capacity(18);
        let mut iter = CharsIter::new(input);
        proof {
            lemma_stands_at_start(self@);
            assert(iter.block() =~= Seq::<char>::empty());
            assert(iter.consumed() =~= Seq::<char>::empty());
        }
        loop
            invariant
                self.wf(),
                iter.wf(),
                iter.text() == input@,
                buffer_ok(buffer@),
                all_plain(self@, iter.block()),
                buffer@.len() > 0 ==> iter@.breakpoint == iter@.cursor,
                stands_for(self@, result@, buffer@, iter.block(), iter.consumed()) || done(
                    self@,
                    result@,
                    buffer@,
                    &iter,
                ),
            decreases iter@.bytes.len() - iter@.cursor, buffer@.len(),
        {
            let entry = if !buffer.is_empty() {
                match self.forward(&mut iter, &mut result, &mut buffer) {
                    Some(entry) => Some(entry),
                    None => continue ,
                }
            } else {
                proof {
                    assert(buffer@ =~= Seq::<Codepoint>::empty());
                }
                self.fast_forward(&mut iter, &mut result)
            };
            match entry {
                Some((value, code)) => {
                    proof {
                        lemma_dispatch_step(
                            self@,
                            result@,
                            buffer@,
                            iter.consumed().drop_last(),
                            code,
                        );
                        assert(iter.consumed().drop_last().push(code as char) =~= iter.consumed());
                    }
                    self.handle_decomposition_value(value, code, &mut result, &mut buffer);
                    iter.set_breakpoint();
                    proof {
                        assert(iter.block() =~= Seq::<char>::empty());
                    }
                },
                None => return result,
            }
        }
    }

    /// While nonstarters wait, reads one character. If its word is not zero
    /// it is handed out for dispatch. Otherwise it is a starter that stays:
    /// the buffer is flushed, and the character is left to the fast-forward
    /// phase, which starts at the breakpoint before it.
    #[inline(always)]
    pub fn forward(&self, iter: &mut CharsIter, result: &mut String, buffer: &mut Vec<Codepoint>) -> (r:
        Option<(u64, u32)>)
        requires
            self.wf(),
            old(iter).wf(),
            buffer_ok(old(buffer)@),
        ensures
            final(iter).wf(),
            final(iter).text() == old(iter).text(),
            final(iter)@.bytes == old(iter)@.bytes,
            final(iter)@.breakpoint == old(iter)@.cursor,
            old(iter)@.cursor == old(iter)@.bytes.len() ==> r is None && final(iter)@.cursor == old(
                iter,
            )@.cursor,
            old(iter)@.cursor < old(iter)@.bytes.len() ==> {
                let c = scalar_at(old(iter)@.bytes, old(iter)@.cursor);
                &&& final(iter)@.cursor == old(iter)@.cursor + width_at(
                    old(iter)@.bytes,
                    old(iter)@.cursor,
                )
                &&& (r is Some <==> self@.lookup(c) != 0)
                &&& (r is Some ==> r->0 == (self@.lookup(c), c))
            },
            r is None ==> final(result)@ == old(result)@ + scalars(sort_by_ccc(old(buffer)@)),
            r is None ==> final(buffer)@.len() == 0 && all_plain(self@, final(iter).block()),
            r is Some ==> final(result)@ == old(result)@ && final(buffer)@ == old(buffer)@,
            old(iter)@.breakpoint == old(iter)@.cursor && stands_for(
                self@,
                old(result)@,
                old(buffer)@,
                Seq::<char>::empty(),
                old(iter).consumed(),
            ) ==> match r {
                Some(entry) => stopped_at(
                    self@,
                    entry,
                    final(result)@,
                    final(buffer)@,
                    final(iter),
                ),
                None => stands_for(
                    self@,
                    final(result)@,
                    final(buffer)@,
                    final(iter).block(),
                    final(iter).consumed(),
                ) || done(self@, final(result)@, final(buffer)@, final(iter)),
            },
    {
        let ghost t = self@;
        let ghost before = old(iter).consumed();
        let ghost in_step = old(iter)@.breakpoint == old(iter)@.cursor && stands_for(
            self@,
            old(result)@,
            old(buffer)@,
            Seq::<char>::empty(),
            old(iter).consumed(),
        );
        let ghost start = old(iter)@.cursor;
        iter.set_breakpoint();
        proof {
            lemma_walk_start(t, iter@.bytes, start);
        }
        proof {
            assert(iter.block() =~= Seq::<char>::empty());
        }
        if !iter.is_empty() {
            let first = iter.first_byte();
            if first >= 0xC2 {
                let code = iter.read_scalar(first);
                let dec_value = self.get_decomposition_value(code);
                if dec_value != 0 {
                    proof {
                        assert(iter.consumed().drop_last() =~= before);
                        assert(old(iter)@.breakpoint == old(iter)@.cursor ==> old(iter).block()
                            =~= Seq::<char>::empty());
                    }
                    return Some((dec_value, code));
                }
                proof {
                    lemma_walk_step(t, iter@.bytes, start, start);
                    if in_step {
                        lemma_plain_step(
                            t,
                            old(result)@,
                            old(buffer)@,
                            Seq::<char>::empty(),
                            before,
                            code as char,
                        );
                    }
                }
            } else {
                iter.skip_ascii();
                proof {
                    assert(t.code_ok(first as u32));
                    lemma_walk_step(t, iter@.bytes, start, start);
                    if in_step {
                        lemma_plain_step(
                            t,
                            old(result)@,
                            old(buffer)@,
                            Seq::<char>::empty(),
                            before,
                            first as char,
                        );
                    }
                }
            }
            proof {
                if in_step {
                    lemma_buffer_flushed(
                        t,
                        old(result)@,
                        old(buffer)@,
                        iter.block(),
                        iter.consumed(),
                    );
                }
            }
        } else {
            proof {
                iter.lemma_consumed();
                if in_step {
                    lemma_finished(
                        t,
                        old(result)@,
                        old(buffer)@,
                        Seq::<char>::empty(),
                        iter.text(),
                    );
                    assert(old(result)@ + scalars(sort_by_ccc(old(buffer)@)) + Seq::<char>::empty()
                        =~= old(result)@ + scalars(sort_by_ccc(old(buffer)@)));
                }
            }
        }
        flush_inline(result, buffer);
        None
    }

    /// Walks over characters whose word is zero, without writing them. At
    /// the first other character the walked block is copied to the output
    /// as it is, and the character is handed out for dispatch. At the end
    /// of the text the rest is copied.
    #[inline(always)]
    pub fn fast_forward(&self, iter: &mut CharsIter, result: &mut String) -> (r: Option<(u64, u32)>)
        requires
            self.wf(),
            old(iter).wf(),
        ensures
            final(iter).wf(),
            final(iter).text() == old(iter).text(),
            final(iter)@.bytes == old(iter)@.bytes,
            final(iter)@.breakpoint == old(iter)@.breakpoint,
            forall|q: int, entry: (u64, u32)|
                #[trigger] walked_to(self@, old(iter)@.bytes, old(iter)@.cursor, q, entry) ==> r
                    == Some(entry) && final(iter)@.cursor == q + width_at(old(iter)@.bytes, q),
            match r {
                Some(entry) => {
                    let p = final(iter)@.cursor - scalar_width(entry.1);
                    &&& walked_to(self@, old(iter)@.bytes, old(iter)@.cursor, p, entry)
                    &&& final(iter)@.cursor == p + width_at(old(iter)@.bytes, p)
                    &&& final(result)@ == old(result)@ + chars_between(
                        old(iter)@.bytes,
                        old(iter)@.breakpoint,
                        p,
                    )
                },
                None => {
                    &&& final(iter)@.cursor == old(iter)@.bytes.len()
                    &&& all_plain(
                        self@,
                        chars_between(
                            old(iter)@.bytes,
                            old(iter)@.cursor,
                            old(iter)@.bytes.len() as int,
                        ),
                    )
                    &&& final(result)@ == old(result)@ + chars_between(
                        old(iter)@.bytes,
                        old(iter)@.breakpoint,
                        old(iter)@.bytes.len() as int,
                    )
                },
            },
            all_plain(self@, old(iter).block()) && (stands_for(
                self@,
                old(result)@,
                Seq::<Codepoint>::empty(),
                old(iter).block(),
                old(iter).consumed(),
            ) || done(self@, old(result)@, Seq::<Codepoint>::empty(), old(iter))) ==> match r {
                Some(entry) => stopped_at(
                    self@,
                    entry,
                    final(result)@,
                    Seq::<Codepoint>::empty(),
                    final(iter),
                ),
                None => final(result)@ == normalized(self@, final(iter).text()),
            },
    {
        let ghost t = self@;
        let ghost none = Seq::<Codepoint>::empty();
        let ghost from = iter@.cursor;
        let ghost in_step = all_plain(self@, old(iter).block()) && (stands_for(
            self@,
            old(result)@,
            Seq::<Codepoint>::empty(),
            old(iter).block(),
            old(iter).consumed(),
        ) || done(self@, old(result)@, Seq::<Codepoint>::empty(), old(iter)));
        proof {
            lemma_sort_empty();
            assert(scalars(none) =~= Seq::<char>::empty());
            lemma_walk_start(t, iter@.bytes, from);
        }
        loop
            invariant
                self.wf(),
                t == self@,
                from == old(iter)@.cursor,
                0 <= from <= iter@.cursor,
                boundary(iter@.bytes, from),
                valid_utf8(iter@.bytes.subrange(from, iter@.cursor)),
                all_plain(t, chars_between(iter@.bytes, from, iter@.cursor)),
                none == Seq::<Codepoint>::empty(),
                sort_by_ccc(none) == none,
                scalars(none) == Seq::<char>::empty(),
                iter.wf(),
                iter.text() == old(iter).text(),
                iter@.bytes == old(iter)@.bytes,
                iter@.breakpoint == old(iter)@.breakpoint,
                old(iter)@.cursor <= iter@.cursor,
                result@ == old(result)@,
                in_step == (all_plain(self@, old(iter).block()) && (stands_for(
                    self@,
                    old(result)@,
                    Seq::<Codepoint>::empty(),
                    old(iter).block(),
                    old(iter).consumed(),
                ) || done(self@, old(result)@, Seq::<Codepoint>::empty(), old(iter)))),
                in_step ==> all_plain(t, iter.block()) && (stands_for(
                    t,
                    result@,
                    none,
                    iter.block(),
                    iter.consumed(),
                ) || done(t, result@, none, iter)),
            decreases iter@.bytes.len() - iter@.cursor,
        {
            if iter.is_empty() {
                proof {
                    assert forall|q: int, entry: (u64, u32)| #[trigger]
                        walked_to(t, iter@.bytes, from, q, entry) implies false by {
                        lemma_walked_is_plain(t, iter@.bytes, from, q, iter@.cursor);
                    }
                    iter.lemma_consumed();
                    if in_step {
                        if !done(t, result@, none, iter) {
                            lemma_finished(t, result@, none, iter.block(), iter.text());
                            assert(result@ + scalars(sort_by_ccc(none)) + iter.block() =~= result@
                                + iter.block());
                        } else {
                            assert(iter.block() =~= Seq::<char>::empty());
                            assert(result@ + iter.block() =~= result@);
                        }
                    }
                }
                write_str(result, iter.ending_slice());
                return None;
            }
            let ghost block = iter.block();
            let ghost consumed = iter.consumed();
            let ghost start = iter@.cursor;
            let first = iter.first_byte();
            if first < 0xC2 {
                iter.skip_ascii();
                proof {
                    assert(t.code_ok(first as u32));
                    lemma_walk_step(t, iter@.bytes, from, start);
                    if in_step {
                        lemma_plain_step(t, result@, none, block, consumed, first as char);
                        lemma_plain_block(t, block, first as char);
                    }
                }
                continue ;
            }
            let code = iter.read_scalar(first);
            let dec_value = self.get_decomposition_value(code);
            if dec_value == 0 {
                proof {
                    lemma_walk_step(t, iter@.bytes, from, start);
                    if in_step {
                        lemma_plain_step(t, result@, none, block, consumed, code as char);
                        lemma_plain_block(t, block, code as char);
                    }
                }
                continue ;
            }
            proof {
                lemma_step(iter@.bytes, from, start);
                assert forall|q: int, entry: (u64, u32)| #[trigger]
                    walked_to(t, iter@.bytes, from, q, entry) implies q == start && entry == (
                    dec_value,
                    code,
                ) by {
                    lemma_walk_stops_once(
                        t,
                        iter@.bytes,
                        from,
                        start,
                        q,
                        (dec_value, code),
                        entry,
                    );
                }
            }
            let width = get_utf8_sequence_width(first);
            if !iter.at_breakpoint(width) {
                proof {
                    crate::reader::lemma_block_nonempty(iter@.bytes, iter@.breakpoint, start);
                    if in_step {
                        lemma_block_written(t, result@, none, block, consumed);
                        assert(result@ + scalars(sort_by_ccc(none)) + block =~= result@ + block);
                    }
                }
                write_str(result, iter.block_slice(width));
            } else {
                proof {
                    assert(block =~= Seq::<char>::empty());
                    assert(result@ + block =~= result@);
                }
            }
            proof {
                assert(iter.consumed().drop_last() =~= consumed);
            }
            return Some((dec_value, code));
        }
    }

    /// A normalizer over the given tables if they are well formed, and
    /// nothing if they are not.
    pub fn try_from_baked(source: DecompositionData) -> (r: Option<Self>)
        ensures
            r is Some <==> source@.well_formed(),
            r is Some ==> r->0@ == source@ && r->0.wf(),
    {
        if source.is_well_formed() {
            Some(DecomposingNormalizer::from_baked(source))
        } else {
            None
        }
    }

    /// The descriptor of a scalar value.
    #[inline(always)]
    pub fn decompose(&self, code: u32) -> (r: DecompositionValue)
        requires
            self.wf(),
        ensures
            r == self@.descriptor(code),
    {
        if code > LAST_DECOMPOSING_CODEPOINT {
            return DecompositionValue::Starter;
        }
        parse_data_value(self.get_decomposition_value(code))
    }

    /// The packed codepoint at position `at` of the expansions.
    #[inline(always)]
    pub(crate) fn expansion_entry(&self, at: usize) -> (r: u32)
        requires
            at < self@.expansions.len(),
        ensures
            r == self@.expansions[at as int],
    {
        self.expansions[at]
    }

    /// The descriptor word of a scalar value.
    #[inline(always)]
    pub fn get_decomposition_value(&self, code: u32) -> (r: u64)
        requires
            self.wf(),
        ensures
            r == self@.lookup(code),
    {
        if code > LAST_DECOMPOSING_CODEPOINT {
            return 0;
        }
        proof {
            assert(self@.code_ok(code));
        }
        if code <= self.continuous_block_end {
            self.data[code as usize]
        } else {
            proof {
                lemma_page_fields(code, 0);
            }
            let page = (code >> 7) as usize;
            let block = self.index[page] as u32;
            proof {
                lemma_page_fields(code, block);
            }
            let slot = (block << 7) | (code & 0x7F);
            self.data[slot as usize]
        }
    }

    /// Reads the `count` codepoints of an expansion: starters flush the
    /// buffer and are written, nonstarters join the buffer.
    #[inline(always)]
    fn handle_expansion(
        &self,
        index: u16,
        count: u8,
        result: &mut String,
        buffer: &mut Vec<Codepoint>,
    )
        requires
            self.wf(),
            index + count <= self@.expansions.len(),
            forall|j: int|
                0 <= j < count ==> self@.is_stable(Codepoint(#[trigger] self@.expansions[index + j])),
            buffer_ok(old(buffer)@),
        ensures
            (final(result)@, final(buffer)@) == fed(
                old(result)@,
                old(buffer)@,
                self@.expansion(index, count),
            ),
            buffer_ok(final(buffer)@),
            final(buffer)@.len() <= old(buffer)@.len() + count,
    {
        let ghost d = self@.expansion(index, count);
        let from = index as usize;
        let n = count as usize;
        let mut i: usize = 0;
        proof {
            lemma_fed_empty(old(result)@, old(buffer)@);
            assert(d.subrange(0, 0) =~= Seq::<Codepoint>::empty());
        }
        while i < n
            invariant
                i <= n,
                n == count,
                from == index,
                self.wf(),
                d == self@.expansion(index, count),
                index + count <= self@.expansions.len(),
                forall|j: int|
                    0 <= j < count ==> self@.is_stable(
                        Codepoint(#[trigger] self@.expansions[index + j]),
                    ),
                buffer_ok(buffer@),
                buffer@.len() <= old(buffer)@.len() + i,
                (result@, buffer@) == fed(old(result)@, old(buffer)@, d.subrange(0, i as int)),
            decreases n - i,
        {
            let entry = self.expansion_entry(from + i);
            let codepoint = Codepoint::from_baked(entry);
            proof {
                assert(self@.is_stable(Codepoint(self@.expansions[index + i])));
                assert(d[i as int] == codepoint);
                assert(d.subrange(0, i + 1) =~= d.subrange(0, i as int).push(codepoint));
                lemma_fed_push(old(result)@, old(buffer)@, d.subrange(0, i as int), codepoint);
            }
            if codepoint.is_starter() {
                flush(result, buffer);
                crate::text::write(result, codepoint);
            } else {
                buffer.push(codepoint);
            }
            i = i + 1;
        }
        proof {
            assert(d.subrange(0, n as int) =~= d);
        }
    }

    /// Applies the descriptor word of a character to the output and the
    /// reorder buffer: the codepoints of its decomposition are read in
    /// order, starters flush the buffer and are written, nonstarters join
    /// the buffer. A character with the zero word is a starter that is
    /// written as it is.
    #[inline(always)]
    pub fn handle_decomposition_value(
        &self,
        value: u64,
        code: u32,
        result: &mut String,
        buffer: &mut Vec<Codepoint>,
    )
        requires
            self.wf(),
            is_scalar(code),
            value == self@.lookup(code),
            buffer_ok(old(buffer)@),
        ensures
            (final(result)@, final(buffer)@) == fed(
                old(result)@,
                old(buffer)@,
                self@.decomposition(code),
            ),
            buffer_ok(final(buffer)@),
            final(buffer)@.len() <= old(buffer)@.len() + MAX_DECOMPOSITION_LENGTH,
            final(result)@.len() + final(buffer)@.len() == old(result)@.len() + old(buffer)@.len()
                + self@.decomposition(code).len(),
            1 <= self@.decomposition(code).len() <= MAX_DECOMPOSITION_LENGTH,
    {
        proof {
            if code <= LAST_DECOMPOSING_CODEPOINT {
                assert(self@.code_ok(code));
            }
            lemma_fed_length(old(result)@, old(buffer)@, self@.decomposition(code));
            if crate::hangul::is_hangul_syllable(code) {
                crate::hangul::lemma_hangul_decomposition(code);
            }
        }
        match parse_data_value(value) {
            DecompositionValue::Starter => {
                proof {
                    Codepoint::lemma_pack_fields(code, 0);
                }
                handle_singleton(Codepoint::from_code(code), result, buffer);
            },
            DecompositionValue::Nonstarter(ccc) => {
                let codepoint = Codepoint::from_code_and_ccc(code, ccc);
                proof {
                    Codepoint::lemma_pack_fields(code, ccc);
                }
                push_nonstarter(result, buffer, codepoint);
            },
            DecompositionValue::Singleton(c1) => {
                handle_singleton(c1, result, buffer);
            },
            DecompositionValue::Pair(c1, c2) => {
                proof {
                    lemma_first_is_starter(value);
                }
                handle_pair(c1, c2, result, buffer);
            },
            DecompositionValue::Triple(c1, c2, c3) => {
                proof {
                    lemma_first_is_starter(value);
                }
                handle_triple(c1, c2, c3, result, buffer);
            },
            DecompositionValue::Expansion(index, count) => {
                self.handle_expansion(index, count, result, buffer);
            },
            DecompositionValue::Hangul => {
                proof {
                    lemma_fed_hangul(old(result)@, old(buffer)@, code);
                }
                flush(result, buffer);
                decompose_hangul_syllable(result, code);
            },
        }
    }
}

/// A normalizer over tables that were prepared beforehand.
pub fn from_baked(source: DecompositionData) -> (r: DecomposingNormalizer)
    requires
        source@.well_formed(),
    ensures
        r@ == source@,
        r.wf(),
{
    DecomposingNormalizer::from_baked(source)
}

/// A nonstarter joins the buffer.
fn push_nonstarter(result: &String, buffer: &mut Vec<Codepoint>, codepoint: Codepoint)
    requires
        buffer_ok(old(buffer)@),
        is_scalar(codepoint.spec_code()),
        !codepoint.spec_is_starter(),
    ensures
        (result@, final(buffer)@) == fed(result@, old(buffer)@, seq![codepoint]),
        buffer_ok(final(buffer)@),
        final(buffer)@.len() == old(buffer)@.len() + 1,
{
    proof {
        let empty = Seq::<Codepoint>::empty();
        lemma_fed_empty(result@, buffer@);
        lemma_fed_push(result@, buffer@, empty, codepoint);
        assert(seq![codepoint] =~= empty.push(codepoint));
    }
    buffer.push(codepoint);
}

/// A starter flushes the buffer and is written.
fn handle_singleton(c1: Codepoint, result: &mut String, buffer: &mut Vec<Codepoint>)
    requires
        buffer_ok(old(buffer)@),
        is_scalar(c1.spec_code()),
        c1.spec_is_starter(),
    ensures
        (final(result)@, final(buffer)@) == fed(old(result)@, old(buffer)@, seq![c1]),
        final(buffer)@.len() == 0,
{
    proof {
        let empty = Seq::<Codepoint>::empty();
        lemma_fed_empty(old(result)@, old(buffer)@);
        lemma_fed_push(old(result)@, old(buffer)@, empty, c1);
        assert(seq![c1] =~= empty.push(c1));
    }
    flush(result, buffer);
    crate::text::write(result, c1);
}

/// The first of two codepoints is a starter: the buffer is flushed and it
/// is written. The second is written if it is a starter and waits if not.
fn handle_pair(c1: Codepoint, c2: Codepoint, result: &mut String, buffer: &mut Vec<Codepoint>)
    requires
        buffer_ok(old(buffer)@),
        is_scalar(c1.spec_code()),
        is_scalar(c2.spec_code()),
        c1.spec_is_starter(),
    ensures
        (final(result)@, final(buffer)@) == fed(old(result)@, old(buffer)@, seq![c1, c2]),
        buffer_ok(final(buffer)@),
        final(buffer)@.len() <= 1,
{
    handle_singleton(c1, result, buffer);
    let ghost mid = result@;
    proof {
        let empty = Seq::<Codepoint>::empty();
        lemma_fed_push(old(result)@, old(buffer)@, seq![c1], c2);
        assert(seq![c1, c2] =~= seq![c1].push(c2));
        lemma_sort_empty();
        assert(buffer@ =~= empty);
        assert(scalars(empty) =~= Seq::<char>::empty());
        assert(mid + Seq::<char>::empty().push(scalar_of(c2)) =~= mid.push(scalar_of(c2)));
    }
    if c2.is_starter() {
        crate::text::write(result, c2);
    } else {
        buffer.push(c2);
    }
}

/// The first of three codepoints is a starter: the buffer is flushed and it
/// is written. If the third is a starter the other two are written; if not,
/// the third waits, behind the second if that is a nonstarter too.
fn handle_triple(
    c1: Codepoint,
    c2: Codepoint,
    c3: Codepoint,
    result: &mut String,
    buffer: &mut Vec<Codepoint>,
)
    requires
        buffer_ok(old(buffer)@),
        is_scalar(c1.spec_code()),
        is_scalar(c2.spec_code()),
        is_scalar(c3.spec_code()),
        c1.spec_is_starter(),
    ensures
        (final(result)@, final(buffer)@) == fed(old(result)@, old(buffer)@, seq![c1, c2, c3]),
        buffer_ok(final(buffer)@),
        final(buffer)@.len() <= 2,
{
    handle_singleton(c1, result, buffer);
    proof {
        lemma_fed_add(old(result)@, old(buffer)@, seq![c1], seq![c2, c3]);
        assert(seq![c1] + seq![c2, c3] =~= seq![c1, c2, c3]);
        assert(buffer@ =~= Seq::<Codepoint>::empty());
        lemma_fed_two(result@, c2, c3);
        assert(Seq::<Codepoint>::empty().push(c3) =~= seq![c3]);
        assert(Seq::<Codepoint>::empty().push(c2).push(c3) =~= seq![c2, c3]);
    }
    if c3.is_starter() {
        crate::text::write(result, c2);
        crate::text::write(result, c3);
    } else {
        if c2.is_starter() {
            crate::text::write(result, c2);
        } else {
            buffer.push(c2);
        }
        buffer.push(c3);
    }
}

} // verus!
