//! The lookup tables as they are handed to a normalizer.
use vstd::prelude::*;
use vstd::utf8::*;
use crate::bits::lemma_run_fields;
use crate::bits::lemma_segment_fields;
use crate::bits::lemma_page_fields;
use crate::codepoint::Codepoint;
use crate::decomposition::parse_data_value;
use crate::decomposition::DecompositionValue;
use crate::model::Tables;
use crate::model::LAST_DECOMPOSING_CODEPOINT;
use crate::model::MAX_DECOMPOSITION_LENGTH;

verus! {

/// The tables of one normalization form.
pub struct DecompositionData {
    /// Maps a page of 128 scalar values to its block of words in `data`.
    pub index: Vec<u8>,
    /// Descriptor words.
    pub data: Vec<u64>,
    /// Packed codepoints of the decompositions stored out of line.
    pub expansions: Vec<u32>,
    /// Up to this scalar value the words stand in `data` one after the
    /// other, without the index.
    pub continuous_block_end: u32,
}

impl View for DecompositionData {
    type V = Tables;

    open spec fn view(&self) -> Tables {
        Tables {
            index: self.index@,
            data: self.data@,
            expansions: self.expansions@,
            continuous_block_end: self.continuous_block_end,
        }
    }
}

/// `code` is a Unicode scalar value.
fn scalar(code: u32) -> (r: bool)
    ensures
        r == is_scalar(code),
{
    code < 0xD800 || (0xE000 <= code && code <= 0x10FFFF)
}

/// `code` is a precomposed Hangul syllable.
fn hangul_syllable(code: u32) -> (r: bool)
    ensures
        r == crate::hangul::is_hangul_syllable(code),
{
    0xAC00 <= code && code <= 0xD7A3
}

/// `code` is a jamo that syllables decompose into.
fn jamo(code: u32) -> (r: bool)
    ensures
        r == crate::hangul::is_jamo(code),
{
    (0x1100 <= code && code <= 0x1112) || (0x1161 <= code && code <= 0x1175) || (0x11A8 <= code
        && code <= 0x11C2)
}

impl DecompositionData {
    /// The descriptor word of `code`, if the tables are large enough to
    /// hold it.
    pub fn word(&self, code: u32) -> (r: Option<u64>)
        ensures
            r is Some <==> code > LAST_DECOMPOSING_CODEPOINT || self@.in_bounds(code),
            r is Some ==> r->0 == self@.lookup(code),
    {
        if code > LAST_DECOMPOSING_CODEPOINT {
            return Some(0);
        }
        if code <= self.continuous_block_end {
            if (code as usize) < self.data.len() {
                Some(self.data[code as usize])
            } else {
                None
            }
        } else {
            proof {
                lemma_page_fields(code, 0);
            }
            let page = (code >> 7) as usize;
            if page >= self.index.len() {
                return None;
            }
            let block = self.index[page] as u32;
            proof {
                lemma_page_fields(code, block);
            }
            let slot = ((block << 7) | (code & 0x7F)) as usize;
            if slot < self.data.len() {
                Some(self.data[slot])
            } else {
                None
            }
        }
    }

    /// Whether `c` is fully decomposed; nothing where the tables are too
    /// small to tell.
    fn stable(&self, c: Codepoint) -> (r: Option<bool>)
        ensures
            r is None ==> !self@.well_formed(),
            r is Some ==> r->0 == self@.is_stable(c),
    {
        let code = c.code();
        if !scalar(code) {
            return Some(false);
        }
        match self.word(code) {
            None => {
                proof {
                    assert(!self@.code_ok(code));
                }
                None
            },
            Some(word) => {
                let ccc = c.ccc();
                match parse_data_value(word) {
                    DecompositionValue::Starter => Some(ccc == 0),
                    DecompositionValue::Nonstarter(own) => Some(ccc != 0 && own == ccc),
                    _ => Some(false),
                }
            },
        }
    }

    /// Whether the `count` codepoints of the expansion at `index` are all
    /// fully decomposed.
    fn stable_expansion(&self, index: u16, count: u8) -> (r: bool)
        requires
            index + count <= self@.expansions.len(),
        ensures
            r ==> forall|j: int|
                0 <= j < count ==> self@.is_stable(Codepoint(#[trigger] self@.expansions[index + j])),
            !r ==> !self@.well_formed() || exists|j: int|
                0 <= j < count && !self@.is_stable(Codepoint(#[trigger] self@.expansions[index + j])),
    {
        let from = index as usize;
        let n = count as usize;
        let mut i: usize = 0;
        while i < n
            invariant
                i <= n,
                n == count,
                from == index,
                index + count <= self@.expansions.len(),
                forall|j: int|
                    0 <= j < i ==> self@.is_stable(
                        Codepoint(#[trigger] self@.expansions[index + j]),
                    ),
            decreases n - i,
        {
            let entry = self.expansions[from + i];
            match self.stable(Codepoint::from_baked(entry)) {
                Some(true) => {},
                Some(false) => {
                    proof {
                        assert(!self@.is_stable(Codepoint(self@.expansions[index + i])));
                    }
                    return false;
                },
                None => {
                    return false;
                },
            }
            i = i + 1;
        }
        true
    }

    /// Whether the tables hold a word for `code`, and one that they may
    /// hold.
    fn check_code(&self, code: u32) -> (r: bool)
        requires
            code <= LAST_DECOMPOSING_CODEPOINT,
        ensures
            r ==> self@.code_ok(code),
            !r ==> !self@.well_formed(),
    {
        let word = match self.word(code) {
            Some(word) => word,
            None => {
                proof {
                    assert(!self@.code_ok(code));
                }
                return false;
            },
        };
        if (code < 0x80 || jamo(code)) && word != 0 {
            proof {
                assert(!self@.code_ok(code));
            }
            return false;
        }
        let ok = match parse_data_value(word) {
            DecompositionValue::Starter => !hangul_syllable(code),
            DecompositionValue::Nonstarter(ccc) => ccc != 0 && !hangul_syllable(code),
            DecompositionValue::Singleton(c1) => {
                if hangul_syllable(code) || !c1.is_starter() {
                    false
                } else {
                    match self.stable(c1) {
                        Some(stable) => stable,
                        None => {
                            return false;
                        },
                    }
                }
            },
            DecompositionValue::Pair(c1, c2) => {
                if hangul_syllable(code) {
                    false
                } else {
                    match (self.stable(c1), self.stable(c2)) {
                        (Some(first), Some(second)) => first && second,
                        _ => {
                            return false;
                        },
                    }
                }
            },
            DecompositionValue::Triple(c1, c2, c3) => {
                if hangul_syllable(code) {
                    false
                } else {
                    match (self.stable(c1), self.stable(c2), self.stable(c3)) {
                        (Some(first), Some(second), Some(third)) => first && second && third,
                        _ => {
                            return false;
                        },
                    }
                }
            },
            DecompositionValue::Expansion(index, count) => {
                if hangul_syllable(code) || count < 1 || count > MAX_DECOMPOSITION_LENGTH
                    || index as usize + count as usize > self.expansions.len() {
                    false
                } else {
                    let stable = self.stable_expansion(index, count);
                    if !stable {
                        proof {
                            if self@.well_formed() {
                                assert(self@.code_ok(code));
                            }
                        }
                        return false;
                    }
                    true
                }
            },
            DecompositionValue::Hangul => hangul_syllable(code),
        };
        proof {
            if !ok {
                assert(!self@.code_ok(code));
            }
        }
        ok
    }

    /// Whether the tables are well formed. Walks over every scalar value up
    /// to the last decomposing one.
    pub fn is_well_formed(&self) -> (r: bool)
        ensures
            r == self@.well_formed(),
    {
        let mut code: u32 = 0;
        while code <= LAST_DECOMPOSING_CODEPOINT
            invariant
                code <= LAST_DECOMPOSING_CODEPOINT + 1,
                forall|c: u32| c < code ==> #[trigger] self@.code_ok(c),
            decreases LAST_DECOMPOSING_CODEPOINT + 1 - code,
        {
            if !self.check_code(code) {
                return false;
            }
            code = code + 1;
        }
        true
    }
}

/// Appends the items of `chunk` to `v`.
pub fn extend_from<T: Copy>(v: &mut Vec<T>, chunk: &[T])
    ensures
        final(v)@ == old(v)@ + chunk@,
{
    let n = chunk.len();
    let mut i: usize = 0;
    proof {
        assert(old(v)@ + chunk@.subrange(0, 0) =~= old(v)@);
    }
    while i < n
        invariant
            i <= n,
            n == chunk@.len(),
            v@ == old(v)@ + chunk@.subrange(0, i as int),
        decreases n - i,
    {
        v.push(chunk[i]);
        proof {
            assert(chunk@.subrange(0, i + 1) =~= chunk@.subrange(0, i as int).push(chunk@[i as int]));
            assert((old(v)@ + chunk@.subrange(0, i as int)).push(chunk@[i as int]) =~= old(v)@
                + chunk@.subrange(0, i + 1));
        }
        i = i + 1;
    }
    proof {
        assert(chunk@.subrange(0, n as int) =~= chunk@);
    }
}

/// The words that a packed stream stands for, read from position `from`.
///
/// A stream is a row of segments. A segment starts with a header, which
/// holds a fill value in its upper 32 bits, a fill count in the 16 bits
/// below and a count of literal words in its low 16 bits. The segment
/// stands for that many copies of the fill value, and then for the literal
/// words that follow the header. A segment that is cut short ends the row.
pub open spec fn expand(stream: Seq<u64>, from: int) -> Seq<u64>
    decreases stream.len() - from,
{
    if from < 0 || from >= stream.len() {
        seq![]
    } else {
        let header = stream[from];
        let next = from + 1 + header % 0x1_0000;
        if next > stream.len() {
            seq![]
        } else {
            Seq::new((header / 0x1_0000 % 0x1_0000) as nat, |i: int| header / 0x1_0000_0000)
                + stream.subrange(from + 1, next) + expand(stream, next)
        }
    }
}

/// Appends the words that a packed stream stands for.
pub fn expand_into(v: &mut Vec<u64>, stream: &[u64])
    ensures
        final(v)@ == old(v)@ + expand(stream@, 0),
{
    let len = stream.len();
    let mut at: usize = 0;
    while at < len
        invariant
            at <= len,
            len == stream@.len(),
            v@ + expand(stream@, at as int) == old(v)@ + expand(stream@, 0),
        decreases len - at,
    {
        let header = stream[at];
        proof {
            lemma_segment_fields(header);
        }
        let literals = (header & 0xFFFF) as usize;
        let fills = ((header >> 16) & 0xFFFF) as usize;
        let value = header >> 32;
        if literals > len - at - 1 {
            proof {
                assert(v@ + Seq::<u64>::empty() =~= v@);
            }
            return ;
        }
        let ghost before = v@;
        let ghost fill = Seq::new(fills as nat, |i: int| value);
        let ghost taken = stream@.subrange(at + 1, at + 1 + literals);
        let mut i: usize = 0;
        while i < fills
            invariant
                i <= fills,
                fill == Seq::new(fills as nat, |i: int| value),
                v@ == before + fill.subrange(0, i as int),
            decreases fills - i,
        {
            v.push(value);
            proof {
                assert(fill.subrange(0, i + 1) =~= fill.subrange(0, i as int).push(value));
            }
            i = i + 1;
        }
        let mut j: usize = 0;
        while j < literals
            invariant
                j <= literals,
                at + 1 + literals <= len,
                len == stream@.len(),
                taken == stream@.subrange(at + 1, at + 1 + literals),
                v@ == before + fill + taken.subrange(0, j as int),
            decreases literals - j,
        {
            v.push(stream[at + 1 + j]);
            proof {
                assert(taken.subrange(0, j + 1) =~= taken.subrange(0, j as int).push(
                    stream@[at + 1 + j],
                ));
            }
            j = j + 1;
        }
        proof {
            assert(taken.subrange(0, literals as int) =~= taken);
            assert(before + fill + taken + expand(stream@, at + 1 + literals) =~= before + (fill
                + taken + expand(stream@, at + 1 + literals)));
        }
        at = at + 1 + literals;
    }
    proof {
        assert(v@ + Seq::<u64>::empty() =~= v@);
    }
}

/// The bytes that a row of packed runs stands for, read from position
/// `from`. A run holds a byte in bits 16 to 23 and, in its low 16 bits, the
/// number of times that the byte is repeated.
pub open spec fn unfold_runs(runs: Seq<u32>, from: int) -> Seq<u8>
    decreases runs.len() - from,
{
    if from < 0 || from >= runs.len() {
        seq![]
    } else {
        Seq::new(
            (runs[from] % 0x1_0000) as nat,
            |i: int| (runs[from] / 0x1_0000 % 0x100) as u8,
        ) + unfold_runs(runs, from + 1)
    }
}

/// Appends the bytes that a row of packed runs stands for.
pub fn unfold_runs_into(v: &mut Vec<u8>, runs: &[u32])
    ensures
        final(v)@ == old(v)@ + unfold_runs(runs@, 0),
{
    let len = runs.len();
    let mut at: usize = 0;
    while at < len
        invariant
            at <= len,
            len == runs@.len(),
            v@ + unfold_runs(runs@, at as int) == old(v)@ + unfold_runs(runs@, 0),
        decreases len - at,
    {
        let run = runs[at];
        proof {
            lemma_run_fields(run);
        }
        let count = (run & 0xFFFF) as usize;
        let value: u8 = #[verifier::truncate] ((run >> 16) as u8);
        let ghost before = v@;
        let ghost fill = Seq::new(count as nat, |i: int| value);
        let mut i: usize = 0;
        while i < count
            invariant
                i <= count,
                fill == Seq::new(count as nat, |i: int| value),
                v@ == before + fill.subrange(0, i as int),
            decreases count - i,
        {
            v.push(value);
            proof {
                assert(fill.subrange(0, i + 1) =~= fill.subrange(0, i as int).push(value));
            }
            i = i + 1;
        }
        proof {
            assert(fill.subrange(0, count as int) =~= fill);
            assert(fill =~= Seq::new(
                (runs@[at as int] % 0x1_0000) as nat,
                |i: int| (runs@[at as int] / 0x1_0000 % 0x100) as u8,
            ));
            assert(before + fill + unfold_runs(runs@, at + 1) =~= before + (fill + unfold_runs(
                runs@,
                at + 1,
            )));
        }
        at = at + 1;
    }
    proof {
        assert(v@ + Seq::<u8>::empty() =~= v@);
    }
}

} // verus!
