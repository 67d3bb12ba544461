//! The mathematical model of the lookup tables and of decomposition.
use vstd::prelude::*;
use vstd::utf8::*;
use crate::codepoint::Codepoint;
use crate::decomposition::spec_parse_data_value;
use crate::decomposition::DecompositionValue;
use crate::hangul::hangul_decomposition;
use crate::hangul::is_hangul_syllable;
use crate::hangul::is_jamo;

verus! {

/// The last scalar value that has a decomposition or a nonzero combining
/// class. The tables are never consulted above it.
pub const LAST_DECOMPOSING_CODEPOINT: u32 = 0x2FA1D;

/// No scalar value decomposes into more codepoints than this.
pub const MAX_DECOMPOSITION_LENGTH: u8 = 18;

/// The lookup tables of one normalization form, as mathematical sequences.
pub struct Tables {
    /// Maps a page, that is a scalar value divided by 128, to a block of
    /// 128 words in `data`.
    pub index: Seq<u8>,
    /// Descriptor words. The words up to `continuous_block_end` are found
    /// by scalar value, the others through `index`.
    pub data: Seq<u64>,
    /// Packed codepoints of the decompositions stored out of line.
    pub expansions: Seq<u32>,
    /// Highest scalar value whose word is found in `data` directly.
    pub continuous_block_end: u32,
}

impl Tables {
    /// Where in `data` the word of `code` stands.
    pub open spec fn slot(self, code: u32) -> int {
        if code <= self.continuous_block_end {
            code as int
        } else {
            self.index[code as int / 128] as int * 128 + code as int % 128
        }
    }

    /// The tables are large enough to hold the word of `code`.
    pub open spec fn in_bounds(self, code: u32) -> bool {
        &&& code > self.continuous_block_end ==> code as int / 128 < self.index.len()
        &&& self.slot(code) < self.data.len()
    }

    /// The descriptor word of `code`: zero above the last decomposing
    /// scalar value, the table's word otherwise.
    pub open spec fn lookup(self, code: u32) -> u64 {
        if code > LAST_DECOMPOSING_CODEPOINT {
            0
        } else {
            self.data[self.slot(code)]
        }
    }

    /// The descriptor of `code`.
    pub open spec fn descriptor(self, code: u32) -> DecompositionValue {
        spec_parse_data_value(self.lookup(code))
    }

    /// The canonical combining class that the tables give `code`.
    pub open spec fn ccc(self, code: u32) -> u8 {
        match self.descriptor(code) {
            DecompositionValue::Nonstarter(ccc) => ccc,
            _ => 0,
        }
    }

    /// The `count` codepoints stored from `index` on in the expansions.
    pub open spec fn expansion(self, index: u16, count: u8) -> Seq<Codepoint> {
        Seq::new(count as nat, |j: int| Codepoint(self.expansions[index + j]))
    }

    /// What `code` decomposes into: itself where it has no decomposition.
    pub open spec fn decomposition(self, code: u32) -> Seq<Codepoint> {
        match self.descriptor(code) {
            DecompositionValue::Starter => seq![Codepoint::starter(code)],
            DecompositionValue::Nonstarter(ccc) => seq![Codepoint::pack(code, ccc)],
            DecompositionValue::Singleton(c1) => seq![c1],
            DecompositionValue::Pair(c1, c2) => seq![c1, c2],
            DecompositionValue::Triple(c1, c2, c3) => seq![c1, c2, c3],
            DecompositionValue::Expansion(index, count) => self.expansion(index, count),
            DecompositionValue::Hangul => hangul_decomposition(code),
        }
    }

    /// The decompositions of the characters of `s`, one after the other.
    pub open spec fn decompose_all(self, s: Seq<char>) -> Seq<Codepoint>
        decreases s.len(),
    {
        if s.len() == 0 {
            seq![]
        } else {
            self.decompose_all(s.drop_last()) + self.decomposition(s.last() as u32)
        }
    }

    /// `c` is fully decomposed: a scalar value that the tables leave as it
    /// is, with the combining class that they give it.
    pub open spec fn is_stable(self, c: Codepoint) -> bool {
        &&& is_scalar(c.spec_code())
        &&& self.descriptor(c.spec_code()) == if c.spec_ccc() == 0 {
            DecompositionValue::Starter
        } else {
            DecompositionValue::Nonstarter(c.spec_ccc())
        }
    }

    /// The descriptor of `code` is one that a table may hold.
    pub open spec fn entry_ok(self, code: u32) -> bool {
        &&& code < 0x80 ==> self.lookup(code) == 0
        &&& is_jamo(code) ==> self.lookup(code) == 0
        &&& self.descriptor(code) is Hangul <==> is_hangul_syllable(code)
        &&& match self.descriptor(code) {
            DecompositionValue::Starter => true,
            DecompositionValue::Nonstarter(ccc) => ccc != 0,
            DecompositionValue::Singleton(c1) => c1.spec_is_starter() && self.is_stable(c1),
            DecompositionValue::Pair(c1, c2) => self.is_stable(c1) && self.is_stable(c2),
            DecompositionValue::Triple(c1, c2, c3) => {
                &&& self.is_stable(c1)
                &&& self.is_stable(c2)
                &&& self.is_stable(c3)
            },
            DecompositionValue::Expansion(index, count) => {
                &&& 1 <= count <= MAX_DECOMPOSITION_LENGTH
                &&& index + count <= self.expansions.len()
                &&& forall|j: int|
                    0 <= j < count ==> self.is_stable(
                        Codepoint(#[trigger] self.expansions[index + j]),
                    )
            },
            DecompositionValue::Hangul => true,
        }
    }

    /// All that is asked of the tables about one scalar value.
    pub open spec fn code_ok(self, code: u32) -> bool {
        self.in_bounds(code) && self.entry_ok(code)
    }

    /// The tables are well formed: every scalar value up to the last
    /// decomposing one has a word, ASCII and the jamo have the zero word,
    /// exactly the Hangul syllables are marked as such, every decomposition
    /// is stored whole and is fully decomposed, and none is longer than
    /// `MAX_DECOMPOSITION_LENGTH`.
    pub open spec fn well_formed(self) -> bool {
        forall|code: u32| code <= LAST_DECOMPOSING_CODEPOINT ==> #[trigger] self.code_ok(code)
    }
}

/// The state of canonical reordering in the middle of a text: what is
/// settled, and the nonstarters that wait for the next starter.
pub struct Reordering {
    /// The codepoints whose place is settled.
    pub out: Seq<Codepoint>,
    /// The nonstarters read since the last starter, in the order read.
    pub pending: Seq<Codepoint>,
}

/// The predicate "has combining class `k`".
pub open spec fn in_class(k: int) -> spec_fn(Codepoint) -> bool {
    |c: Codepoint| c.spec_ccc() == k
}

/// The codepoints of `s` that have combining class `k`, in their order.
pub open spec fn of_class(s: Seq<Codepoint>, k: int) -> Seq<Codepoint> {
    s.filter(in_class(k))
}

/// The codepoints of classes zero to `k`: class after class, and within a
/// class in the order that they have in `s`.
pub open spec fn classes_through(s: Seq<Codepoint>, k: int) -> Seq<Codepoint>
    decreases k + 1,
{
    if k < 0 {
        seq![]
    } else {
        classes_through(s, k - 1) + of_class(s, k)
    }
}

/// The stable sort of `s` by combining class.
pub open spec fn sort_by_ccc(s: Seq<Codepoint>) -> Seq<Codepoint> {
    classes_through(s, 255)
}

/// `s` ascends by combining class.
pub open spec fn sorted_by_ccc(s: Seq<Codepoint>) -> bool {
    forall|i: int, j: int|
        #![trigger s[i], s[j]]
        0 <= i < j < s.len() ==> s[i].spec_ccc() <= s[j].spec_ccc()
}

impl Reordering {
    /// Nothing read yet.
    pub open spec fn start() -> Reordering {
        Reordering { out: seq![], pending: seq![] }
    }

    /// Reads one codepoint. A starter settles the waiting nonstarters, in
    /// stable order of their classes, and then itself; a nonstarter waits.
    pub open spec fn feed(self, c: Codepoint) -> Reordering {
        if c.spec_is_starter() {
            Reordering { out: self.out + sort_by_ccc(self.pending) + seq![c], pending: seq![] }
        } else {
            Reordering { out: self.out, pending: self.pending.push(c) }
        }
    }

    /// Reads the codepoints of `d` in order.
    pub open spec fn feed_all(self, d: Seq<Codepoint>) -> Reordering
        decreases d.len(),
    {
        if d.len() == 0 {
            self
        } else {
            self.feed_all(d.drop_last()).feed(d.last())
        }
    }

    /// The whole output once the text has ended.
    pub open spec fn finish(self) -> Seq<Codepoint> {
        self.out + sort_by_ccc(self.pending)
    }
}

/// The canonical ordering of `d`: every maximal run of nonstarters sorted by
/// combining class, codepoints of equal class in their given order.
pub open spec fn reorder(d: Seq<Codepoint>) -> Seq<Codepoint> {
    Reordering::start().feed_all(d).finish()
}

/// The codepoints of the normal form of `s`.
pub open spec fn normalized_codepoints(t: Tables, s: Seq<char>) -> Seq<Codepoint> {
    reorder(t.decompose_all(s))
}

/// The normal form of `s` under the tables `t`: decompose every character,
/// then put the result into canonical order.
pub open spec fn normalized(t: Tables, s: Seq<char>) -> Seq<char> {
    crate::text::scalars(normalized_codepoints(t, s))
}

} // verus!
