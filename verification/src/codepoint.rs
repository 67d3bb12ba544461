//! A scalar value and its canonical combining class in one 32-bit word.
use vstd::prelude::*;
use crate::bits::lemma_u32_fields;
use crate::bits::lemma_u32_pack;

verus! {

/// A packed codepoint: the scalar value in the upper 24 bits, the canonical
/// combining class (CCC) in the low 8 bits.
#[derive(Debug, Clone, Copy)]
pub struct Codepoint(pub u32);

impl From<u32> for Codepoint {
    /// Takes a packed word as a codepoint.
    #[inline]
    fn from(value: u32) -> (r: Self) {
        Self(value)
    }
}

impl vstd::std_specs::convert::FromSpecImpl<u32> for Codepoint {
    open spec fn obeys_from_spec() -> bool {
        true
    }

    open spec fn from_spec(value: u32) -> Self {
        Codepoint(value)
    }
}

impl From<Codepoint> for u32 {
    /// The packed word of a codepoint.
    #[inline]
    fn from(value: Codepoint) -> (r: Self) {
        value.0
    }
}

impl vstd::std_specs::convert::FromSpecImpl<Codepoint> for u32 {
    open spec fn obeys_from_spec() -> bool {
        true
    }

    open spec fn from_spec(value: Codepoint) -> Self {
        value.0
    }
}

impl Codepoint {
    /// The scalar value held in the upper 24 bits.
    pub open spec fn spec_code(self) -> u32 {
        self.0 / 256
    }

    /// The canonical combining class held in the low byte.
    pub open spec fn spec_ccc(self) -> u8 {
        (self.0 % 256) as u8
    }

    /// A starter is a codepoint of combining class zero.
    pub open spec fn spec_is_starter(self) -> bool {
        self.spec_ccc() == 0
    }

    /// The word that holds `code` (taken modulo 2^24) above `ccc`.
    pub open spec fn pack(code: u32, ccc: u8) -> Codepoint {
        Codepoint(((code % 0x100_0000) * 256 + ccc) as u32)
    }

    /// The starter with scalar value `code`.
    pub open spec fn starter(code: u32) -> Codepoint {
        Codepoint::pack(code, 0)
    }

    /// Packing and unpacking are inverse on 24-bit scalar values.
    pub proof fn lemma_pack_fields(code: u32, ccc: u8)
        requires
            code < 0x100_0000,
        ensures
            Codepoint::pack(code, ccc).spec_code() == code,
            Codepoint::pack(code, ccc).spec_ccc() == ccc,
    {
    }

    /// A codepoint is determined by its two fields.
    pub proof fn lemma_unpack_pack(self)
        ensures
            Codepoint::pack(self.spec_code(), self.spec_ccc()) == self,
            self.spec_code() < 0x100_0000,
    {
    }

    /// The scalar value.
    pub fn code(&self) -> (r: u32)
        ensures
            r == self.spec_code(),
    {
        proof {
            lemma_u32_fields(self.0);
        }
        self.0 >> 8
    }

    /// The canonical combining class.
    pub fn ccc(&self) -> (r: u8)
        ensures
            r == self.spec_ccc(),
    {
        proof {
            lemma_u32_fields(self.0);
        }
        #[verifier::truncate]
        (self.0 as u8)
    }

    /// Whether the combining class is zero.
    pub fn is_starter(&self) -> (r: bool)
        ensures
            r == self.spec_is_starter(),
    {
        self.ccc() == 0
    }

    /// Whether the combining class is not zero.
    pub fn is_nonstarter(&self) -> (r: bool)
        ensures
            r == !self.spec_is_starter(),
    {
        self.ccc() != 0
    }

    /// Takes a word as it is stored in the tables.
    pub fn from_baked(code: u32) -> (r: Self)
        ensures
            r == Codepoint(code),
    {
        Self(code)
    }

    /// Packs a scalar value, of which 24 bits are kept, and a combining class.
    pub fn from_code_and_ccc(code: u32, ccc: u8) -> (r: Self)
        ensures
            r == Codepoint::pack(code, ccc),
    {
        proof {
            lemma_u32_pack(code, ccc);
        }
        Self(code << 8 | (ccc as u32))
    }

    /// Packs a scalar value, of which 24 bits are kept, and a combining class.
    pub fn compose(code: u32, ccc: u8) -> (r: Self)
        ensures
            r == Codepoint::pack(code, ccc),
    {
        Codepoint::from_code_and_ccc(code, ccc)
    }

    /// The starter with the given scalar value, of which 24 bits are kept.
    pub fn from_code(code: u32) -> (r: Self)
        ensures
            r == Codepoint::starter(code),
    {
        proof {
            lemma_u32_pack(code, 0);
        }
        Self(code << 8)
    }
}

} // verus!
