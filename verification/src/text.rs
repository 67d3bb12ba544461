//! Scalar values as `char`s, and appending them to the output string.
use vstd::prelude::*;
use vstd::string::*;
use vstd::utf8::*;
use crate::codepoint::Codepoint;

verus! {

/// `char::from_u32` gives the `char` of a scalar value and refuses every
/// other number: surrogates and what lies above U+10FFFF.
pub assume_specification[ char::from_u32 ](i: u32) -> (r: Option<char>)
    ensures
        is_scalar(i) ==> r == Some(i as char),
        !is_scalar(i) ==> r is None,
;

/// `String::push` appends one `char` at the end.
pub assume_specification[ String::push ](s: &mut String, ch: char)
    ensures
        final(s)@ == old(s)@.push(ch),
;

/// `String::push_str` appends a string slice at the end.
pub assume_specification[ String::push_str ](s: &mut String, string: &str)
    ensures
        final(s)@ == old(s)@ + string@,
;

/// `String::with_capacity` gives an empty string, whatever room it reserves.
pub assume_specification[ String::with_capacity ](capacity: usize) -> (s: String)
    ensures
        s@ == Seq::<char>::empty(),
;

/// The error of `core::str::from_utf8`.
#[verifier::external_type_specification]
#[verifier::external_body]
pub struct ExUtf8Error(core::str::Utf8Error);

/// `core::str::from_utf8` gives the string slice over the same bytes if
/// they are well-formed UTF-8, and an error if they are not.
pub assume_specification[ core::str::from_utf8 ](v: &[u8]) -> (r: Result<
    &str,
    core::str::Utf8Error,
>)
    ensures
        valid_utf8(v@) ==> r is Ok && r->Ok_0.spec_bytes() == v@,
        !valid_utf8(v@) ==> r is Err,
;

/// The character that a codepoint stands for.
pub open spec fn scalar_of(c: Codepoint) -> char {
    c.spec_code() as char
}

/// The characters of a sequence of codepoints, in order.
pub open spec fn scalars(d: Seq<Codepoint>) -> Seq<char> {
    Seq::new(d.len(), |i: int| scalar_of(d[i]))
}

/// Every codepoint of `d` holds a Unicode scalar value.
pub open spec fn all_scalar(d: Seq<Codepoint>) -> bool {
    forall|i: int| 0 <= i < d.len() ==> is_scalar(#[trigger] d[i].spec_code())
}

/// The characters of a concatenation.
pub proof fn lemma_scalars_add(a: Seq<Codepoint>, b: Seq<Codepoint>)
    ensures
        scalars(a + b) == scalars(a) + scalars(b),
{
    assert(scalars(a + b) =~= scalars(a) + scalars(b));
}

/// The characters after one more codepoint.
pub proof fn lemma_scalars_push(a: Seq<Codepoint>, c: Codepoint)
    ensures
        scalars(a.push(c)) == scalars(a).push(scalar_of(c)),
{
    assert(scalars(a.push(c)) =~= scalars(a).push(scalar_of(c)));
}

impl Codepoint {
    /// The character that the codepoint stands for.
    #[inline]
    pub fn to_char(&self) -> (r: char)
        requires
            is_scalar(self.spec_code()),
        ensures
            r == scalar_of(*self),
    {
        match char::from_u32(self.code()) {
            Some(ch) => ch,
            None => '\u{0}',
        }
    }
}

/// Appends the character with scalar value `code`.
pub fn write_char(result: &mut String, code: u32)
    requires
        is_scalar(code),
    ensures
        final(result)@ == old(result)@.push(code as char),
{
    match char::from_u32(code) {
        Some(ch) => result.push(ch),
        None => {},
    }
}

/// Appends the character of a codepoint.
pub fn write(result: &mut String, codepoint: Codepoint)
    requires
        is_scalar(codepoint.spec_code()),
    ensures
        final(result)@ == old(result)@.push(scalar_of(codepoint)),
{
    result.push(codepoint.to_char());
}

/// Appends a run of text that needs no change.
pub fn write_str(result: &mut String, string: &str)
    ensures
        final(result)@ == old(result)@ + string@,
{
    result.push_str(string);
}

/// Appends the characters that well-formed UTF-8 bytes encode.
pub fn write_utf8(result: &mut String, bytes: &[u8])
    requires
        valid_utf8(bytes@),
    ensures
        final(result)@ == old(result)@ + decode_utf8(bytes@),
{
    match core::str::from_utf8(bytes) {
        Ok(string) => {
            proof {
                encode_utf8_decode_utf8(string@);
            }
            result.push_str(string);
        },
        Err(_) => {},
    }
}

} // verus!
