//! A cursor over the bytes of a well-formed UTF-8 string.
//!
//! The cursor stands on character boundaries only. Beside it the reader
//! keeps a breakpoint: the boundary from which the text has not been copied
//! to the output yet.
use vstd::prelude::*;
use vstd::string::*;
use vstd::utf8::*;
use crate::bits::lemma_utf8_data_bits;

verus! {

/// Position `i` of `b` lies between two characters: what stands before it
/// and what stands after it are both well-formed UTF-8.
pub open spec fn boundary(b: Seq<u8>, i: int) -> bool {
    &&& 0 <= i <= b.len()
    &&& valid_utf8(b.subrange(0, i))
    &&& valid_utf8(b.subrange(i, b.len() as int))
}

/// The characters encoded by the bytes from `i` up to `j`.
pub open spec fn chars_between(b: Seq<u8>, i: int, j: int) -> Seq<char> {
    decode_utf8(b.subrange(i, j))
}

/// The scalar value of the character that starts at `i`.
pub open spec fn scalar_at(b: Seq<u8>, i: int) -> u32 {
    decode_first_scalar(b.subrange(i, b.len() as int))
}

/// The number of bytes that a sequence with the leading byte `first` has.
pub open spec fn spec_sequence_width(first: u8) -> u8 {
    if first < 0x80 {
        1
    } else if first < 0xE0 {
        2
    } else if first < 0xF0 {
        3
    } else {
        4
    }
}

/// The number of bytes of the character that starts at `i`.
pub open spec fn width_at(b: Seq<u8>, i: int) -> int {
    spec_sequence_width(b[i]) as int
}

/// The number of bytes that the UTF-8 encoding of a scalar value has.
pub open spec fn scalar_width(code: u32) -> int {
    if code < 0x80 {
        1
    } else if code < 0x800 {
        2
    } else if code < 0x1_0000 {
        3
    } else {
        4
    }
}

/// Decoding a concatenation of well-formed sequences decodes its parts.
pub proof fn lemma_decode_add(a: Seq<u8>, b: Seq<u8>)
    requires
        valid_utf8(a),
        valid_utf8(b),
    ensures
        valid_utf8(a + b),
        decode_utf8(a + b) == decode_utf8(a) + decode_utf8(b),
    decreases a.len(),
{
    valid_utf8_concat(a, b);
    if a.len() == 0 {
        assert(a + b =~= b);
        assert(decode_utf8(a) + decode_utf8(b) =~= decode_utf8(b));
    } else {
        let rest = pop_first_scalar(a);
        lemma_decode_add(rest, b);
        assert(pop_first_scalar(a + b) =~= rest + b);
        assert(decode_utf8(a + b) =~= decode_utf8(a) + decode_utf8(b));
    }
}

/// A boundary in the sense of this module is a character boundary of the
/// whole sequence, which is well formed.
pub proof fn lemma_boundary_is_char_boundary(b: Seq<u8>, i: int)
    requires
        boundary(b, i),
    ensures
        valid_utf8(b),
        is_char_boundary(b, i),
    decreases b.len(),
{
    let head = b.subrange(0, i);
    let tail = b.subrange(i, b.len() as int);
    valid_utf8_concat(head, tail);
    assert(head + tail =~= b);
    if i != 0 {
        let w = length_of_first_scalar(head);
        let rest = pop_first_scalar(b);
        assert(length_of_first_scalar(b) == w);
        assert(rest.subrange(0, i - w) =~= pop_first_scalar(head));
        assert(rest.subrange(i - w, rest.len() as int) =~= tail);
        lemma_boundary_is_char_boundary(rest, i - w);
    }
}

/// The character that starts at a boundary before the end is well formed;
/// it encodes a scalar value; the position behind it is a boundary again;
/// and a well-formed run that ends before it is extended by it.
pub proof fn lemma_step(b: Seq<u8>, from: int, i: int)
    requires
        boundary(b, i),
        i < b.len(),
        0 <= from <= i,
        valid_utf8(b.subrange(from, i)),
    ensures
        valid_first_scalar(b.subrange(i, b.len() as int)),
        width_at(b, i) == length_of_first_scalar(b.subrange(i, b.len() as int)),
        i + width_at(b, i) <= b.len(),
        is_scalar(scalar_at(b, i)),
        width_at(b, i) == scalar_width(scalar_at(b, i)),
        b[i] < 0xC2 ==> b[i] < 0x80 && scalar_at(b, i) == b[i],
        boundary(b, i + width_at(b, i)),
        valid_utf8(b.subrange(from, i + width_at(b, i))),
        chars_between(b, from, i + width_at(b, i)) == chars_between(b, from, i).push(
            scalar_at(b, i) as char,
        ),
{
    let x = b.subrange(i, b.len() as int);
    let w = length_of_first_scalar(x);
    assert(x[0] == b[i]);
    assert(valid_first_scalar(x));
    assert(w == width_at(b, i));
    if w >= 3 {
        lemma_utf8_data_bits(x[0], x[1], x[2]);
    } else if w == 2 {
        lemma_utf8_data_bits(x[0], x[1], 0);
    } else {
        lemma_utf8_data_bits(x[0], 0, 0);
    }
    let one = x.subrange(0, w);
    assert(valid_utf8(one) && decode_utf8(one) =~= seq![scalar_at(b, i) as char]) by {
        reveal_with_fuel(valid_utf8, 2);
        reveal_with_fuel(decode_utf8, 2);
        assert(pop_first_scalar(one).len() == 0);
        assert(decode_first_scalar(one) == decode_first_scalar(x));
    }
    assert(pop_first_scalar(x) =~= b.subrange(i + w, b.len() as int));
    lemma_decode_add(b.subrange(0, i), one);
    assert(b.subrange(0, i) + one =~= b.subrange(0, i + w));
    lemma_decode_add(b.subrange(from, i), one);
    assert(b.subrange(from, i) + one =~= b.subrange(from, i + w));
    assert(decode_utf8(b.subrange(from, i)) + seq![scalar_at(b, i) as char] =~= decode_utf8(
        b.subrange(from, i),
    ).push(scalar_at(b, i) as char));
}

/// A well-formed sequence that is well formed from `m` on is well formed
/// up to `m`.
proof fn lemma_prefix_valid(x: Seq<u8>, m: int)
    requires
        valid_utf8(x),
        0 <= m <= x.len(),
        valid_utf8(x.subrange(m, x.len() as int)),
    ensures
        valid_utf8(x.subrange(0, m)),
    decreases x.len(),
{
    if m == 0 {
        assert(x.subrange(0, 0) =~= Seq::<u8>::empty());
    } else {
        let w = length_of_first_scalar(x);
        let tail = x.subrange(m, x.len() as int);
        if m < w {
            assert(tail[0] == x[m]);
            assert(valid_first_scalar(tail));
            assert(is_continuation_byte(x[m]));
            assert(false);
        }
        let rest = pop_first_scalar(x);
        assert(rest.subrange(m - w, rest.len() as int) =~= tail);
        lemma_prefix_valid(rest, m - w);
        let one = x.subrange(0, w);
        assert(valid_utf8(one)) by {
            reveal_with_fuel(valid_utf8, 2);
            assert(pop_first_scalar(one).len() == 0);
            assert(decode_first_scalar(one) == decode_first_scalar(x));
        }
        valid_utf8_concat(one, rest.subrange(0, m - w));
        assert(one + rest.subrange(0, m - w) =~= x.subrange(0, m));
    }
}

/// What stands between two boundaries is well formed, and the characters
/// up to the second are those up to the first and those between the two.
pub proof fn lemma_between_boundaries(b: Seq<u8>, from: int, i: int, j: int)
    requires
        boundary(b, from),
        boundary(b, i),
        boundary(b, j),
        from <= i <= j,
    ensures
        valid_utf8(b.subrange(from, i)),
        valid_utf8(b.subrange(i, j)),
        valid_utf8(b.subrange(from, j)),
        chars_between(b, from, j) == chars_between(b, from, i) + chars_between(b, i, j),
{
    let len = b.len() as int;
    assert(b.subrange(from, len).subrange(i - from, len - from) =~= b.subrange(i, len));
    lemma_prefix_valid(b.subrange(from, len), i - from);
    assert(b.subrange(from, len).subrange(0, i - from) =~= b.subrange(from, i));
    assert(b.subrange(i, len).subrange(j - i, len - i) =~= b.subrange(j, len));
    lemma_prefix_valid(b.subrange(i, len), j - i);
    assert(b.subrange(i, len).subrange(0, j - i) =~= b.subrange(i, j));
    lemma_decode_add(b.subrange(from, i), b.subrange(i, j));
    assert(b.subrange(from, i) + b.subrange(i, j) =~= b.subrange(from, j));
}

/// The first of the characters between two different boundaries is the
/// character that starts at the first boundary.
pub proof fn lemma_first_between(b: Seq<u8>, i: int, j: int)
    requires
        boundary(b, i),
        boundary(b, j),
        i < j,
    ensures
        chars_between(b, i, j).len() > 0,
        chars_between(b, i, j)[0] == scalar_at(b, i) as char,
{
    lemma_between_boundaries(b, i, i, j);
    let x = b.subrange(i, j);
    let whole = b.subrange(i, b.len() as int);
    assert(valid_first_scalar(x));
    assert(x[0] == whole[0]);
    assert(length_of_first_scalar(x) == length_of_first_scalar(whole));
    assert(length_of_first_scalar(x) <= x.len());
    if length_of_first_scalar(x) >= 2 {
        assert(x[1] == whole[1]);
    }
    if length_of_first_scalar(x) >= 3 {
        assert(x[2] == whole[2]);
    }
    if length_of_first_scalar(x) >= 4 {
        assert(x[3] == whole[3]);
    }
    assert(decode_first_scalar(x) == decode_first_scalar(whole));
}

/// Between two different boundaries stands at least one character.
pub proof fn lemma_block_nonempty(b: Seq<u8>, i: int, j: int)
    requires
        0 <= i < j <= b.len(),
        valid_utf8(b.subrange(i, j)),
    ensures
        chars_between(b, i, j).len() > 0,
{
}

/// The number of bytes that a sequence with the leading byte `first` has.
pub fn get_utf8_sequence_width(first: u8) -> (r: u8)
    ensures
        r == spec_sequence_width(first),
{
    if first < 0x80 {
        1
    } else if first < 0xE0 {
        2
    } else if first < 0xF0 {
        3
    } else {
        4
    }
}

/// What a reader is: the bytes it walks over and its two positions.
pub struct CharsIterView {
    pub bytes: Seq<u8>,
    pub cursor: int,
    pub breakpoint: int,
}

/// A reader of the characters of a string.
pub struct CharsIter<'a> {
    source: &'a str,
    bytes: &'a [u8],
    cursor: usize,
    breakpoint: usize,
}

impl<'a> View for CharsIter<'a> {
    type V = CharsIterView;

    closed spec fn view(&self) -> CharsIterView {
        CharsIterView {
            bytes: self.bytes@,
            cursor: self.cursor as int,
            breakpoint: self.breakpoint as int,
        }
    }
}

impl<'a> CharsIter<'a> {
    /// The bytes are those of the string that the reader was made from.
    pub closed spec fn bound(&self) -> bool {
        self.bytes@ == self.source.spec_bytes()
    }

    /// The text that the reader walks over.
    pub closed spec fn text(&self) -> Seq<char> {
        self.source@
    }

    /// Both positions are boundaries, the breakpoint is not behind the
    /// cursor, and what lies between them is well formed.
    pub open spec fn wf(&self) -> bool {
        &&& self.bound()
        &&& self@.bytes == encode_utf8(self.text())
        &&& self@.breakpoint <= self@.cursor
        &&& boundary(self@.bytes, self@.breakpoint)
        &&& boundary(self@.bytes, self@.cursor)
        &&& valid_utf8(self@.bytes.subrange(self@.breakpoint, self@.cursor))
    }

    /// The characters between the breakpoint and the cursor.
    pub open spec fn block(&self) -> Seq<char> {
        chars_between(self@.bytes, self@.breakpoint, self@.cursor)
    }

    /// The characters before the cursor.
    pub open spec fn consumed(&self) -> Seq<char> {
        chars_between(self@.bytes, 0, self@.cursor)
    }

    /// A reader at the start of `source`.
    pub fn new(source: &'a str) -> (r: Self)
        ensures
            r.wf(),
            r.text() == source@,
            r@.cursor == 0,
            r@.breakpoint == 0,
    {
        let bytes = source.as_bytes();
        proof {
            encode_utf8_valid_utf8(source@);
            assert(bytes@.subrange(0, 0) =~= Seq::<u8>::empty());
            assert(bytes@.subrange(0, bytes@.len() as int) =~= bytes@);
        }
        CharsIter { source, bytes, cursor: 0, breakpoint: 0 }
    }

    /// No character is left.
    pub fn is_empty(&self) -> (r: bool)
        requires
            self.wf(),
        ensures
            r == (self@.cursor == self@.bytes.len()),
    {
        self.cursor >= self.bytes.len()
    }

    /// Moves the breakpoint to the cursor.
    pub fn set_breakpoint(&mut self)
        requires
            old(self).wf(),
        ensures
            final(self).wf(),
            final(self).text() == old(self).text(),
            final(self)@ == (CharsIterView { breakpoint: old(self)@.cursor, ..old(self)@ }),
    {
        self.breakpoint = self.cursor;
        proof {
            assert(self@.bytes.subrange(self@.cursor, self@.cursor) =~= Seq::<u8>::empty());
        }
    }

    /// The byte under the cursor: the leading byte of the next character.
    pub fn first_byte(&self) -> (first: u8)
        requires
            self.wf(),
            self@.cursor < self@.bytes.len(),
        ensures
            first == self@.bytes[self@.cursor],
    {
        self.bytes[self.cursor]
    }

    /// Steps over the ASCII character under the cursor.
    pub fn skip_ascii(&mut self)
        requires
            old(self).wf(),
            old(self)@.cursor < old(self)@.bytes.len(),
            old(self)@.bytes[old(self)@.cursor] < 0xC2,
        ensures
            final(self).wf(),
            final(self).text() == old(self).text(),
            final(self)@ == (CharsIterView { cursor: old(self)@.cursor + 1, ..old(self)@ }),
            old(self)@.bytes[old(self)@.cursor] < 0x80,
            scalar_at(old(self)@.bytes, old(self)@.cursor) == old(self)@.bytes[old(self)@.cursor],
            final(self).block() == old(self).block().push(
                scalar_at(old(self)@.bytes, old(self)@.cursor) as char,
            ),
            final(self).consumed() == old(self).consumed().push(
                scalar_at(old(self)@.bytes, old(self)@.cursor) as char,
            ),
    {
        proof {
            lemma_step(self@.bytes, self@.breakpoint, self@.cursor);
            lemma_step(self@.bytes, 0, self@.cursor);
        }
        let len = self.bytes.len();
        assert(self.cursor < len);
        self.cursor = self.cursor + 1;
    }

    /// Decodes the character under the cursor, whose leading byte is
    /// `first`, and steps over it.
    pub fn read_scalar(&mut self, first: u8) -> (code: u32)
        requires
            old(self).wf(),
            old(self)@.cursor < old(self)@.bytes.len(),
            first == old(self)@.bytes[old(self)@.cursor],
            first >= 0x80,
        ensures
            final(self).wf(),
            final(self).text() == old(self).text(),
            final(self)@ == (CharsIterView {
                cursor: old(self)@.cursor + spec_sequence_width(first),
                ..old(self)@
            }),
            code == scalar_at(old(self)@.bytes, old(self)@.cursor),
            is_scalar(code),
            code >= 0x80,
            final(self).block() == old(self).block().push(code as char),
            final(self).consumed() == old(self).consumed().push(code as char),
    {
        proof {
            lemma_step(self@.bytes, self@.breakpoint, self@.cursor);
            lemma_step(self@.bytes, 0, self@.cursor);
        }
        let ghost x = self@.bytes.subrange(self@.cursor, self@.bytes.len() as int);
        assert(x[0] == first);
        let at = self.cursor;
        let len = self.bytes.len();
        assert(at + spec_sequence_width(first) <= len);
        if first < 0xE0 {
            assert(x[1] == self@.bytes[at + 1]);
            let b1 = self.bytes[at + 1];
            self.cursor = at + 2;
            (((first & 0x1F) as u32) << 6) | ((b1 & 0x3F) as u32)
        } else if first < 0xF0 {
            assert(x[1] == self@.bytes[at + 1] && x[2] == self@.bytes[at + 2]);
            let b1 = self.bytes[at + 1];
            let b2 = self.bytes[at + 2];
            self.cursor = at + 3;
            (((first & 0x0F) as u32) << 12) | (((b1 & 0x3F) as u32) << 6) | ((b2 & 0x3F) as u32)
        } else {
            assert(x[1] == self@.bytes[at + 1] && x[2] == self@.bytes[at + 2] && x[3]
                == self@.bytes[at + 3]);
            let b1 = self.bytes[at + 1];
            let b2 = self.bytes[at + 2];
            let b3 = self.bytes[at + 3];
            self.cursor = at + 4;
            (((first & 0x07) as u32) << 18) | (((b1 & 0x3F) as u32) << 12) | (((b2 & 0x3F) as u32)
                << 6) | ((b3 & 0x3F) as u32)
        }
    }

    /// The character of `width` bytes that was read last started at the
    /// breakpoint.
    pub fn at_breakpoint(&self, width: u8) -> (r: bool)
        requires
            self.wf(),
            self@.breakpoint + width <= self@.cursor,
        ensures
            r == (self@.cursor - width == self@.breakpoint),
    {
        self.cursor - (width as usize) == self.breakpoint
    }

    /// The text from the breakpoint up to the character of `width` bytes
    /// that was read last.
    pub fn block_slice(&self, width: u8) -> (r: &'a str)
        requires
            self.wf(),
            self@.breakpoint + width <= self@.cursor,
            boundary(self@.bytes, self@.cursor - width),
            valid_utf8(self@.bytes.subrange(self@.breakpoint, self@.cursor - width)),
        ensures
            r@ == chars_between(self@.bytes, self@.breakpoint, self@.cursor - width),
    {
        let end = self.cursor - (width as usize);
        proof {
            lemma_boundary_is_char_boundary(self@.bytes, end as int);
        }
        let (head, _) = self.source.split_at(end);
        proof {
            let h = head.spec_bytes();
            assert(h.subrange(0, self@.breakpoint) =~= self@.bytes.subrange(0, self@.breakpoint));
            assert(h.subrange(self@.breakpoint, h.len() as int) =~= self@.bytes.subrange(
                self@.breakpoint,
                end as int,
            ));
            lemma_boundary_is_char_boundary(h, self@.breakpoint);
        }
        let (_, block) = head.split_at(self.breakpoint);
        proof {
            encode_utf8_decode_utf8(block@);
            assert(block.spec_bytes() =~= self@.bytes.subrange(self@.breakpoint, end as int));
        }
        block
    }

    /// The text from the breakpoint to the end.
    pub fn ending_slice(&self) -> (r: &'a str)
        requires
            self.wf(),
        ensures
            r@ == chars_between(self@.bytes, self@.breakpoint, self@.bytes.len() as int),
    {
        proof {
            lemma_boundary_is_char_boundary(self@.bytes, self@.breakpoint);
        }
        let (_, tail) = self.source.split_at(self.breakpoint);
        proof {
            encode_utf8_decode_utf8(tail@);
        }
        tail
    }

    /// The block and what stands before the breakpoint make up what has
    /// been read; at the end that is the whole text.
    pub proof fn lemma_consumed(&self)
        requires
            self.wf(),
        ensures
            self.consumed() == chars_between(self@.bytes, 0, self@.breakpoint) + self.block(),
            self@.cursor == self@.bytes.len() ==> self.consumed() == self.text(),
    {
        let b = self@.bytes;
        lemma_decode_add(b.subrange(0, self@.breakpoint), b.subrange(self@.breakpoint, self@.cursor));
        assert(b.subrange(0, self@.breakpoint) + b.subrange(self@.breakpoint, self@.cursor)
            =~= b.subrange(0, self@.cursor));
        if self@.cursor == b.len() {
            assert(b.subrange(0, self@.cursor) =~= b);
            encode_utf8_decode_utf8(self.text());
        }
    }
}

} // verus!
