//! Bounds-checked extraction of little-endian integers and of text from a
//! byte buffer. Every reader first checks that its window lies inside the
//! buffer, and reports the window when it does not.

use crate::common::{deep, plain, viewed, DecodeError, Failure, R};
use vstd::prelude::*;
use vstd::slice::slice_subrange;
use vstd::string::StringSliceAdditionalSpecFns;
use vstd::utf8::{decode_utf8, encode_utf8, encode_utf8_decode_utf8, valid_utf8};

verus! {

/// `core::str::Utf8Error`, the failure of `core::str::from_utf8`. Nothing is
/// read from it.
#[verifier::external_type_specification]
#[verifier::external_body]
pub struct ExUtf8Error(core::str::Utf8Error);

/// `core::str::from_utf8` accepts exactly the well-formed UTF-8 byte
/// sequences, and hands back the text that they encode.
pub assume_specification<'a>[ core::str::from_utf8 ](v: &'a [u8]) -> (r: Result<
    &'a str,
    core::str::Utf8Error,
>)
    ensures
        r is Ok <==> valid_utf8(v@),
        r matches Ok(s) ==> s@ == decode_utf8(v@),
;

/// `String::push` appends one character to the end of the string.
pub assume_specification[ String::push ](s: &mut String, ch: char)
    ensures
        final(s)@ == old(s)@.push(ch),
;

/// The window of `width` bytes at `offset` lies inside `bytes`.
pub open spec fn fits(bytes: Seq<u8>, offset: int, width: int) -> bool {
    0 <= offset && 0 <= width && offset + width <= bytes.len()
}

/// What a reader reports when its window does not fit.
pub open spec fn out_of_range(bytes: Seq<u8>, offset: int, width: int) -> Failure {
    Failure::OutOfRange { offset, width, len: bytes.len() as int }
}

/// The unsigned number that two bytes spell, least significant byte first.
pub open spec fn le_u16(b: Seq<u8>) -> u16 {
    (b[0] as int + 256 * (b[1] as int)) as u16
}

/// The unsigned number that four bytes spell, least significant byte first.
pub open spec fn le_u32(b: Seq<u8>) -> u32 {
    (b[0] as int + 256 * (b[1] as int) + 65536 * (b[2] as int) + 16777216 * (b[3] as int)) as u32
}

/// The two's-complement number that four bytes spell, least significant byte
/// first.
pub open spec fn le_i32(b: Seq<u8>) -> i32 {
    let u = le_u32(b) as int;
    (if u < 0x8000_0000 {
        u
    } else {
        u - 0x1_0000_0000
    }) as i32
}

/// The `width` bytes at `offset`, or the window that did not fit.
pub open spec fn bytes_at(bytes: Seq<u8>, offset: int, width: int) -> Result<Seq<u8>, Failure> {
    if fits(bytes, offset, width) {
        Ok(bytes.subrange(offset, offset + width))
    } else {
        Err(out_of_range(bytes, offset, width))
    }
}

pub open spec fn u8_at(bytes: Seq<u8>, offset: int) -> Result<u8, Failure> {
    match bytes_at(bytes, offset, 1) {
        Ok(b) => Ok(b[0]),
        Err(e) => Err(e),
    }
}

pub open spec fn u16_at(bytes: Seq<u8>, offset: int) -> Result<u16, Failure> {
    match bytes_at(bytes, offset, 2) {
        Ok(b) => Ok(le_u16(b)),
        Err(e) => Err(e),
    }
}

pub open spec fn u32_at(bytes: Seq<u8>, offset: int) -> Result<u32, Failure> {
    match bytes_at(bytes, offset, 4) {
        Ok(b) => Ok(le_u32(b)),
        Err(e) => Err(e),
    }
}

pub open spec fn i32_at(bytes: Seq<u8>, offset: int) -> Result<i32, Failure> {
    match bytes_at(bytes, offset, 4) {
        Ok(b) => Ok(le_i32(b)),
        Err(e) => Err(e),
    }
}

/// The text that `bytes` encode in UTF-8. `offset` is where they stand in
/// their buffer, for the report when they encode none.
pub open spec fn text_of(bytes: Seq<u8>, offset: int) -> Result<Seq<char>, Failure> {
    if valid_utf8(bytes) {
        Ok(decode_utf8(bytes))
    } else {
        Err(Failure::Encoding { offset })
    }
}

/// The text in the `length` bytes at `offset`.
pub open spec fn string_at(bytes: Seq<u8>, offset: int, length: int) -> Result<
    Seq<char>,
    Failure,
> {
    match bytes_at(bytes, offset, length) {
        Ok(b) => text_of(b, offset),
        Err(e) => Err(e),
    }
}

/// The text in the `length` bytes at `offset`, its characters in reverse
/// order. The bytes are decoded first and the characters reversed after.
pub open spec fn reversed_string_at(bytes: Seq<u8>, offset: int, length: int) -> Result<
    Seq<char>,
    Failure,
> {
    match string_at(bytes, offset, length) {
        Ok(s) => Ok(s.reverse()),
        Err(e) => Err(e),
    }
}

/// The index of the first zero byte at or after `offset`, or the length of
/// `bytes` where there is none.
pub open spec fn terminator_from(bytes: Seq<u8>, offset: int) -> int
    recommends
        0 <= offset,
    decreases bytes.len() - offset,
{
    if offset >= bytes.len() {
        bytes.len() as int
    } else if bytes[offset] == 0 {
        offset
    } else {
        terminator_from(bytes, offset + 1)
    }
}

/// The text that starts at `offset` and runs up to the next zero byte, or
/// to the end of the buffer where no zero byte follows. An offset equal to
/// the length gives the empty text; one beyond it is out of range.
pub open spec fn c_string_at(bytes: Seq<u8>, offset: int) -> Result<Seq<char>, Failure> {
    if 0 <= offset <= bytes.len() {
        text_of(bytes.subrange(offset, terminator_from(bytes, offset)), offset)
    } else {
        Err(out_of_range(bytes, offset, 0))
    }
}

/// The zero-terminated texts packed one after another from `start` on.
/// Bytes after the last zero byte belong to no text. The first text that is
/// not valid UTF-8 fails the whole, with the offset at which it starts.
pub open spec fn packed_strings_from(bytes: Seq<u8>, start: int) -> Result<
    Seq<Seq<char>>,
    Failure,
>
    recommends
        0 <= start,
    decreases bytes.len() - start,
{
    let end = terminator_from(bytes, start);
    if start < 0 || start >= bytes.len() || end >= bytes.len() || end < start {
        Ok(Seq::empty())
    } else {
        match text_of(bytes.subrange(start, end), start) {
            Err(e) => Err(e),
            Ok(s) => match packed_strings_from(bytes, end + 1) {
                Err(e) => Err(e),
                Ok(rest) => Ok(seq![s] + rest),
            },
        }
    }
}

/// Where the terminator lies: between the offset and the end, after only
/// nonzero bytes, and on a zero byte unless it is the end.
pub proof fn lemma_terminator_from(bytes: Seq<u8>, offset: int)
    requires
        0 <= offset <= bytes.len(),
    ensures
        offset <= terminator_from(bytes, offset) <= bytes.len(),
        forall|i: int| offset <= i < terminator_from(bytes, offset) ==> bytes[i] != 0,
        terminator_from(bytes, offset) < bytes.len() ==> bytes[terminator_from(bytes, offset)]
            == 0,
    decreases bytes.len() - offset,
{
    if offset < bytes.len() && bytes[offset] != 0 {
        lemma_terminator_from(bytes, offset + 1);
    }
}

/// The unsigned number that four bytes spell, least significant byte first.
pub fn u32_from_le(word: [u8; 4]) -> (r: u32)
    ensures
        r == le_u32(word@),
{
    word[0] as u32 + 256 * (word[1] as u32) + 65536 * (word[2] as u32) + 16777216 * (
    word[3] as u32)
}

/// The two's-complement number that four bytes spell, least significant byte
/// first.
pub fn i32_from_le(word: [u8; 4]) -> (r: i32)
    ensures
        r == le_i32(word@),
{
    let u = u32_from_le(word);
    if u < 0x8000_0000 {
        u as i32
    } else {
        ((u - 0x8000_0000) as i32) + i32::MIN
    }
}

/// The characters of a text, in order.
pub fn chars_of(s: &str) -> (r: Vec<char>)
    ensures
        r@ == s@,
{
    let chars = s.chars();
    let mut out: Vec<char> = Vec::new();
    for c in it: chars
        invariant
            out@ == it.seq().take(it.index() as int),
    {
        out.push(c);
    }
    out
}

/// Appends characters to a text.
pub fn push_chars(out: &mut String, chars: &Vec<char>)
    ensures
        final(out)@ == old(out)@ + chars@,
{
    let ghost before = out@;
    let mut i: usize = 0;
    while i < chars.len()
        invariant
            i <= chars.len(),
            out@ == before + chars@.take(i as int),
        decreases chars.len() - i,
    {
        out.push(chars[i]);
        assert(chars@.take(i + 1) =~= chars@.take(i as int).push(chars@[i as int]));
        assert(out@ =~= before + chars@.take(i + 1));
        i = i + 1;
    }
    assert(chars@.take(chars.len() as int) =~= chars@);
}

/// The same text with its characters in reverse order.
pub fn reverse_chars(s: &str) -> (r: String)
    ensures
        r@ == s@.reverse(),
{
    let forward = chars_of(s);
    let mut out = String::new();
    let mut i: usize = forward.len();
    while i > 0
        invariant
            i <= forward.len(),
            out@ == forward@.subrange(i as int, forward.len() as int).reverse(),
        decreases i,
    {
        i = i - 1;
        out.push(forward[i]);
    }
    out
}

/// Whether two texts hold the same characters.
pub fn same_text(a: &str, b: &str) -> (r: bool)
    ensures
        r == (a@ == b@),
{
    let x = a.as_bytes();
    let y = b.as_bytes();
    proof {
        encode_utf8_decode_utf8(a@);
        encode_utf8_decode_utf8(b@);
    }
    if x.len() != y.len() {
        return false;
    }
    let mut i: usize = 0;
    while i < x.len()
        invariant
            i <= x.len(),
            x.len() == y.len(),
            x@ == encode_utf8(a@),
            y@ == encode_utf8(b@),
            forall|j: int| 0 <= j < i ==> x@[j] == y@[j],
        decreases x.len() - i,
    {
        if x[i] != y[i] {
            return false;
        }
        i = i + 1;
    }
    assert(x@ =~= y@);
    true
}

/// The readers of a byte buffer. Offsets count bytes from the start of the
/// buffer.
pub trait VecUtils {
    /// The bytes that the readers read.
    spec fn bytes(&self) -> Seq<u8>;

    /// Reads `to` bytes starting at `from` as UTF-8 and reverses the order
    /// of the characters.
    fn get_reversed_string(&self, from: usize, to: usize) -> (r: R<String>)
        ensures
            viewed(r) == reversed_string_at(self.bytes(), from as int, to as int),
    ;

    /// Reads `to` bytes starting at `from` as UTF-8.
    fn get_string(&self, from: usize, to: usize) -> (r: R<String>)
        ensures
            viewed(r) == string_at(self.bytes(), from as int, to as int),
    ;

    /// Reads the text that starts at `offset` and ends before the next zero
    /// byte.
    fn get_string_null_terminated(&self, offset: usize) -> (r: R<String>)
        ensures
            viewed(r) == c_string_at(self.bytes(), offset as int),
    ;

    /// Reads a little-endian signed 32-bit number.
    fn get_i32(&self, offset: usize) -> (r: R<i32>)
        ensures
            plain(r) == i32_at(self.bytes(), offset as int),
    ;

    /// Reads a little-endian unsigned 16-bit number.
    fn get_u16(&self, offset: usize) -> (r: R<u16>)
        ensures
            plain(r) == u16_at(self.bytes(), offset as int),
    ;

    /// Reads a little-endian unsigned 32-bit number.
    fn get_u32(&self, offset: usize) -> (r: R<u32>)
        ensures
            plain(r) == u32_at(self.bytes(), offset as int),
    ;

    /// Reads a little-endian IEEE-754 single-precision number and returns
    /// its bit pattern; `f32::from_bits` of it is the number.
    fn get_f32(&self, offset: usize) -> (r: R<u32>)
        ensures
            plain(r) == u32_at(self.bytes(), offset as int),
    ;

    /// Reads one byte.
    fn get_byte(&self, offset: usize) -> (r: R<u8>)
        ensures
            plain(r) == u8_at(self.bytes(), offset as int),
    ;

    /// Reads two bytes as they stand.
    fn get_two_bytes(&self, offset: usize) -> (r: R<[u8; 2]>)
        ensures
            viewed(r) == bytes_at(self.bytes(), offset as int, 2),
    ;

    /// Reads four bytes as they stand.
    fn get_four_bytes(&self, offset: usize) -> (r: R<[u8; 4]>)
        ensures
            viewed(r) == bytes_at(self.bytes(), offset as int, 4),
    ;

    /// Reads every zero-terminated text packed in the buffer, in order.
    fn get_null_terminated_strings(&self) -> (r: R<Vec<String>>)
        ensures
            deep(r) == packed_strings_from(self.bytes(), 0),
    ;
}

impl VecUtils for [u8] {
    open spec fn bytes(&self) -> Seq<u8> {
        self@
    }

    fn get_reversed_string(&self, from: usize, to: usize) -> (r: R<String>) {
        match self.get_string(from, to) {
            Ok(s) => Ok(reverse_chars(s.as_str())),
            Err(e) => Err(e),
        }
    }

    fn get_string(&self, from: usize, to: usize) -> (r: R<String>) {
        if from > self.len() || to > self.len() - from {
            return Err(
                DecodeError::OutOfRange {
                    offset: from as u64,
                    width: to as u64,
                    len: self.len() as u64,
                },
            );
        }
        let window = slice_subrange(self, from, from + to);
        match core::str::from_utf8(window) {
            Ok(s) => Ok(s.to_owned()),
            Err(_) => Err(DecodeError::Encoding { offset: from as u64 }),
        }
    }

    fn get_string_null_terminated(&self, offset: usize) -> (r: R<String>) {
        if offset > self.len() {
            return Err(
                DecodeError::OutOfRange {
                    offset: offset as u64,
                    width: 0,
                    len: self.len() as u64,
                },
            );
        }
        let mut end: usize = offset;
        while end < self.len() && self[end] != 0
            invariant
                offset <= end <= self.len(),
                terminator_from(self@, offset as int) == terminator_from(self@, end as int),
            decreases self.len() - end,
        {
            end = end + 1;
        }
        let window = slice_subrange(self, offset, end);
        match core::str::from_utf8(window) {
            Ok(s) => Ok(s.to_owned()),
            Err(_) => Err(DecodeError::Encoding { offset: offset as u64 }),
        }
    }

    fn get_i32(&self, offset: usize) -> (r: R<i32>) {
        let b = self.get_four_bytes(offset)?;
        Ok(i32_from_le(b))
    }

    fn get_u16(&self, offset: usize) -> (r: R<u16>) {
        let b = self.get_two_bytes(offset)?;
        Ok(b[0] as u16 + 256 * (b[1] as u16))
    }

    fn get_u32(&self, offset: usize) -> (r: R<u32>) {
        let b = self.get_four_bytes(offset)?;
        Ok(u32_from_le(b))
    }

    fn get_f32(&self, offset: usize) -> (r: R<u32>) {
        self.get_u32(offset)
    }

    fn get_byte(&self, offset: usize) -> (r: R<u8>) {
        if offset < self.len() {
            Ok(self[offset])
        } else {
            Err(
                DecodeError::OutOfRange {
                    offset: offset as u64,
                    width: 1,
                    len: self.len() as u64,
                },
            )
        }
    }

    fn get_two_bytes(&self, offset: usize) -> (r: R<[u8; 2]>) {
        if offset <= self.len() && self.len() - offset >= 2 {
            let out = [self[offset], self[offset + 1]];
            assert(out@ =~= self@.subrange(offset as int, offset + 2));
            Ok(out)
        } else {
            Err(
                DecodeError::OutOfRange {
                    offset: offset as u64,
                    width: 2,
                    len: self.len() as u64,
                },
            )
        }
    }

    fn get_four_bytes(&self, offset: usize) -> (r: R<[u8; 4]>) {
        if offset <= self.len() && self.len() - offset >= 4 {
            let out = [self[offset], self[offset + 1], self[offset + 2], self[offset + 3]];
            assert(out@ =~= self@.subrange(offset as int, offset + 4));
            Ok(out)
        } else {
            Err(
                DecodeError::OutOfRange {
                    offset: offset as u64,
                    width: 4,
                    len: self.len() as u64,
                },
            )
        }
    }

    fn get_null_terminated_strings(&self) -> (r: R<Vec<String>>) {
        let mut acc: Vec<String> = Vec::new();
        let mut start: usize = 0;
        let mut i: usize = 0;
        while i < self.len()
            invariant
                start <= i <= self.len(),
                terminator_from(self@, start as int) == terminator_from(self@, i as int),
                packed_strings_from(self@, 0) == match packed_strings_from(self@, start as int) {
                    Ok(rest) => Ok(acc.deep_view() + rest),
                    Err(e) => Err(e),
                },
            decreases self.len() - i,
        {
            if self[i] == 0 {
                let window = slice_subrange(self, start, i);
                match core::str::from_utf8(window) {
                    Ok(s) => {
                        let ghost before = acc.deep_view();
                        acc.push(s.to_owned());
                        proof {
                            let rest = packed_strings_from(self@, i + 1);
                            assert(acc.deep_view() =~= before.push(s@));
                            if rest is Ok {
                                assert(before + (seq![s@] + rest->Ok_0) =~= acc.deep_view()
                                    + rest->Ok_0);
                            }
                        }
                    },
                    Err(_) => {
                        return Err(DecodeError::Encoding { offset: start as u64 });
                    },
                }
                start = i + 1;
            }
            i = i + 1;
        }
        proof {
            assert(acc.deep_view() + Seq::<Seq<char>>::empty() =~= acc.deep_view());
        }
        Ok(acc)
    }
}

impl VecUtils for Vec<u8> {
    open spec fn bytes(&self) -> Seq<u8> {
        self@
    }

    fn get_reversed_string(&self, from: usize, to: usize) -> (r: R<String>) {
        self.as_slice().get_reversed_string(from, to)
    }

    fn get_string(&self, from: usize, to: usize) -> (r: R<String>) {
        self.as_slice().get_string(from, to)
    }

    fn get_string_null_terminated(&self, offset: usize) -> (r: R<String>) {
        self.as_slice().get_string_null_terminated(offset)
    }

    fn get_i32(&self, offset: usize) -> (r: R<i32>) {
        self.as_slice().get_i32(offset)
    }

    fn get_u16(&self, offset: usize) -> (r: R<u16>) {
        self.as_slice().get_u16(offset)
    }

    fn get_u32(&self, offset: usize) -> (r: R<u32>) {
        self.as_slice().get_u32(offset)
    }

    fn get_f32(&self, offset: usize) -> (r: R<u32>) {
        self.as_slice().get_f32(offset)
    }

    fn get_byte(&self, offset: usize) -> (r: R<u8>) {
        self.as_slice().get_byte(offset)
    }

    fn get_two_bytes(&self, offset: usize) -> (r: R<[u8; 2]>) {
        self.as_slice().get_two_bytes(offset)
    }

    fn get_four_bytes(&self, offset: usize) -> (r: R<[u8; 4]>) {
        self.as_slice().get_four_bytes(offset)
    }

    fn get_null_terminated_strings(&self) -> (r: R<Vec<String>>) {
        self.as_slice().get_null_terminated_strings()
    }
}

} // verus!
