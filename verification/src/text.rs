//! UTF-8 text by byte offsets: character ranges, lines, slices and joins.

use vstd::prelude::*;
use vstd::string::*;
use vstd::utf8::*;

verus! {

/// The byte that ends a line.
pub const LINE_FEED: u8 = 0x0a;

/// The UTF-8 bytes of a text.
pub open spec fn utf8(text: Seq<char>) -> Seq<u8> {
    encode_utf8(text)
}

/// The text that the bytes of `text` from offset `from` up to offset `to`
/// spell.
pub open spec fn text_between(text: Seq<char>, from: int, to: int) -> Seq<char> {
    decode_utf8(utf8(text).subrange(from, to))
}

/// True when `[from, to)` is a range of whole characters inside `bytes`.
pub open spec fn is_char_range(bytes: Seq<u8>, from: int, to: int) -> bool {
    &&& 0 <= from <= to <= bytes.len()
    &&& is_char_boundary(bytes, from)
    &&& is_char_boundary(bytes, to)
}

/// True when a line starts at offset `index` of `bytes`: at the very start,
/// or right behind a line feed.
pub open spec fn is_line_start(bytes: Seq<u8>, index: int) -> bool {
    index == 0 || (0 < index <= bytes.len() && bytes[index - 1] == LINE_FEED)
}

/// The offset behind the first line feed at or after `from`, or the length of
/// `bytes` where none follows.
pub open spec fn line_end(bytes: Seq<u8>, from: int) -> int
    decreases bytes.len() - from,
{
    if from < 0 || from >= bytes.len() {
        bytes.len() as int
    } else if bytes[from] == LINE_FEED {
        from + 1
    } else {
        line_end(bytes, from + 1)
    }
}

/// The line that starts at offset `from`, its line feed included.
pub open spec fn line_at(bytes: Seq<u8>, from: int) -> Seq<u8> {
    bytes.subrange(from, line_end(bytes, from))
}

/// The first line of `bytes`, its line feed included.
pub open spec fn first_line(bytes: Seq<u8>) -> Seq<u8> {
    line_at(bytes, 0)
}

/// A character boundary of a text is also one of each prefix of the text that
/// reaches it.
pub proof fn lemma_boundary_in_prefix(bytes: Seq<u8>, from: int, to: int)
    requires
        valid_utf8(bytes),
        is_char_range(bytes, from, to),
    ensures
        valid_utf8(bytes.subrange(0, to)),
        is_char_boundary(bytes.subrange(0, to), from),
{
    let head = bytes.subrange(0, to);
    valid_utf8_split(bytes, to);
    if from == to {
        is_char_boundary_start_end_of_seq(head);
    } else {
        is_char_boundary_iff_not_is_continuation_byte(bytes, from);
        is_char_boundary_iff_not_is_continuation_byte(head, from);
    }
}

/// Inside a range of whole characters, the character boundaries of the part
/// are those of the whole text.
pub proof fn lemma_boundary_in_part(bytes: Seq<u8>, from: int, to: int, index: int)
    requires
        valid_utf8(bytes),
        is_char_range(bytes, from, to),
        from <= index <= to,
    ensures
        valid_utf8(bytes.subrange(from, to)),
        is_char_boundary(bytes.subrange(from, to), index - from)
            == is_char_boundary(bytes, index),
{
    let head = bytes.subrange(0, to);
    let part = bytes.subrange(from, to);
    lemma_boundary_in_prefix(bytes, from, to);
    valid_utf8_split(head, from);
    assert(head.subrange(from, to) == part);
    if index == to {
        is_char_boundary_start_end_of_seq(part);
    } else {
        is_char_boundary_iff_not_is_continuation_byte(bytes, index);
        is_char_boundary_iff_not_is_continuation_byte(part, index - from);
    }
}

/// Cutting a text at character boundaries and spelling the part out again
/// gives the bytes that were cut.
pub proof fn lemma_utf8_of_text_between(text: Seq<char>, from: int, to: int)
    requires
        is_char_range(utf8(text), from, to),
    ensures
        valid_utf8(utf8(text).subrange(from, to)),
        utf8(text_between(text, from, to)) == utf8(text).subrange(from, to),
{
    let bytes = utf8(text);
    encode_utf8_valid_utf8(text);
    lemma_boundary_in_part(bytes, from, to, from);
    decode_utf8_encode_utf8(bytes.subrange(from, to));
}

/// A line ends behind where it starts, inside the text.
pub proof fn lemma_line_end_bounds(bytes: Seq<u8>, from: int)
    requires
        0 <= from <= bytes.len(),
    ensures
        from <= line_end(bytes, from) <= bytes.len(),
        from < bytes.len() ==> from < line_end(bytes, from),
    decreases bytes.len() - from,
{
    if from < bytes.len() && bytes[from] != LINE_FEED {
        lemma_line_end_bounds(bytes, from + 1);
    }
}

/// A part of a text that is cut at a line end keeps the lines of the text:
/// where the part `[start, end)` ends at the end of the text or behind a line
/// feed, the line at offset `from` of the text ends inside the part, at the
/// same place.
pub proof fn lemma_line_end_in_part(bytes: Seq<u8>, start: int, end: int, from: int)
    requires
        0 <= start <= from < end <= bytes.len(),
        end == bytes.len() || bytes[end - 1] == LINE_FEED,
    ensures
        line_end(bytes.subrange(start, end), from - start) == line_end(bytes, from) - start,
        line_end(bytes, from) <= end,
    decreases end - from,
{
    let part = bytes.subrange(start, end);
    assert(part[from - start] == bytes[from]);
    if bytes[from] != LINE_FEED {
        if from + 1 < end {
            lemma_line_end_in_part(bytes, start, end, from + 1);
        } else {
            assert(line_end(bytes, from + 1) == bytes.len());
            assert(line_end(part, from - start + 1) == part.len());
        }
    }
}

/// The length of `text` in bytes.
pub(crate) fn byte_len(text: &str) -> (len: usize)
    ensures
        len == utf8(text@).len(),
{
    text.as_bytes().len()
}

/// Tells whether `[from, to)` is a range of whole characters of `text`.
pub(crate) fn check_char_range(text: &str, from: usize, to: usize) -> (ok: bool)
    ensures
        ok == is_char_range(utf8(text@), from as int, to as int),
{
    broadcast use encode_utf8_valid_utf8;

    from <= to && text.is_char_boundary(from) && text.is_char_boundary(to)
}

/// Tells whether a line starts at the byte offset `index` of `text`.
pub(crate) fn check_line_start(text: &str, index: usize) -> (ok: bool)
    ensures
        ok == is_line_start(utf8(text@), index as int),
{
    let bytes = text.as_bytes();
    index == 0 || (index <= bytes.len() && bytes[index - 1] == LINE_FEED)
}

/// The part of `text` between the byte offsets `from` and `to`.
pub(crate) fn slice(text: &str, from: usize, to: usize) -> (part: &str)
    requires
        is_char_range(utf8(text@), from as int, to as int),
    ensures
        utf8(part@) == utf8(text@).subrange(from as int, to as int),
        part@ == text_between(text@, from as int, to as int),
{
    broadcast use encode_utf8_valid_utf8, encode_utf8_decode_utf8;

    let ghost bytes = text.spec_bytes();
    let (head, _) = text.split_at(to);
    proof {
        lemma_boundary_in_prefix(bytes, from as int, to as int);
    }
    let (_, part) = head.split_at(from);
    assert(head.spec_bytes().subrange(from as int, to as int)
        == bytes.subrange(from as int, to as int));
    part
}

/// `head`, then `tail`, as one text.
pub(crate) fn join2(head: &str, tail: &str) -> (joined: String)
    ensures
        joined@ == head@ + tail@,
{
    let mut joined = head.to_owned();
    joined.append(tail);
    joined
}

/// `head`, then `middle`, then `tail`, as one text.
pub(crate) fn join3(head: &str, middle: &str, tail: &str) -> (joined: String)
    ensures
        joined@ == head@ + middle@ + tail@,
{
    let mut joined = head.to_owned();
    joined.append(middle);
    joined.append(tail);
    joined
}

} // verus!
