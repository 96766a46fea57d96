use vstd::prelude::*;
use vstd::utf8::{
    decode_utf8, encode_utf8, encode_utf8_decode_utf8, encode_utf8_valid_utf8, is_ascii_chars,
    is_ascii_chars_encode_utf8, valid_utf8,
};

verus! {

/// Unsigned little-endian value of the two bytes at `at`.
pub open spec fn le_u16(b: Seq<u8>, at: int) -> int {
    b[at] + 256 * b[at + 1]
}

/// Signed (two's complement) little-endian value of the two bytes at `at`.
pub open spec fn le_i16(b: Seq<u8>, at: int) -> int {
    let u = le_u16(b, at);
    if u < 0x8000 { u } else { u - 0x1_0000 }
}

/// Unsigned little-endian value of the four bytes at `at`.
pub open spec fn le_u32(b: Seq<u8>, at: int) -> int {
    b[at] + 0x100 * b[at + 1] + 0x1_0000 * b[at + 2] + 0x100_0000 * b[at + 3]
}

/// Unsigned little-endian value of the eight bytes at `at`.
pub open spec fn le_u64(b: Seq<u8>, at: int) -> int {
    le_u32(b, at) + 0x1_0000_0000 * le_u32(b, at + 4)
}

/// Signed (two's complement) little-endian value of the eight bytes at `at`.
pub open spec fn le_i64(b: Seq<u8>, at: int) -> int {
    let u = le_u64(b, at);
    if u < 0x8000_0000_0000_0000 { u } else { u - 0x1_0000_0000_0000_0000 }
}

pub fn read_u16(buf: &[u8], at: usize) -> (v: u16)
    requires
        at + 2 <= buf.len(),
    ensures
        v == le_u16(buf@, at as int),
{
    let lo = buf[at] as u16;
    let hi = buf[at + 1] as u16;
    lo + hi * 256
}

pub fn read_i16(buf: &[u8], at: usize) -> (v: i16)
    requires
        at + 2 <= buf.len(),
    ensures
        v == le_i16(buf@, at as int),
{
    let u = read_u16(buf, at);
    if u < 0x8000 {
        u as i16
    } else {
        ((u as i32) - 0x1_0000) as i16
    }
}

pub fn read_u32(buf: &[u8], at: usize) -> (v: u32)
    requires
        at + 4 <= buf.len(),
    ensures
        v == le_u32(buf@, at as int),
{
    let b0 = buf[at] as u32;
    let b1 = buf[at + 1] as u32;
    let b2 = buf[at + 2] as u32;
    let b3 = buf[at + 3] as u32;
    b0 + b1 * 0x100 + b2 * 0x1_0000 + b3 * 0x100_0000
}

pub fn read_u64(buf: &[u8], at: usize) -> (v: u64)
    requires
        at + 8 <= buf.len(),
    ensures
        v == le_u64(buf@, at as int),
{
    let lo = read_u32(buf, at) as u64;
    let hi = read_u32(buf, at + 4) as u64;
    lo + hi * 0x1_0000_0000
}

pub fn read_i64(buf: &[u8], at: usize) -> (v: i64)
    requires
        at + 8 <= buf.len(),
    ensures
        v == le_i64(buf@, at as int),
{
    let u = read_u64(buf, at);
    if u < 0x8000_0000_0000_0000 {
        u as i64
    } else {
        ((u - 0x8000_0000_0000_0000) as i64) + i64::MIN
    }
}

/// Length of the text held in a fixed-width field: the bytes before the
/// first NUL byte, or the whole field when it holds none.
pub open spec fn text_len(field: Seq<u8>) -> nat
    decreases field.len(),
{
    if field.len() == 0 {
        0
    } else if field[0] == 0 {
        0
    } else {
        1 + text_len(field.drop_first())
    }
}

/// The bytes of the text held in a fixed-width field.
pub open spec fn text_bytes(field: Seq<u8>) -> Seq<u8> {
    field.take(text_len(field) as int)
}

/// The text that lossy UTF-8 decoding makes of `bytes`: their decoding when
/// they are valid UTF-8, else what `String::from_utf8_lossy` makes of them.
pub open spec fn lossy_text(bytes: Seq<u8>) -> Seq<char> {
    if valid_utf8(bytes) {
        decode_utf8(bytes)
    } else {
        utf8_lossy(bytes)
    }
}

/// The text of the `width`-byte field at `at`, decoded as `read_text` does.
pub open spec fn text_at(b: Seq<u8>, at: int, width: int) -> Seq<char> {
    lossy_text(text_bytes(b.subrange(at, at + width)))
}

/// ASCII bytes are valid UTF-8 and decode to the characters of the same
/// codes.
pub proof fn lemma_ascii_text(bytes: Seq<u8>)
    requires
        forall|i: int| 0 <= i < bytes.len() ==> #[trigger] bytes[i] < 128,
    ensures
        valid_utf8(bytes),
        decode_utf8(bytes) == bytes.map_values(|b: u8| b as char),
        lossy_text(bytes) == bytes.map_values(|b: u8| b as char),
{
    let chars = bytes.map_values(|b: u8| b as char);
    assert forall|i: int| 0 <= i < chars.len() implies '\0' <= #[trigger] chars[i] <= '\u{7f}' by {
        assert(bytes[i] < 128);
    }
    assert(is_ascii_chars(chars));
    is_ascii_chars_encode_utf8(chars);
    assert forall|i: int| 0 <= i < bytes.len() implies #[trigger] encode_utf8(chars)[i] == bytes[i] by {
        assert(chars[i] as u8 == encode_utf8(chars)[i]);
    }
    assert(encode_utf8(chars) =~= bytes);
    encode_utf8_valid_utf8(chars);
    encode_utf8_decode_utf8(chars);
}

/// The text that `String::from_utf8_lossy` makes of `bytes`.
pub uninterp spec fn utf8_lossy(bytes: Seq<u8>) -> Seq<char>;

/// Calls `String::from_utf8_lossy` and takes ownership of its text.
/// Trusted: the text is `utf8_lossy(bytes)`, a function of the bytes alone;
/// std documents that valid UTF-8 comes back unchanged, so for such bytes it
/// is their decoding, and that each invalid sequence becomes one U+FFFD, so
/// the text has no more characters than there are bytes and holds a NUL
/// only where a byte is 0. Which sequences count as one invalid sequence is
/// left unsaid.
#[verifier::external_body]
fn decode_utf8_lossy(bytes: &[u8]) -> (text: String)
    ensures
        text@ == utf8_lossy(bytes@),
        valid_utf8(bytes@) ==> text@ == decode_utf8(bytes@),
        text@.len() <= bytes@.len(),
        (forall|i: int| 0 <= i < bytes@.len() ==> bytes@[i] != 0) ==> (forall|j: int|
            0 <= j < text@.len() ==> text@[j] != '\0'),
{
    String::from_utf8_lossy(bytes).into_owned()
}

/// A field's text length is the index of its first NUL byte, or its width.
pub proof fn lemma_text_len(field: Seq<u8>, k: int)
    requires
        0 <= k <= field.len(),
        forall|j: int| 0 <= j < k ==> field[j] != 0,
        k == field.len() || field[k] == 0,
    ensures
        text_len(field) == k,
    decreases k,
{
    if k > 0 {
        let rest = field.drop_first();
        assert forall|j: int| 0 <= j < k - 1 implies rest[j] != 0 by {
            assert(rest[j] == field[j + 1]);
        }
        if k < field.len() {
            assert(rest[k - 1] == field[k]);
        }
        lemma_text_len(rest, k - 1);
    }
}

/// The text of a NUL-padded field of `width` bytes at `at`: the bytes up to
/// the first NUL (all of them when there is none), decoded as UTF-8 with
/// invalid sequences replaced.
pub fn read_text(buf: &[u8], at: usize, width: usize) -> (text: String)
    requires
        at + width <= buf.len(),
    ensures
        text@ == text_at(buf@, at as int, width as int),
        text@.len() <= width,
        forall|j: int| 0 <= j < text@.len() ==> text@[j] != '\0',
{
    let ghost field = buf@.subrange(at as int, at + width);
    let mut end: usize = 0;
    while end < width && buf[at + end] != 0
        invariant
            end <= width,
            at + width <= buf.len(),
            field == buf@.subrange(at as int, at + width),
            forall|j: int| 0 <= j < end ==> field[j] != 0,
        decreases width - end,
    {
        end = end + 1;
    }
    proof {
        lemma_text_len(field, end as int);
    }
    let bytes = &buf[at..at + end];
    assert(bytes@ == text_bytes(field));
    let text = decode_utf8_lossy(bytes);
    assert(text@ == lossy_text(bytes@));
    text
}

} // verus!
