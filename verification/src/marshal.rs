//! Text across the boundary: C strings on the way in, fixed-size buffers on
//! the way out.

use vstd::prelude::*;
use vstd::slice::slice_subrange;
use vstd::slice::slice_to_vec;
use vstd::string::StringSliceAdditionalSpecFns;
use vstd::utf8::decode_utf8;
use vstd::utf8::encode_utf8;
use vstd::utf8::encode_utf8_decode_utf8;
use vstd::utf8::encode_utf8_valid_utf8;
use vstd::utf8::valid_utf8;

verus! {

/// Some byte of `bytes` is zero.
pub open spec fn has_nul(bytes: Seq<u8>) -> bool {
    exists|i: int| 0 <= i < bytes.len() && #[trigger] bytes[i] == 0u8
}

/// `text` followed by the terminating zero byte.
pub open spec fn c_string(text: Seq<u8>) -> Seq<u8> {
    text.push(0u8)
}

/// `bytes` can be read as a C string of exactly its own length: it ends in a
/// zero byte and holds no other.
pub open spec fn is_c_string(bytes: Seq<u8>) -> bool {
    &&& bytes.len() > 0
    &&& bytes.last() == 0u8
    &&& !has_nul(bytes.drop_last())
}

/// `bytes` without the zero bytes at its end.
pub open spec fn strip_trailing_nuls(bytes: Seq<u8>) -> Seq<u8>
    decreases bytes.len(),
{
    if bytes.len() > 0 && bytes.last() == 0u8 {
        strip_trailing_nuls(bytes.drop_last())
    } else {
        bytes
    }
}

/// The part of `buffer` that a reported length of `length` covers: the first
/// `length` bytes, or all of them if the buffer is shorter.
pub open spec fn reported(buffer: Seq<u8>, length: nat) -> Seq<u8> {
    if length <= buffer.len() {
        buffer.take(length as int)
    } else {
        buffer
    }
}

/// What the engine wrote into `buffer` when it reports `length` bytes: the
/// reported part, without padding zeros at its end.
pub open spec fn buffer_content(buffer: Seq<u8>, length: nat) -> Seq<u8> {
    strip_trailing_nuls(reported(buffer, length))
}

/// The text that `String::from_utf8_lossy` makes of `bytes`.
pub uninterp spec fn utf8_lossy(bytes: Seq<u8>) -> Seq<char>;

/// `text` is what `bytes` read as UTF-8: what they encode where they are valid,
/// and in any case what [`utf8_lossy`] names.
pub open spec fn is_text_of(text: Seq<char>, bytes: Seq<u8>) -> bool {
    &&& text == utf8_lossy(bytes)
    &&& valid_utf8(bytes) ==> text == decode_utf8(bytes)
}

/// A sequence of `len` zero bytes.
pub open spec fn zeros(len: nat) -> Seq<u8> {
    Seq::new(len, |i: int| 0u8)
}

/// Whether the UTF-8 encoding of `text` holds a zero byte.
pub fn contains_nul(text: &str) -> (found: bool)
    ensures
        found == has_nul(text.spec_bytes()),
{
    let bytes = text.as_bytes();
    let mut i: usize = 0;
    while i < bytes.len()
        invariant
            i <= bytes.len(),
            bytes@ == text.spec_bytes(),
            forall|j: int| 0 <= j < i ==> bytes@[j] != 0u8,
        decreases bytes.len() - i,
    {
        if bytes[i] == 0 {
            return true;
        }
        i += 1;
    }
    false
}

/// `text` as a C string: its UTF-8 bytes and a terminating zero. There is none
/// if `text` itself holds a zero byte, which would end the string early.
pub fn to_c_string(text: &str) -> (out: Option<Vec<u8>>)
    ensures
        out is None <==> has_nul(text.spec_bytes()),
        out matches Some(bytes) ==> bytes@ == c_string(text.spec_bytes()) && is_c_string(bytes@),
{
    if contains_nul(text) {
        None
    } else {
        let mut bytes = slice_to_vec(text.as_bytes());
        bytes.push(0u8);
        Some(bytes)
    }
}

/// A buffer of `len` zero bytes, to lend to the engine.
pub fn zeroed_buffer(len: usize) -> (buffer: Vec<u8>)
    ensures
        buffer@ == zeros(len as nat),
{
    let mut buffer: Vec<u8> = Vec::new();
    let mut i: usize = 0;
    while i < len
        invariant
            i <= len,
            buffer@ == zeros(i as nat),
        decreases len - i,
    {
        buffer.push(0u8);
        i += 1;
    }
    buffer
}

/// The bytes that the engine wrote into `buffer`, given the length it reports.
pub fn read_buffer(buffer: &[u8], length: usize) -> (content: Vec<u8>)
    ensures
        content@ == buffer_content(buffer@, length as nat),
{
    let covered: usize = if length <= buffer.len() {
        length
    } else {
        buffer.len()
    };
    let mut end: usize = covered;
    while end > 0 && buffer[end - 1] == 0
        invariant
            end <= covered <= buffer.len(),
            strip_trailing_nuls(buffer@.take(end as int)) == strip_trailing_nuls(
                buffer@.take(covered as int),
            ),
        decreases end,
    {
        assert(buffer@.take(end as int).drop_last() == buffer@.take(end - 1));
        end -= 1;
    }
    assert(buffer@.take(covered as int) == reported(buffer@, length as nat));
    slice_to_vec(slice_subrange(buffer, 0, end))
}

/// Calls `String::from_utf8_lossy` and makes the result an owned string.
///
/// This contract is not proved. It says what the documentation of that
/// function says: the result depends on the bytes alone, which is why
/// [`utf8_lossy`] can name it; and bytes that are valid UTF-8 give the text
/// that they encode.
#[verifier::external_body]
fn lossy_string(bytes: &[u8]) -> (text: String)
    ensures
        text@ == utf8_lossy(bytes@),
        valid_utf8(bytes@) ==> text@ == decode_utf8(bytes@),
{
    String::from_utf8_lossy(bytes).into_owned()
}

/// The text that the engine wrote into `buffer`, given the length it reports.
/// Bytes that are not UTF-8 come out as replacement characters.
pub fn read_text(buffer: &[u8], length: usize) -> (text: String)
    ensures
        is_text_of(text@, buffer_content(buffer@, length as nat)),
{
    let content = read_buffer(buffer, length);
    lossy_string(content.as_slice())
}

/// Stripping leaves a prefix that does not end in zero, and takes away zero
/// bytes only. By [`lemma_strip_unique`] nothing else does.
pub proof fn lemma_strip_trailing_nuls(bytes: Seq<u8>)
    ensures
        strip_trailing_nuls(bytes).len() <= bytes.len(),
        strip_trailing_nuls(bytes) == bytes.take(strip_trailing_nuls(bytes).len() as int),
        strip_trailing_nuls(bytes).len() > 0 ==> strip_trailing_nuls(bytes).last() != 0u8,
        forall|i: int| strip_trailing_nuls(bytes).len() <= i < bytes.len() ==> bytes[i] == 0u8,
    decreases bytes.len(),
{
    if bytes.len() > 0 && bytes.last() == 0u8 {
        lemma_strip_trailing_nuls(bytes.drop_last());
        let kept = strip_trailing_nuls(bytes.drop_last());
        assert forall|i: int| kept.len() <= i < bytes.len() implies bytes[i] == 0u8 by {
            if i < bytes.len() - 1 {
                assert(bytes.drop_last()[i] == bytes[i]);
            }
        }
    }
}

/// A prefix of `bytes` that does not end in zero, and after which `bytes` is
/// all zeros, is what stripping leaves.
pub proof fn lemma_strip_unique(bytes: Seq<u8>, kept: int)
    requires
        0 <= kept <= bytes.len(),
        kept > 0 ==> bytes[kept - 1] != 0u8,
        forall|i: int| kept <= i < bytes.len() ==> bytes[i] == 0u8,
    ensures
        strip_trailing_nuls(bytes) == bytes.take(kept),
    decreases bytes.len(),
{
    if bytes.len() > 0 && bytes.last() == 0u8 {
        lemma_strip_unique(bytes.drop_last(), kept);
    }
}

/// Stripping twice is stripping once.
pub proof fn lemma_strip_idempotent(bytes: Seq<u8>)
    ensures
        strip_trailing_nuls(strip_trailing_nuls(bytes)) == strip_trailing_nuls(bytes),
{
    lemma_strip_trailing_nuls(bytes);
}

/// What lies in a buffer past the reported length has no part in its content:
/// two buffers that agree on the reported part have the same content, and so
/// the same text.
pub proof fn lemma_content_ignores_unreported_bytes(first: Seq<u8>, second: Seq<u8>, length: nat)
    requires
        reported(first, length) == reported(second, length),
    ensures
        buffer_content(first, length) == buffer_content(second, length),
        forall|a: Seq<char>, b: Seq<char>|
            is_text_of(a, buffer_content(first, length)) && is_text_of(
                b,
                buffer_content(second, length),
            ) ==> a == b,
{
}

/// A reported length of zero leaves no content, whatever the buffer holds.
pub proof fn lemma_zero_length_is_empty(buffer: Seq<u8>)
    ensures
        buffer_content(buffer, 0) == Seq::<u8>::empty(),
{
}

/// Content that is the UTF-8 encoding of some text reads back as that text.
pub proof fn lemma_text_of_encoding(text: Seq<char>, written: Seq<char>)
    requires
        is_text_of(text, encode_utf8(written)),
    ensures
        text == written,
{
    encode_utf8_valid_utf8(written);
    encode_utf8_decode_utf8(written);
}

/// Empty content reads as the empty text.
pub proof fn lemma_empty_text()
    ensures
        forall|text: Seq<char>| is_text_of(text, Seq::<u8>::empty()) ==> text == Seq::<char>::empty(),
{
    assert forall|text: Seq<char>| is_text_of(text, Seq::<u8>::empty()) implies text == Seq::<
        char,
    >::empty() by {
        lemma_text_of_encoding(text, Seq::<char>::empty());
    }
}

/// Where the engine wrote `length` bytes into a zeroed buffer, the content is
/// the same whether or not the reported length is consulted.
pub proof fn lemma_content_of_zero_padded_buffer(buffer: Seq<u8>, length: nat)
    requires
        forall|i: int| length <= i < buffer.len() ==> buffer[i] == 0u8,
    ensures
        buffer_content(buffer, length) == strip_trailing_nuls(buffer),
{
    let part = reported(buffer, length);
    lemma_strip_trailing_nuls(part);
    let kept = strip_trailing_nuls(part).len() as int;
    assert forall|i: int| kept <= i < buffer.len() implies buffer[i] == 0u8 by {
        if i < part.len() {
            assert(part[i] == 0u8);
        }
    }
    lemma_strip_unique(buffer, kept);
}

} // verus!
