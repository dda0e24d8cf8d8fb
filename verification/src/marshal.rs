//! Strings across the native boundary.
//!
//! Outbound, a host string becomes its UTF-8 bytes followed by one zero byte;
//! a string that already holds a zero byte cannot be sent. Inbound, a buffer
//! is read up to its first zero byte and decoded as UTF-8, with malformed
//! input replaced rather than refused; a null pointer reads as the empty
//! string.

use vstd::prelude::*;
use vstd::slice::*;
use vstd::utf8::*;

verus! {

/// A host string holds a zero byte and cannot be sent to the native side.
#[derive(Clone, Copy, Debug, PartialEq, Eq, Structural)]
pub struct EncodingError {
    /// Offset of the first zero byte in the string's UTF-8 bytes.
    pub nul_position: usize,
}

/// Index of the first zero byte at or after `start`, or the length of `bytes`
/// where there is none.
pub open spec fn first_nul_from(bytes: Seq<u8>, start: int) -> int
    decreases bytes.len() - start,
{
    if start < 0 || start >= bytes.len() {
        bytes.len() as int
    } else if bytes[start] == 0 {
        start
    } else {
        first_nul_from(bytes, start + 1)
    }
}

/// Index of the first zero byte of `bytes`, or its length where there is none.
pub open spec fn first_nul(bytes: Seq<u8>) -> int {
    first_nul_from(bytes, 0)
}

/// No byte of `bytes` is zero.
pub open spec fn nul_free(bytes: Seq<u8>) -> bool {
    forall|i: int| 0 <= i < bytes.len() ==> bytes[i] != 0
}

/// A host string can be sent: its UTF-8 bytes hold no zero byte.
pub open spec fn encodable(text: Seq<char>) -> bool {
    nul_free(encode_utf8(text))
}

/// The buffer that carries `text` to the native side.
pub open spec fn c_encoding(text: Seq<char>) -> Seq<u8> {
    encode_utf8(text).push(0u8)
}

/// A buffer that the native side can read as a string: it ends in a zero
/// byte and holds no other.
pub open spec fn terminated(buffer: Seq<u8>) -> bool {
    buffer.len() > 0 && first_nul(buffer) == buffer.len() - 1
}

/// The error that sending `text` meets, if any.
pub open spec fn encoding_failure(text: Seq<char>) -> Option<EncodingError> {
    if encodable(text) {
        None
    } else {
        Some(EncodingError { nul_position: first_nul(encode_utf8(text)) as usize })
    }
}

/// What `String::from_utf8_lossy` makes of bytes that are not valid UTF-8.
pub uninterp spec fn lossy_text(bytes: Seq<u8>) -> Seq<char>;

/// The host string that a run of bytes without terminator reads as.
pub open spec fn text_of(bytes: Seq<u8>) -> Seq<char> {
    if valid_utf8(bytes) {
        decode_utf8(bytes)
    } else {
        lossy_text(bytes)
    }
}

/// The host string that a buffer from the native side reads as.
pub open spec fn c_decoding(buffer: Seq<u8>) -> Seq<char> {
    text_of(buffer.take(first_nul(buffer)))
}

/// The host string that a string field of a native record reads as; a null
/// pointer is `None`.
pub open spec fn field_text(field: Option<Vec<u8>>) -> Seq<char> {
    match field {
        None => Seq::<char>::empty(),
        Some(buffer) => c_decoding(buffer@),
    }
}

/// `first_nul_from` stays within the sequence, skips no zero byte and stops
/// on one unless it reaches the end.
pub proof fn lemma_first_nul_from(bytes: Seq<u8>, start: int)
    requires
        0 <= start <= bytes.len(),
    ensures
        start <= first_nul_from(bytes, start) <= bytes.len(),
        forall|j: int| start <= j < first_nul_from(bytes, start) ==> bytes[j] != 0,
        first_nul_from(bytes, start) < bytes.len() ==> bytes[first_nul_from(bytes, start)] == 0,
    decreases bytes.len() - start,
{
    if start < bytes.len() && bytes[start] != 0 {
        lemma_first_nul_from(bytes, start + 1);
    }
}

/// An index that no zero byte precedes, and that holds one or is the end, is
/// the index that `first_nul_from` finds.
pub proof fn lemma_first_nul_from_is(bytes: Seq<u8>, start: int, n: int)
    requires
        0 <= start <= n <= bytes.len(),
        forall|j: int| start <= j < n ==> bytes[j] != 0,
        n == bytes.len() || bytes[n] == 0,
    ensures
        first_nul_from(bytes, start) == n,
    decreases n - start,
{
    if start < n {
        lemma_first_nul_from_is(bytes, start + 1, n);
    }
}

/// A sequence is free of zero bytes exactly if `first_nul` runs to its end.
pub proof fn lemma_nul_free_iff(bytes: Seq<u8>)
    ensures
        nul_free(bytes) <==> first_nul(bytes) == bytes.len(),
        0 <= first_nul(bytes) <= bytes.len(),
{
    lemma_first_nul_from(bytes, 0);
}

/// A byte with one of the marker bits of a multi-byte sequence set is not
/// zero.
proof fn lemma_marked_byte_not_zero(x: u8)
    by (bit_vector)
    ensures
        0x80u8 | x != 0,
        0xC0u8 | x != 0,
        0xE0u8 | x != 0,
        0xF0u8 | x != 0,
{
}

/// The low seven bits of a value below 128 are zero only for zero.
proof fn lemma_single_byte_zero(v: u32)
    by (bit_vector)
    requires
        v <= 0x7F,
    ensures
        ((v & 0x7F) as u8 == 0) <==> v == 0,
{
}

/// The UTF-8 bytes of one character hold a zero byte exactly if it is the
/// null character.
pub proof fn lemma_char_nul_free(c: char)
    ensures
        nul_free(encode_scalar(c as u32)) <==> c != '\0',
{
    let v = c as u32;
    let bytes = encode_scalar(v);
    lemma_marked_byte_not_zero(((v >> 6) & 0x1F) as u8);
    lemma_marked_byte_not_zero(((v >> 12) & 0x0F) as u8);
    lemma_marked_byte_not_zero(((v >> 18) & 0x7) as u8);
    lemma_marked_byte_not_zero((v & 0x3F) as u8);
    lemma_marked_byte_not_zero(((v >> 6) & 0x3F) as u8);
    lemma_marked_byte_not_zero(((v >> 12) & 0x3F) as u8);
    if has_width_1_encoding(v) {
        lemma_single_byte_zero(v);
        assert(bytes.len() == 1 && bytes[0] == (v & 0x7F) as u8);
        if c != '\0' {
            assert(nul_free(bytes));
        } else {
            assert(bytes[0] == 0);
        }
    } else {
        assert(v != 0);
        assert(nul_free(bytes));
    }
}

/// A run of bytes is free of zero bytes exactly if both of its parts are.
pub proof fn lemma_nul_free_concat(a: Seq<u8>, b: Seq<u8>)
    ensures
        nul_free(a + b) <==> nul_free(a) && nul_free(b),
{
    if nul_free(a + b) {
        assert forall|i: int| 0 <= i < a.len() implies a[i] != 0 by {
            assert((a + b)[i] == a[i]);
        }
        assert forall|i: int| 0 <= i < b.len() implies b[i] != 0 by {
            assert((a + b)[a.len() + i] == b[i]);
        }
    }
}

/// A string can be sent exactly if none of its characters is the null
/// character.
pub proof fn lemma_encodable_iff_no_nul_char(text: Seq<char>)
    ensures
        encodable(text) <==> forall|i: int| 0 <= i < text.len() ==> text[i] != '\0',
    decreases text.len(),
{
    if text.len() > 0 {
        let rest = text.drop_first();
        lemma_encodable_iff_no_nul_char(rest);
        lemma_char_nul_free(text[0]);
        lemma_nul_free_concat(encode_scalar(text[0] as u32), encode_utf8(rest));
        if encodable(text) {
            assert forall|i: int| 0 <= i < text.len() implies text[i] != '\0' by {
                if i > 0 {
                    assert(rest[i - 1] == text[i]);
                }
            }
        }
        if forall|i: int| 0 <= i < text.len() ==> text[i] != '\0' {
            assert forall|i: int| 0 <= i < rest.len() implies rest[i] != '\0' by {
                assert(rest[i] == text[i + 1]);
            }
        }
    }
}

/// The buffer of a string that can be sent holds exactly one zero byte, the
/// last one: nothing of the string is cut off.
pub proof fn lemma_encoding_terminated(text: Seq<char>)
    requires
        encodable(text),
    ensures
        c_encoding(text).len() == encode_utf8(text).len() + 1,
        c_encoding(text).last() == 0,
        first_nul(c_encoding(text)) == encode_utf8(text).len(),
        c_encoding(text).take(first_nul(c_encoding(text))) == encode_utf8(text),
        terminated(c_encoding(text)),
{
    let payload = encode_utf8(text);
    lemma_first_nul_from_is(c_encoding(text), 0, payload.len() as int);
    assert(c_encoding(text).take(payload.len() as int) =~= payload);
}

/// Sending a string and reading the buffer back gives the string again.
pub proof fn lemma_encode_then_decode(text: Seq<char>)
    requires
        encodable(text),
    ensures
        c_decoding(c_encoding(text)) == text,
{
    lemma_encoding_terminated(text);
    encode_utf8_valid_utf8(text);
    encode_utf8_decode_utf8(text);
}

/// Finds the first zero byte of `bytes`.
pub fn nul_position(bytes: &[u8]) -> (n: usize)
    ensures
        n == first_nul(bytes@),
        n <= bytes@.len(),
{
    let mut i: usize = 0;
    while i < bytes.len() && bytes[i] != 0
        invariant
            i <= bytes@.len(),
            first_nul_from(bytes@, i as int) == first_nul(bytes@),
        decreases bytes@.len() - i,
    {
        i += 1;
    }
    i
}

/// Lays a host string out for the native side: its UTF-8 bytes and a
/// terminating zero byte. A string that holds a zero byte is refused, with
/// the offset of the first one.
pub fn encode_str(text: &str) -> (r: Result<Vec<u8>, EncodingError>)
    ensures
        match encoding_failure(text@) {
            Some(e) => r == Err::<Vec<u8>, EncodingError>(e),
            None => r is Ok && r->Ok_0@ == c_encoding(text@),
        },
{
    let bytes = text.as_bytes();
    let n = nul_position(bytes);
    proof {
        lemma_nul_free_iff(bytes@);
    }
    if n < bytes.len() {
        Err(EncodingError { nul_position: n })
    } else {
        let mut buffer = slice_to_vec(bytes);
        buffer.push(0u8);
        Ok(buffer)
    }
}

/// `String::from_utf8_lossy`, made an owned string: on valid UTF-8 the string
/// that those bytes encode, otherwise the string with each malformed part
/// replaced, which is only named here.
#[verifier::external_body]
fn utf8_lossy(bytes: &[u8]) -> (text: String)
    ensures
        valid_utf8(bytes@) ==> text@ == decode_utf8(bytes@),
        !valid_utf8(bytes@) ==> text@ == lossy_text(bytes@),
{
    String::from_utf8_lossy(bytes).into_owned()
}

/// Reads a buffer of the native side as a host string: the bytes before the
/// first zero byte, decoded as UTF-8 with malformed parts replaced.
pub fn decode_bytes(buffer: &[u8]) -> (text: String)
    ensures
        text@ == c_decoding(buffer@),
{
    let n = nul_position(buffer);
    let payload = slice_subrange(buffer, 0, n);
    assert(payload@ =~= buffer@.take(n as int));
    utf8_lossy(payload)
}

/// Reads a string field of a native record; a null pointer reads as the
/// empty string.
pub fn decode_field(field: &Option<Vec<u8>>) -> (text: String)
    ensures
        text@ == field_text(*field),
{
    match field {
        None => String::new(),
        Some(buffer) => decode_bytes(buffer.as_slice()),
    }
}

} // verus!
