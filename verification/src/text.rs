//! Decoding of fixed-length text fields coming from the hardware interface.
//!
//! Such a field is a byte buffer holding a null-terminated UTF-8 string.
//! Firmware is trusted to supply valid text, so a buffer without a
//! terminator, or whose bytes before the terminator are not valid UTF-8, is
//! reported as an error, which the caller treats as fatal.

use vstd::prelude::*;
use vstd::utf8::{decode_utf8, valid_utf8};

verus! {

/// Why a raw text field could not be decoded.
#[derive(Clone, Copy, Debug, PartialEq, Eq, Structural)]
pub enum TextError {
    /// No null terminator anywhere in the buffer.
    MissingTerminator,
    /// The bytes before the terminator are not valid UTF-8.
    InvalidUtf8,
}

/// Whether the buffer holds a null terminator at all.
pub open spec fn has_terminator(s: Seq<u8>) -> bool {
    exists|i: int| 0 <= i < s.len() && s[i] == 0
}

/// Position of the first null byte; the buffer's length when there is none.
pub open spec fn terminator_pos(s: Seq<u8>) -> int
    decreases s.len(),
{
    if s.len() == 0 {
        0
    } else if s[0] == 0 {
        0
    } else {
        1 + terminator_pos(s.drop_first())
    }
}

/// The bytes before the first null terminator.
pub open spec fn text_prefix(s: Seq<u8>) -> Seq<u8> {
    s.subrange(0, terminator_pos(s))
}

/// What decoding a null-terminated text field yields: the UTF-8 decoding of
/// the bytes before the first null byte, or the error naming what is wrong
/// with the buffer.
pub open spec fn decode_spec(s: Seq<u8>) -> Result<Seq<char>, TextError> {
    if !has_terminator(s) {
        Err(TextError::MissingTerminator)
    } else if valid_utf8(text_prefix(s)) {
        Ok(decode_utf8(text_prefix(s)))
    } else {
        Err(TextError::InvalidUtf8)
    }
}

/// The first null byte's position is the one index that carries a null with
/// none before it.
proof fn lemma_terminator_pos_of(s: Seq<u8>, n: int)
    requires
        0 <= n < s.len(),
        s[n] == 0,
        forall|j: int| 0 <= j < n ==> #[trigger] s[j] != 0,
    ensures
        has_terminator(s),
        terminator_pos(s) == n,
    decreases n,
{
    assert(has_terminator(s));
    if n == 0 {
    } else {
        let rest = s.drop_first();
        assert(rest[n - 1] == s[n]);
        assert(forall|j: int| 0 <= j < n - 1 ==> #[trigger] rest[j] == s[j + 1]);
        lemma_terminator_pos_of(rest, n - 1);
        assert(s[0] != 0);
    }
}

/// Law: on a buffer whose first null byte sits at position `n` and whose
/// bytes before it are valid UTF-8, decoding succeeds and yields exactly the
/// UTF-8 decoding of those first `n` bytes — whatever follows the
/// terminator.
pub proof fn lemma_decode_valid(s: Seq<u8>, n: int)
    requires
        0 <= n < s.len(),
        s[n] == 0,
        forall|j: int| 0 <= j < n ==> #[trigger] s[j] != 0,
        valid_utf8(s.subrange(0, n)),
    ensures
        decode_spec(s) == Ok::<Seq<char>, TextError>(decode_utf8(s.subrange(0, n))),
{
    lemma_terminator_pos_of(s, n);
}

/// Turns bytes into the string they encode.
///
/// Relies on `String::from_utf8`, which the standard library documents as
/// succeeding exactly when the bytes are valid UTF-8, returning the string
/// those bytes encode.
#[verifier::external_body]
fn string_from_utf8(bytes: Vec<u8>) -> (r: Option<String>)
    ensures
        r is Some <==> valid_utf8(bytes@),
        r matches Some(s) ==> s@ == decode_utf8(bytes@),
{
    match String::from_utf8(bytes) {
        Ok(s) => Some(s),
        Err(_) => None,
    }
}

/// Appends one character to a string.
///
/// Relies on `String::push`, which the standard library documents as
/// appending the given `char` to the end of the string.
#[verifier::external_body]
pub(crate) fn push_char(s: &mut String, c: char)
    ensures
        final(s)@ == old(s)@.push(c),
{
    s.push(c);
}

/// Decodes a null-terminated UTF-8 text field: the characters before the
/// first null byte, or an error when the terminator is missing or the bytes
/// before it are not valid UTF-8.
pub fn decode_text(buf: &[u8]) -> (r: Result<String, TextError>)
    ensures
        match (r, decode_spec(buf@)) {
            (Ok(s), Ok(t)) => s@ == t,
            (Err(e1), Err(e2)) => e1 == e2,
            _ => false,
        },
{
    let mut prefix: Vec<u8> = Vec::new();
    let mut i: usize = 0;
    while i < buf.len()
        invariant
            0 <= i <= buf.len(),
            forall|j: int| 0 <= j < i ==> #[trigger] buf@[j] != 0,
            prefix@ =~= buf@.subrange(0, i as int),
        decreases buf.len() - i,
    {
        let b = buf[i];
        if b == 0 {
            proof {
                lemma_terminator_pos_of(buf@, i as int);
                assert(text_prefix(buf@) =~= prefix@);
            }
            return match string_from_utf8(prefix) {
                Some(s) => Ok(s),
                None => Err(TextError::InvalidUtf8),
            };
        }
        prefix.push(b);
        i = i + 1;
    }
    proof {
        assert(forall|j: int| 0 <= j < buf@.len() ==> #[trigger] buf@[j] != 0);
        assert(!has_terminator(buf@));
    }
    Err(TextError::MissingTerminator)
}

} // verus!
