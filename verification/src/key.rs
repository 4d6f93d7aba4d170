//! From the secret as the user typed it to the bytes of a key.
//!
//! The decoder never refuses a text. It tries the base-32 reading in several
//! forms, each more forgiving than the one before, and falls back on the
//! characters themselves; whatever comes out is brought to at least
//! [`MIN_KEY_LEN`] bytes.

use vstd::prelude::*;
use vstd::string::StrSliceExecFns;
use vstd::string::StringSliceAdditionalSpecFns;
use vstd::utf8::encode_utf8;
use crate::store::TotpGenerator;
use crate::text::{
    keep_base32_chars, only_base32_chars, pad_to_block, padded_to_block, replace_lookalikes,
    strip_spaces, to_uppercase, uppercase_of, without_lookalikes, without_spaces,
};

verus! {

/// The least number of bytes that a key may have.
pub const MIN_KEY_LEN: usize = 16;

/// What `base32::decode` returns for `text` under the RFC 4648 alphabet,
/// with or without padding asked for: the decoded bytes, or `None` where it
/// refuses the text.
pub uninterp spec fn base32_decoded(padding: bool, text: Seq<char>) -> Option<Seq<u8>>;

/// Calls `base32::decode` with the RFC 4648 alphabet. The call returns on
/// every text, and its result depends on the two arguments alone.
#[verifier::external_body]
pub(crate) fn base32_decode(padding: bool, text: &str) -> (decoded: Option<Vec<u8>>)
    ensures
        match decoded {
            Some(bytes) => base32_decoded(padding, text@) == Some(bytes@),
            None => base32_decoded(padding, text@) is None,
        },
{
    base32::decode(base32::Alphabet::RFC4648 { padding }, text)
}

/// The key brought to at least [`MIN_KEY_LEN`] bytes by zero bytes at its
/// end; a key that is long enough is left as it is.
pub open spec fn padded_key(key: Seq<u8>) -> Seq<u8> {
    if key.len() < MIN_KEY_LEN {
        key + Seq::new((MIN_KEY_LEN - key.len()) as nat, |i: int| 0u8)
    } else {
        key
    }
}

/// The text as the decoder works on it: in upper case and without spaces.
pub open spec fn normalized(raw: Seq<char>) -> Seq<char> {
    without_spaces(uppercase_of(raw))
}

/// The first base-32 reading of a normalized text that succeeds, trying in
/// this order: the text as it is; the text padded with `=`; the text
/// reduced to the base-32 alphabet, as it is and then padded, where that
/// reduction changes it; the text with look-alike characters resolved, where
/// that changes it. `None` where all of them fail.
pub open spec fn base32_reading(text: Seq<char>) -> Option<Seq<u8>> {
    let kept = only_base32_chars(text);
    let resolved = without_lookalikes(text);
    if base32_decoded(false, text) is Some {
        base32_decoded(false, text)
    } else if base32_decoded(true, padded_to_block(text)) is Some {
        base32_decoded(true, padded_to_block(text))
    } else if kept != text && base32_decoded(false, kept) is Some {
        base32_decoded(false, kept)
    } else if kept != text && base32_decoded(true, padded_to_block(kept)) is Some {
        base32_decoded(true, padded_to_block(kept))
    } else if resolved != text && base32_decoded(false, resolved) is Some {
        base32_decoded(false, resolved)
    } else {
        None
    }
}

/// The key that a normalized text stands for: its first base-32 reading,
/// or, where there is none, its characters as UTF-8 bytes; in either case
/// brought to at least [`MIN_KEY_LEN`] bytes.
pub open spec fn key_of_normalized(text: Seq<char>) -> Seq<u8> {
    match base32_reading(text) {
        Some(bytes) => padded_key(bytes),
        None => padded_key(encode_utf8(text)),
    }
}

/// The key that a secret stands for, as typed.
pub open spec fn key_of(raw: Seq<char>) -> Seq<u8> {
    key_of_normalized(normalized(raw))
}

impl TotpGenerator {
    /// Appends zero bytes to a key of fewer than [`MIN_KEY_LEN`] bytes until
    /// it has that many; returns a longer key unchanged.
    pub fn pad_key(key: Vec<u8>) -> (padded: Vec<u8>)
        ensures
            padded@ == padded_key(key@),
            padded@.len() >= MIN_KEY_LEN,
    {
        let mut key = key;
        if key.len() < MIN_KEY_LEN {
            key.resize(MIN_KEY_LEN, 0);
        }
        key
    }

    /// Decodes a text that is already in upper case and free of spaces.
    pub fn decode_normalized(text: &str) -> (key: Vec<u8>)
        ensures
            key@ == key_of_normalized(text@),
            key@.len() >= MIN_KEY_LEN,
    {
        if let Some(decoded) = base32_decode(false, text) {
            return Self::pad_key(decoded);
        }
        let padded = pad_to_block(text);
        if let Some(decoded) = base32_decode(true, padded.as_str()) {
            return Self::pad_key(decoded);
        }
        let given = text.to_owned();
        let kept = keep_base32_chars(text);
        if !(kept == given) {
            if let Some(decoded) = base32_decode(false, kept.as_str()) {
                return Self::pad_key(decoded);
            }
            let padded_kept = pad_to_block(kept.as_str());
            if let Some(decoded) = base32_decode(true, padded_kept.as_str()) {
                return Self::pad_key(decoded);
            }
        }
        let resolved = replace_lookalikes(text);
        if !(resolved == given) {
            if let Some(decoded) = base32_decode(false, resolved.as_str()) {
                return Self::pad_key(decoded);
            }
        }
        Self::pad_key(text.as_bytes_vec())
    }

    /// Turns a secret as typed into the bytes of a key. Every text gives a
    /// key, and every key has at least [`MIN_KEY_LEN`] bytes.
    pub fn decode_secret(input: &str) -> (key: Vec<u8>)
        ensures
            key@ == key_of(input@),
            key@.len() >= MIN_KEY_LEN,
    {
        let upper = to_uppercase(input);
        let normalized = strip_spaces(upper.as_str());
        Self::decode_normalized(normalized.as_str())
    }
}

} // verus!
