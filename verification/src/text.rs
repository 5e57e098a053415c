//! Tests on text.

use std::sync::Arc;

use vstd::prelude::*;
use vstd::utf8::*;

use crate::error::DatabaseError;

verus! {

/// The characters of a text that may be missing.
pub open spec fn optional_text(text: Option<String>) -> Option<Seq<char>> {
    match text {
        Some(text) => Some(text@),
        None => None,
    }
}

/// The characters of a borrowed text that may be missing.
pub open spec fn borrowed_text(text: Option<&str>) -> Option<Seq<char>> {
    match text {
        Some(text) => Some(text@),
        None => None,
    }
}

/// Whether a character has Unicode's `White_Space` property.
pub open spec fn white_space(c: char) -> bool {
    ||| 0x9 <= c as int <= 0xd
    ||| c as int == 0x20
    ||| c as int == 0x85
    ||| c as int == 0xa0
    ||| c as int == 0x1680
    ||| 0x2000 <= c as int <= 0x200a
    ||| c as int == 0x2028
    ||| c as int == 0x2029
    ||| c as int == 0x202f
    ||| c as int == 0x205f
    ||| c as int == 0x3000
}

/// The text without the white space at its ends.
pub open spec fn trimmed(text: Seq<char>) -> Seq<char>
    decreases text.len(),
{
    if text.len() > 0 && white_space(text[0]) {
        trimmed(text.skip(1))
    } else if text.len() > 0 && white_space(text.last()) {
        trimmed(text.drop_last())
    } else {
        text
    }
}

/// A trimmed text has no white space at its ends, so that trimming it again changes nothing.
pub proof fn trimming_bares_the_ends(text: Seq<char>)
    ensures
        trimmed(text).len() > 0 ==> !white_space(trimmed(text)[0]) && !white_space(
            trimmed(text).last(),
        ),
        trimmed(trimmed(text)) == trimmed(text),
    decreases text.len(),
{
    if text.len() > 0 && white_space(text[0]) {
        trimming_bares_the_ends(text.skip(1));
    } else if text.len() > 0 && white_space(text.last()) {
        trimming_bares_the_ends(text.drop_last());
    }
}

/// What `str::to_lowercase` makes of a text.
pub uninterp spec fn lowercased(text: Seq<char>) -> Seq<char>;

/// Calls `str::trim`, which removes the characters with the `White_Space` property at both ends.
#[verifier::external_body]
fn trim_ends<'a>(text: &'a str) -> (r: &'a str)
    ensures
        r@ == trimmed(text@),
{
    text.trim()
}

/// Calls `str::to_lowercase`. The claim is that its result depends on the text alone; how each
/// character is mapped is left to the standard library.
#[verifier::external_body]
fn to_lower(text: &str) -> (r: String)
    ensures
        r@ == lowercased(text@),
{
    text.to_lowercase()
}

/// The text without the white space at its ends.
pub fn trimmed_text<'a>(text: &'a str) -> (r: &'a str)
    ensures
        r@ == trimmed(text@),
{
    trim_ends(text)
}

/// The form in which addresses are compared: trimmed and in lower case.
pub open spec fn email_key(address: Seq<char>) -> Seq<char> {
    lowercased(trimmed(address))
}

/// The form in which addresses are compared.
pub fn normalized_email(address: &str) -> (r: String)
    ensures
        r@ == email_key(address@),
{
    to_lower(trim_ends(address))
}

/// Whether a text has at least `least` and at most `most` bytes.
pub open spec fn is_sized(text: Seq<char>, least: int, most: int) -> bool {
    least <= encode_utf8(text).len() <= most
}

/// Whether a text has at least `least` and at most `most` bytes.
pub fn sized(text: &str, least: usize, most: usize) -> (r: bool)
    ensures
        r == is_sized(text@, least as int, most as int),
{
    let bytes: &[u8] = text.as_bytes();
    least <= bytes.len() && bytes.len() <= most
}

/// The length of the longest address, in bytes.
pub const MAX_EMAIL_BYTES: usize = 320;

/// Whether a text can be an address: not empty, and not too long.
pub open spec fn is_email_sized(text: Seq<char>) -> bool {
    is_sized(text, 1, MAX_EMAIL_BYTES as int)
}

/// Whether a text can be an address.
pub fn email_sized(text: &str) -> (r: bool)
    ensures
        r == is_email_sized(text@),
{
    sized(text, 1, MAX_EMAIL_BYTES)
}

/// Whether every byte of a text is a visible ASCII character.
pub open spec fn is_ascii_graphic(text: Seq<char>) -> bool {
    forall|i: int|
        0 <= i < encode_utf8(text).len() ==> 0x21 <= #[trigger] encode_utf8(text)[i] <= 0x7e
}

/// Whether every byte of a text is a visible ASCII character.
pub fn ascii_graphic(text: &str) -> (r: bool)
    ensures
        r == is_ascii_graphic(text@),
{
    let bytes: &[u8] = text.as_bytes();
    let mut at: usize = 0;
    while at < bytes.len()
        invariant
            at <= bytes@.len(),
            bytes@ == encode_utf8(text@),
            forall|i: int| 0 <= i < at ==> 0x21 <= #[trigger] bytes@[i] <= 0x7e,
        decreases bytes@.len() - at,
    {
        if bytes[at] < 0x21 || bytes[at] > 0x7e {
            return false;
        }
        at = at + 1;
    }
    true
}

/// Whether a character has Unicode's `White_Space` property.
fn whitespace(c: char) -> (r: bool)
    ensures
        r == white_space(c),
{
    let code: u32 = c as u32;
    (0x9 <= code && code <= 0xd) || code == 0x20 || code == 0x85 || code == 0xa0 || code == 0x1680
        || (0x2000 <= code && code <= 0x200a) || code == 0x2028 || code == 0x2029 || code == 0x202f
        || code == 0x205f || code == 0x3000
}

/// Whether a text has a character of white space.
pub open spec fn has_white_space(text: Seq<char>) -> bool {
    exists|i: int| 0 <= i < text.len() && white_space(#[trigger] text[i])
}

/// Whether a text has a character of white space.
pub fn any_white_space(text: &str) -> (r: bool)
    ensures
        r == has_white_space(text@),
{
    let count: usize = text.unicode_len();
    let mut at: usize = 0;
    while at < count
        invariant
            at <= count == text@.len(),
            forall|i: int| 0 <= i < at ==> !white_space(#[trigger] text@[i]),
        decreases count - at,
    {
        if whitespace(text.get_char(at)) {
            assert(white_space(text@[at as int]));
            return true;
        }
        at = at + 1;
    }
    false
}

/// Whether a text begins with another.
pub open spec fn begins(text: Seq<char>, prefix: Seq<char>) -> bool {
    prefix.len() <= text.len() && text.take(prefix.len() as int) == prefix
}

/// Whether a text begins with another.
pub fn begins_with(text: &str, prefix: &str) -> (r: bool)
    ensures
        r == begins(text@, prefix@),
{
    let count: usize = prefix.unicode_len();
    if text.unicode_len() < count {
        return false;
    }
    let mut at: usize = 0;
    while at < count
        invariant
            at <= count == prefix@.len(),
            count <= text@.len(),
            forall|i: int| 0 <= i < at ==> text@[i] == #[trigger] prefix@[i],
        decreases count - at,
    {
        if text.get_char(at) != prefix.get_char(at) {
            assert(text@.take(count as int)[at as int] != prefix@[at as int]);
            return false;
        }
        at = at + 1;
    }
    assert(text@.take(count as int) =~= prefix@);
    true
}

/// Whether two texts hold the same characters.
pub fn text_eq(a: &str, b: &str) -> (same: bool)
    ensures
        same == (a@ == b@),
{
    let left: &[u8] = a.as_bytes();
    let right: &[u8] = b.as_bytes();
    let same: bool = bytes_eq(left, right);
    proof {
        encode_utf8_decode_utf8(a@);
        encode_utf8_decode_utf8(b@);
    }
    same
}

/// Whether two byte strings are equal.
pub fn bytes_eq(a: &[u8], b: &[u8]) -> (same: bool)
    ensures
        same == (a@ == b@),
{
    if a.len() != b.len() {
        return false;
    }
    let mut at: usize = 0;
    while at < a.len()
        invariant
            at <= a@.len(),
            a@.len() == b@.len(),
            forall|i: int| 0 <= i < at ==> a@[i] == b@[i],
        decreases a@.len() - at,
    {
        if a[at] != b[at] {
            return false;
        }
        at = at + 1;
    }
    assert(a@ =~= b@);
    true
}

/// A copy of a byte string.
pub fn owned_bytes(bytes: &[u8]) -> (r: Vec<u8>)
    ensures
        r@ == bytes@,
{
    let mut out: Vec<u8> = Vec::new();
    let mut at: usize = 0;
    while at < bytes.len()
        invariant
            at <= bytes@.len(),
            out@ == bytes@.take(at as int),
        decreases bytes@.len() - at,
    {
        out.push(bytes[at]);
        at = at + 1;
        assert(bytes@.take(at as int) =~= bytes@.take(at - 1).push(bytes@[at - 1]));
    }
    assert(bytes@.take(at as int) =~= bytes@);
    out
}

/// Whether a digest is stored and is this one.
pub fn same_digest(stored: &Option<Arc<Vec<u8>>>, digest: &[u8]) -> (same: bool)
    ensures
        same == (*stored is Some && (*stored)->0@ == digest@),
{
    match stored {
        Some(stored) => bytes_eq(stored.as_slice(), digest),
        None => false,
    }
}

/// The 32 bytes of a digest; an error where there are more or fewer.
pub open spec fn digest_spec(bytes: Seq<u8>) -> Result<[u8; 32], DatabaseError> {
    if bytes.len() == 32 {
        Ok(choose|digest: [u8; 32]| digest@ == bytes)
    } else {
        Err(DatabaseError::InvalidPersistedValue)
    }
}

/// Reads a digest of 32 bytes.
pub fn digest_of(bytes: &[u8]) -> (r: Result<[u8; 32], DatabaseError>)
    ensures
        r == digest_spec(bytes@),
        r is Ok <==> bytes@.len() == 32,
        r is Ok ==> r->Ok_0@ == bytes@,
{
    if bytes.len() != 32 {
        return Err(DatabaseError::InvalidPersistedValue);
    }
    let mut digest: [u8; 32] = [0u8; 32];
    let mut at: usize = 0;
    while at < 32
        invariant
            at <= 32,
            bytes@.len() == 32,
            forall|i: int| 0 <= i < at ==> digest@[i] == bytes@[i],
        decreases 32 - at,
    {
        digest[at] = bytes[at];
        at = at + 1;
    }
    proof {
        assert(digest@ =~= bytes@);
        let chosen = choose|other: [u8; 32]| other@ == bytes@;
        assert(chosen@ == bytes@);
        assert(chosen =~= digest);
    }
    Ok(digest)
}

} // verus!
