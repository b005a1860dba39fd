//! The obfuscation codec: plaintext key to stored text and back.

use vstd::prelude::*;
use vstd::utf8::{
    decode_utf8, encode_scalar, encode_utf8, encode_utf8_decode_utf8, encode_utf8_valid_utf8,
    valid_utf8,
};

verus! {

/// The byte that every byte of a key is combined with by exclusive or.
///
/// It is a known constant, not a secret: the stored form is obfuscated, not
/// confidential.
pub const ENCRYPTION_KEY: u8 = 42;

/// `bytes` with every byte combined with [`ENCRYPTION_KEY`].
pub open spec fn masked(bytes: Seq<u8>) -> Seq<u8> {
    Seq::new(bytes.len(), |i: int| bytes[i] ^ ENCRYPTION_KEY)
}

/// Masking twice gives the bytes back.
pub proof fn lemma_masked_twice(bytes: Seq<u8>)
    ensures
        masked(masked(bytes)) == bytes,
{
    assert forall|i: int| 0 <= i < bytes.len() implies masked(masked(bytes))[i] == bytes[i] by {
        let b = bytes[i];
        let k = ENCRYPTION_KEY;
        assert((b ^ k) ^ k == b) by (bit_vector);
    }
    assert(masked(masked(bytes)) =~= bytes);
}

/// Combines every byte of `bytes` with [`ENCRYPTION_KEY`].
pub fn mask_bytes(bytes: &[u8]) -> (out: Vec<u8>)
    ensures
        out@ == masked(bytes@),
{
    let mut out: Vec<u8> = Vec::with_capacity(bytes.len());
    let mut i: usize = 0;
    while i < bytes.len()
        invariant
            i <= bytes.len(),
            out.len() == i,
            forall|j: int| 0 <= j < i ==> out[j] == bytes[j] ^ ENCRYPTION_KEY,
        decreases bytes.len() - i,
    {
        out.push(bytes[i] ^ ENCRYPTION_KEY);
        i += 1;
    }
    assert(out@ =~= masked(bytes@));
    out
}

/// The text that the standard base64 engine (the alphabet of RFC 4648 with
/// `+` and `/`, padded with `=`) returns for `bytes`.
pub uninterp spec fn standard_base64_text(bytes: Seq<u8>) -> Seq<char>;

/// The bytes that the standard base64 engine decodes `text` to, or `None`
/// where it rejects `text`.
pub uninterp spec fn standard_base64_bytes(text: Seq<char>) -> Option<Seq<u8>>;

/// The length of the padded base64 text of `n` bytes: four characters for
/// every three bytes, the last group filled up.
pub open spec fn padded_len(n: nat) -> nat {
    4 * ((n + 2) / 3)
}

/// Whether `c` can occur in standard base64 text: a letter, a digit, `+`, `/`
/// or the padding `=`.
pub open spec fn is_base64_char(c: char) -> bool {
    ||| 'A' <= c <= 'Z'
    ||| 'a' <= c <= 'z'
    ||| '0' <= c <= '9'
    ||| c == '+'
    ||| c == '/'
    ||| c == '='
}

/// Whether `text` is made of base64 characters alone.
pub open spec fn is_base64_like(text: Seq<char>) -> bool {
    forall|i: int| 0 <= i < text.len() ==> is_base64_char(#[trigger] text[i])
}

/// Whether the padding `=` stands in the last two places of `text` only.
pub open spec fn is_padded_at_end(text: Seq<char>) -> bool {
    forall|i: int| 0 <= i < text.len() - 2 ==> #[trigger] text[i] != '='
}

/// The stored form of the key `plain`.
pub open spec fn at_rest_text(plain: Seq<char>) -> Seq<char> {
    standard_base64_text(masked(encode_utf8(plain)))
}

/// The key that the decoded bytes `payload` stand for: the unmasked bytes
/// read as UTF-8, or the empty text where they are not UTF-8.
pub open spec fn payload_text(payload: Seq<u8>) -> Seq<char> {
    if valid_utf8(masked(payload)) {
        decode_utf8(masked(payload))
    } else {
        Seq::empty()
    }
}

/// The key recovered from the stored text `stored`, or the empty text where
/// `stored` is not base64 or does not hold UTF-8.
pub open spec fn recovered_text(stored: Seq<char>) -> Seq<char> {
    match standard_base64_bytes(stored) {
        Some(payload) => payload_text(payload),
        None => Seq::empty(),
    }
}

/// Whether the stored form of `plain` can be built: its length must not
/// exceed what an allocation can hold.
pub open spec fn fits_at_rest(plain: Seq<char>) -> bool {
    padded_len(encode_utf8(plain).len()) <= isize::MAX
}

/// Calls `base64::Engine::encode` on `base64::engine::general_purpose::STANDARD`.
///
/// Trusted: the text returned is what that engine gives for `bytes`; the same
/// engine decodes it to `bytes` again; it has four characters for every three
/// bytes begun, all of them from the engine's alphabet or the padding `=`,
/// which the engine writes after the last symbol, at most twice.
/// The engine panics where the length of the text cannot be computed or
/// allocated, which `requires` leaves out.
#[verifier::external_body]
fn standard_base64_encode(bytes: &[u8]) -> (text: String)
    requires
        padded_len(bytes@.len()) <= isize::MAX,
    ensures
        text@ == standard_base64_text(bytes@),
        standard_base64_bytes(text@) == Some(bytes@),
        text@.len() == padded_len(bytes@.len()),
        is_base64_like(text@),
        is_padded_at_end(text@),
{
    base64::Engine::encode(&base64::engine::general_purpose::STANDARD, bytes)
}

/// Calls `base64::Engine::decode` on `base64::engine::general_purpose::STANDARD`.
///
/// Trusted: the bytes returned are what that engine decodes `text` to, and
/// `None` stands for any error of the engine. The engine rejects text with a
/// character outside its alphabet and the padding `=`, and, as it asks for
/// padding, text whose length is no multiple of four.
#[verifier::external_body]
fn standard_base64_decode(text: &str) -> (bytes: Option<Vec<u8>>)
    ensures
        match bytes {
            Some(decoded) => standard_base64_bytes(text@) == Some(decoded@),
            None => standard_base64_bytes(text@) is None,
        },
        !is_base64_like(text@) ==> bytes is None,
        text@.len() % 4 != 0 ==> bytes is None,
{
    base64::Engine::decode(&base64::engine::general_purpose::STANDARD, text).ok()
}

/// Calls `String::from_utf8`.
///
/// Trusted: it succeeds exactly on valid UTF-8, and the string it returns is
/// made of the bytes given.
#[verifier::external_body]
fn string_from_utf8(bytes: Vec<u8>) -> (text: Option<String>)
    ensures
        text is Some <==> valid_utf8(bytes@),
        text matches Some(s) ==> encode_utf8(s@) == bytes@,
{
    String::from_utf8(bytes).ok()
}

/// A key's payload (its UTF-8 bytes, masked) stands for that key.
pub proof fn lemma_payload_round_trip(plain: Seq<char>)
    ensures
        payload_text(masked(encode_utf8(plain))) == plain,
{
    lemma_masked_twice(encode_utf8(plain));
    encode_utf8_valid_utf8(plain);
    encode_utf8_decode_utf8(plain);
}

/// Only the empty text has no UTF-8 bytes.
pub proof fn lemma_utf8_of_nothing(text: Seq<char>)
    ensures
        encode_utf8(text).len() == 0 <==> text.len() == 0,
{
    if text.len() > 0 {
        assert(encode_scalar(text[0] as u32).len() >= 1);
    }
}

/// Whether [`encrypt_api_key`] accepts `input`.
pub fn can_encrypt(input: &str) -> (fits: bool)
    ensures
        fits == fits_at_rest(input@),
{
    let limit: usize = (isize::MAX as usize / 4) * 3;
    input.as_bytes().len() <= limit
}

/// Obfuscates the key `input` for storage: its UTF-8 bytes, masked, as
/// standard base64 text.
///
/// [`decrypt_api_key`] recovers `input` from the text returned, whatever
/// `input` is.
pub fn encrypt_api_key(input: &str) -> (text: String)
    requires
        fits_at_rest(input@),
    ensures
        text@ == at_rest_text(input@),
        recovered_text(text@) == input@,
        text@.len() == padded_len(encode_utf8(input@).len()),
        text@.len() == 0 <==> input@.len() == 0,
        is_base64_like(text@),
        is_padded_at_end(text@),
{
    let payload = mask_bytes(input.as_bytes());
    proof {
        lemma_payload_round_trip(input@);
        lemma_utf8_of_nothing(input@);
    }
    standard_base64_encode(payload.as_slice())
}

/// Recovers the key that the decoded bytes `payload` stand for.
///
/// Returns the empty string where the unmasked bytes are not UTF-8.
pub fn plaintext_of_payload(payload: &[u8]) -> (plain: String)
    ensures
        plain@ == payload_text(payload@),
        !valid_utf8(masked(payload@)) ==> plain@.len() == 0,
{
    match string_from_utf8(mask_bytes(payload)) {
        Some(plain) => {
            proof {
                encode_utf8_decode_utf8(plain@);
            }
            plain
        },
        None => String::new(),
    }
}

/// Recovers the key from its stored form.
///
/// Returns the empty string where `encrypted_input` is not standard base64,
/// and where the bytes it decodes to do not hold UTF-8.
pub fn decrypt_api_key(encrypted_input: &str) -> (plain: String)
    ensures
        plain@ == recovered_text(encrypted_input@),
        standard_base64_bytes(encrypted_input@) is None ==> plain@.len() == 0,
        !is_base64_like(encrypted_input@) ==> plain@.len() == 0,
        encrypted_input@.len() % 4 != 0 ==> plain@.len() == 0,
        standard_base64_bytes(encrypted_input@) matches Some(payload) && !valid_utf8(
            masked(payload),
        ) ==> plain@.len() == 0,
{
    match standard_base64_decode(encrypted_input) {
        Some(payload) => plaintext_of_payload(payload.as_slice()),
        None => String::new(),
    }
}

} // verus!
