use vstd::prelude::*;

verus! {

/// The standard-alphabet base64 text, without padding, of some bytes.
pub uninterp spec fn base64_nopad(b: Seq<u8>) -> Seq<char>;

/// The bytes that a padless standard-alphabet base64 text stands for, if it is one.
pub uninterp spec fn base64_nopad_decoded(s: Seq<char>) -> Option<Seq<u8>>;

/// The base64 text of some bytes over the URL-safe alphabet that starts with
/// `-` and `_`, without padding.
pub uninterp spec fn webhook_alphabet_text(b: Seq<u8>) -> Seq<char>;

/// Relies on base64's `Engine::encode` with the STANDARD_NO_PAD engine; its
/// length is that of `encoded_len` without padding: four characters for each
/// three bytes, and two or three for a last group of one or two.
#[verifier::external_body]
pub(crate) fn encode_token(b: &[u8]) -> (r: String)
    ensures
        r@ == base64_nopad(b@),
        r@.len() == (4 * b@.len() + 2) / 3,
{
    base64::Engine::encode(&base64::engine::general_purpose::STANDARD_NO_PAD, b)
}

/// Relies on base64's `Engine::decode` with the STANDARD_NO_PAD engine: the
/// decoded bytes, or nothing where the text is not padless standard base64.
#[verifier::external_body]
pub(crate) fn decode_token(s: &str) -> (r: Option<Vec<u8>>)
    ensures
        match r {
            Some(v) => base64_nopad_decoded(s@) == Some(v@),
            None => base64_nopad_decoded(s@) is None,
        },
{
    base64::Engine::decode(&base64::engine::general_purpose::STANDARD_NO_PAD, s).ok()
}

/// Relies on base64's `Alphabet::new` with the alphabet
/// "-_A..Za..z0..9", which it accepts (64 distinct printable bytes, no `=`),
/// so the unwrap cannot panic, and on `Engine::encode` of a `GeneralPurpose`
/// engine over it with NO_PAD, whose length is that of `encoded_len`
/// without padding.
#[verifier::external_body]
pub(crate) fn encode_webhook_secret(b: &[u8]) -> (r: String)
    ensures
        r@ == webhook_alphabet_text(b@),
        r@.len() == (4 * b@.len() + 2) / 3,
{
    let alphabet = base64::alphabet::Alphabet::new(
        "-_ABCDEFGHIJKLMNOPQRSTUVWXYZabcdefghijklmnopqrstuvwxyz0123456789",
    ).unwrap();
    let engine = base64::engine::GeneralPurpose::new(&alphabet, base64::engine::general_purpose::NO_PAD);
    base64::Engine::encode(&engine, b)
}

} // verus!
