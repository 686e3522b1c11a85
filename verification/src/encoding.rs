//! Base64, by the `base64` crate.
use base64::Engine as _;
use vstd::prelude::*;

verus! {

/// What `decode` of the standard base64 engine makes of a text: bytes, or its error in words.
pub uninterp spec fn base64_decoded(text: Seq<char>) -> Result<Seq<u8>, Seq<char>>;

/// What `encode` of the standard base64 engine makes of bytes.
pub uninterp spec fn base64_encoded(bytes: Seq<u8>) -> Seq<char>;

/// How many characters base64 takes for some number of bytes: four for every three, or part of
/// three.
pub open spec fn base64_len(bytes: nat) -> nat {
    (bytes + 2) / 3 * 4
}

/// Whether a character is one that base64 is written in.
pub open spec fn is_base64_char(c: char) -> bool {
    ('A' <= c <= 'Z') || ('a' <= c <= 'z') || ('0' <= c <= '9') || c == '+' || c == '/' || c == '='
}

/// Whether a text holds no other characters than base64 is written in.
pub open spec fn is_base64_text(text: Seq<char>) -> bool {
    forall|i: int| 0 <= i < text.len() ==> is_base64_char(#[trigger] text[i])
}

/// Whether bytes are what base64 gives of a text.
pub open spec fn reads_as(text: Seq<char>, bytes: Seq<u8>) -> bool {
    base64_decoded(text) == Ok::<Seq<u8>, Seq<char>>(bytes)
}

/// Whether a text is the base64 of what it was decoded to, if it was decoded; it then has the
/// characters and the length that base64 has.
pub open spec fn is_canonical(text: Seq<char>, decoded: Result<Seq<u8>, Seq<char>>) -> bool {
    decoded matches Ok(bytes) ==> base64_encoded(bytes) == text && is_base64_text(text)
        && text.len() == base64_len(bytes.len())
}

/// What came of decoding, as mathematical values.
pub open spec fn decoding_of(result: Result<Vec<u8>, String>) -> Result<Seq<u8>, Seq<char>> {
    match result {
        Ok(bytes) => Ok(bytes@),
        Err(why) => Err(why@),
    }
}

/// `decode` of `base64::engine::general_purpose::STANDARD` reads bytes from base64 with padding,
/// or says what is wrong with the text. Both depend on the text alone. It accepts only canonical
/// padding, and no bits after the last byte, so a text that it accepts is the one that `encode`
/// of the same engine writes for the bytes: letters, digits, `+`, `/` and `=`, four characters
/// for every three bytes or part of three.
#[verifier::external_body]
pub(crate) fn decode_base64(text: &str) -> (result: Result<Vec<u8>, String>)
    ensures
        decoding_of(result) == base64_decoded(text@),
        is_canonical(text@, decoding_of(result)),
{
    base64::engine::general_purpose::STANDARD.decode(text).map_err(|error| error.to_string())
}

/// `encode` of `base64::engine::general_purpose::STANDARD` writes bytes in base64 with padding:
/// letters, digits, `+` and `/`, and `=` to fill the last group of four. The text depends on the
/// bytes alone, and `decode` of the same engine reads the bytes back from it. The call panics
/// where the text is longer than any allocation can be.
#[verifier::external_body]
pub(crate) fn encode_base64(bytes: &[u8]) -> (text: String)
    requires
        base64_len(bytes@.len()) <= isize::MAX,
    ensures
        text@ == base64_encoded(bytes@),
        text@.len() == base64_len(bytes@.len()),
        is_base64_text(text@),
        reads_as(text@, bytes@),
{
    base64::engine::general_purpose::STANDARD.encode(bytes)
}

/// What came of decoding is the bytes, or the reason why there are none.
pub proof fn decoding_is_told_as_it_is(bytes: Vec<u8>, why: String)
    ensures
        decoding_of(Ok(bytes)) == Ok::<Seq<u8>, Seq<char>>(bytes@),
        decoding_of(Err(why)) == Err::<Seq<u8>, Seq<char>>(why@),
{
}

} // verus!
