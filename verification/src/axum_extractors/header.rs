//! Header values as text.

use axum::http::HeaderValue;
use vstd::prelude::*;
use vstd::utf8::*;

verus! {

/// A tab or a printable ASCII character.
pub open spec fn is_visible(byte: u8) -> bool {
    32 <= byte < 127 || byte == 9
}

/// A byte that can stand in a header value.
pub open spec fn is_header_byte(byte: u8) -> bool {
    byte >= 32 && byte != 127 || byte == 9
}

/// Every byte is a tab or a printable ASCII character.
pub open spec fn all_visible(bytes: Seq<u8>) -> bool {
    forall|i: int| 0 <= i < bytes.len() ==> is_visible(#[trigger] bytes[i])
}

/// Every byte can stand in a header value.
pub open spec fn is_header_value(bytes: Seq<u8>) -> bool {
    forall|i: int| 0 <= i < bytes.len() ==> is_header_byte(#[trigger] bytes[i])
}

/// The characters with these codes.
pub open spec fn characters(bytes: Seq<u8>) -> Seq<char> {
    Seq::new(bytes.len(), |i: int| bytes[i] as char)
}

/// Every character is a tab or a printable ASCII character.
pub open spec fn is_visible_text(text: Seq<char>) -> bool {
    forall|i: int|
        0 <= i < text.len() ==> 32 <= #[trigger] text[i] as int <= 126 || text[i] as int == 9
}

/// A text of visible characters is made of visible bytes and reads back from them.
pub proof fn lemma_visible_text(text: Seq<char>)
    requires
        is_visible_text(text),
    ensures
        all_visible(encode_utf8(text)),
        characters(encode_utf8(text)) == text,
{
    assert(is_ascii_chars(text));
    is_ascii_chars_encode_utf8(text);
    assert(characters(encode_utf8(text)) =~= text);
}

/// Calls `axum::http::HeaderValue::to_str` on the value with these bytes.
///
/// Claimed: a value of visible characters is given back as text; for another one the result is an
/// error, of which the debug form is returned. It is always the same for bytes that can stand in
/// a header value; for others, of which no header value can be made, it is left open.
#[verifier::external_body]
pub(crate) fn header_text(value: &[u8]) -> (result: Result<String, String>)
    ensures
        result is Ok <==> all_visible(value@),
        result matches Ok(text) ==> text@ == characters(value@),
        result matches Err(error) ==> is_header_value(value@) ==> error@
            == "ToStrError { _priv: () }"@,
{
    match HeaderValue::from_bytes(value) {
        Ok(value) => value.to_str().map(String::from).map_err(|error| format!("{error:?}")),
        Err(error) => Err(format!("{error:?}")),
    }
}

} // verus!
