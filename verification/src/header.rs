//! Header values: which text may stand in one, and what one reads back as.

use http::header::{HeaderValue, InvalidHeaderValue, ToStrError};
use vstd::prelude::*;
use crate::text::all_visible;
use vstd::string::*;
use vstd::utf8::{
    decode_utf8, encode_utf8, encode_utf8_decode_utf8, is_ascii_chars, is_ascii_chars_encode_utf8,
};

verus! {

/// An HTTP header value of the `http` crate.
#[verifier::external_type_specification]
#[verifier::external_body]
pub struct ExHeaderValue(HeaderValue);

/// The error of the `http` crate for bytes that may not stand in a header value.
#[verifier::external_type_specification]
#[verifier::external_body]
pub struct ExInvalidHeaderValue(InvalidHeaderValue);

/// The error of the `http` crate for a header value that is not text.
#[verifier::external_type_specification]
#[verifier::external_body]
pub struct ExToStrError(ToStrError);

/// The bytes that a header value holds: what `HeaderValue::as_bytes` hands
/// out.
pub uninterp spec fn header_bytes(value: HeaderValue) -> Seq<u8>;

/// A byte that may stand in a header value: anything from the space upwards
/// but DEL, and the tab.
pub open spec fn is_header_byte(b: u8) -> bool {
    b >= 32 && b != 127 || b == 9
}

/// A byte of a header value that reads back as text: visible ASCII, the
/// space, and the tab.
pub open spec fn is_text_byte(b: u8) -> bool {
    b >= 32 && b < 127 || b == 9
}

/// Every byte of `bytes` may stand in a header value.
pub open spec fn is_header_value(bytes: Seq<u8>) -> bool {
    forall|i: int| 0 <= i < bytes.len() ==> is_header_byte(#[trigger] bytes[i])
}

/// Every byte of `bytes` reads back as text.
pub open spec fn is_header_text(bytes: Seq<u8>) -> bool {
    forall|i: int| 0 <= i < bytes.len() ==> is_text_byte(#[trigger] bytes[i])
}

/// Makes a header value of `src`.
///
/// Trusted: stands for `HeaderValue::from_str`, which scans the bytes of
/// `src`, fails on the first that is below the space (but for the tab) or is
/// DEL, and otherwise keeps a copy of the bytes.
#[verifier::external_body]
pub(crate) fn header_from_str(src: &str) -> (r: Result<HeaderValue, InvalidHeaderValue>)
    ensures
        r is Ok <==> is_header_value(src.spec_bytes()),
        r matches Ok(value) ==> header_bytes(value) == src.spec_bytes(),
{
    HeaderValue::from_str(src)
}

/// Reads a header value as text.
///
/// Trusted: stands for `HeaderValue::to_str`, which scans the bytes of the
/// value, fails on the first that is not visible ASCII, space or tab, and
/// otherwise hands the same bytes out as a string slice.
#[verifier::external_body]
pub(crate) fn header_to_str(value: &HeaderValue) -> (r: Result<&str, ToStrError>)
    ensures
        r is Ok <==> is_header_text(header_bytes(*value)),
        r matches Ok(text) ==> text.spec_bytes() == header_bytes(*value),
{
    value.to_str()
}

/// The bytes of the header value that `text` makes, where it makes one.
pub open spec fn header_of_text(text: Seq<char>) -> Option<Seq<u8>> {
    if is_header_value(encode_utf8(text)) {
        Some(encode_utf8(text))
    } else {
        None
    }
}

/// The text that a header value of the given bytes reads back as, where it
/// is text.
pub open spec fn text_of_header(bytes: Seq<u8>) -> Option<Seq<char>> {
    if is_header_text(bytes) {
        Some(decode_utf8(bytes))
    } else {
        None
    }
}

/// The error for a header value that does not read back as text.
#[derive(Clone, Copy, Debug, PartialEq, Eq)]
pub struct NotText;

/// Reads a header value back as text: the text whose bytes it holds, when
/// all of them are visible ASCII, spaces or tabs.
pub fn header_text(value: &HeaderValue) -> (r: Result<String, NotText>)
    ensures
        r is Ok <==> text_of_header(header_bytes(*value)) is Some,
        r matches Ok(text) ==> Some(text@) == text_of_header(header_bytes(*value)),
{
    match header_to_str(value) {
        Ok(text) => {
            proof {
                encode_utf8_decode_utf8(text@);
            }
            Ok(text.to_owned())
        },
        Err(_) => Err(NotText),
    }
}

/// Text of visible characters makes a header value, and that value reads
/// back as the same text.
pub proof fn lemma_visible_text_round_trip(text: Seq<char>)
    requires
        all_visible(text),
    ensures
        header_of_text(text) == Some(encode_utf8(text)),
        text_of_header(encode_utf8(text)) == Some(text),
{
    assert(is_ascii_chars(text));
    is_ascii_chars_encode_utf8(text);
    encode_utf8_decode_utf8(text);
    let bytes = encode_utf8(text);
    assert forall|i: int| 0 <= i < bytes.len() implies is_header_byte(#[trigger] bytes[i])
        && is_text_byte(bytes[i]) by {
        assert(bytes[i] == text[i] as u8);
    }
}

} // verus!
