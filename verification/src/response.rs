//! A JSON response body that is served with the ActivityStreams media type.

use axum::http::{HeaderName, HeaderValue};
use vstd::prelude::*;

verus! {

/// `http::HeaderName`, as `axum` hands it on.
#[verifier::external_type_specification]
#[verifier::external_body]
pub struct ExHeaderName(axum::http::HeaderName);

/// `http::HeaderValue`, as `axum` hands it on.
#[verifier::external_type_specification]
#[verifier::external_body]
pub struct ExHeaderValue(axum::http::HeaderValue);

/// The text of a header name.
pub uninterp spec fn header_name_text(name: HeaderName) -> Seq<char>;

/// The bytes of a header value.
pub uninterp spec fn header_value_bytes(value: HeaderValue) -> Seq<u8>;

/// Whether a character may stand in a header name that is made of lower-case letters,
/// digits and hyphens.
pub open spec fn is_plain_name_char(c: char) -> bool {
    ('a' <= c && c <= 'z') || ('0' <= c && c <= '9') || c == '-'
}

/// Whether a character may stand in a header value that is text: visible ASCII, a space
/// or a tab.
pub open spec fn is_visible_ascii(c: char) -> bool {
    (' ' <= c && c <= '~') || c == '\t'
}

/// The byte of each character of an ASCII text.
pub open spec fn ascii_bytes(text: Seq<char>) -> Seq<u8> {
    text.map_values(|c: char| c as u8)
}

/// `HeaderName::from_static`: the header name of that text. It panics on a text that is
/// empty, longer than a header name may be, or holds a character outside the header
/// alphabet, in which there are no upper-case letters; the contract asks for less than
/// that alphabet allows.
#[verifier::external_body]
fn header_name_from_static(text: &'static str) -> (name: HeaderName)
    requires
        0 < text@.len() <= 65535,
        forall|i: int| 0 <= i < text@.len() ==> is_plain_name_char(#[trigger] text@[i]),
    ensures
        header_name_text(name) == text@,
{
    HeaderName::from_static(text)
}

/// `HeaderValue::from_static`: the header value of that text. It panics on a text that
/// holds anything but visible ASCII, spaces and tabs.
#[verifier::external_body]
fn header_value_from_static(text: &'static str) -> (value: HeaderValue)
    requires
        forall|i: int| 0 <= i < text@.len() ==> is_visible_ascii(#[trigger] text@[i]),
    ensures
        header_value_bytes(value) == ascii_bytes(text@),
{
    HeaderValue::from_static(text)
}

/// Similar to `axum::Json`, but stands for a response whose `Content-Type` header names
/// ActivityStreams instead of generic JSON.
#[derive(Clone, Copy, Debug)]
pub struct ActivityJson<T>(pub T);

impl<T> ActivityJson<T> {
    /// The header that such a response carries in place of the one of a generic JSON
    /// response: `content-type`, with the media type of ActivityStreams.
    pub fn content_type() -> (header: (HeaderName, HeaderValue))
        ensures
            header_name_text(header.0) == "content-type"@,
            header_value_bytes(header.1) == ascii_bytes("application/activity+json"@),
    {
        proof {
            reveal_strlit("content-type");
            reveal_strlit("application/activity+json");
        }
        (
            header_name_from_static("content-type"),
            header_value_from_static("application/activity+json"),
        )
    }
}

} // verus!
