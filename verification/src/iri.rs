//! The trusted interface to the IRI strings of `iri-string` and the URLs of `url`.
//!
//! Both crates keep a checked text behind a type of their own. Verified code carries
//! such values through, and learns of their text from the functions of this module.

use activitystreams::iri_string::types::{IriStr, IriString};
use url::Url;
use vstd::prelude::*;

verus! {

/// `iri_string::types::RiString`, of which `IriString` is the one for IRIs.
#[verifier::external_type_specification]
#[verifier::external_body]
#[verifier::reject_recursive_types(S)]
pub struct ExRiString<S>(activitystreams::iri_string::types::RiString<S>);

/// `iri_string::types::RiStr`, of which `IriStr` is the one for IRIs.
#[verifier::external_type_specification]
#[verifier::external_body]
#[verifier::reject_recursive_types(S)]
pub struct ExRiStr<S>(activitystreams::iri_string::types::RiStr<S>);

/// `iri_string::spec::IriSpec`, the mark of an IRI in the types above.
#[verifier::external_type_specification]
#[verifier::external_body]
pub struct ExIriSpec(activitystreams::iri_string::spec::IriSpec);

/// `iri_string::validate::Error`, which no function of this crate looks into.
#[verifier::external_type_specification]
#[verifier::external_body]
pub struct ExIriError(activitystreams::iri_string::validate::Error);

/// `url::Url`, carried through as it is.
#[verifier::external_type_specification]
#[verifier::external_body]
pub struct ExUrl(url::Url);

/// `url::ParseError`, which no function of this crate looks into.
#[verifier::external_type_specification]
#[verifier::external_body]
pub struct ExUrlError(url::ParseError);

/// The text of an IRI string.
pub uninterp spec fn iri_text(iri: IriString) -> Seq<char>;

/// The text of a borrowed IRI string.
pub uninterp spec fn iri_str_text(iri: &IriStr) -> Seq<char>;

/// Whether a text is an IRI: absolute, with or without a fragment, by the grammar of
/// RFC 3987 as `iri-string` checks it.
pub uninterp spec fn is_iri(text: Seq<char>) -> bool;

/// The text of a URL: its serialization.
pub uninterp spec fn url_text(url: Url) -> Seq<char>;

/// The serialization of the URL that `url` reads from a text, and `None` where it
/// rejects the text.
pub uninterp spec fn parsed_url_text(text: Seq<char>) -> Option<Seq<char>>;

/// `str::parse::<IriString>`: succeeds exactly on the texts that are IRIs, and keeps the
/// text as it is.
#[verifier::external_body]
pub(crate) fn parse_iri(text: &str) -> (parsed: Result<
    IriString,
    activitystreams::iri_string::validate::Error,
>)
    ensures
        parsed is Ok <==> is_iri(text@),
        parsed matches Ok(iri) ==> iri_text(iri) == text@,
{
    text.parse()
}

/// `Clone::clone` of an `IriString`: the same value again.
#[verifier::external_body]
pub(crate) fn iri_clone(iri: &IriString) -> (cloned: IriString)
    ensures
        cloned == *iri,
{
    iri.clone()
}

/// `ToString::to_string` of an `IriString`: its text, which is an IRI.
#[verifier::external_body]
pub(crate) fn iri_to_string(iri: &IriString) -> (text: String)
    ensures
        text@ == iri_text(*iri),
        is_iri(text@),
{
    iri.to_string()
}

/// `ToString::to_string` of an `IriStr`: its text, which is an IRI.
#[verifier::external_body]
pub(crate) fn iri_str_to_string(iri: &IriStr) -> (text: String)
    ensures
        text@ == iri_str_text(iri),
        is_iri(text@),
{
    iri.to_string()
}

/// `str::parse::<Url>`: the URL that the text reads as.
#[verifier::external_body]
pub(crate) fn parse_url(text: &str) -> (parsed: Result<Url, url::ParseError>)
    ensures
        match parsed {
            Ok(url) => parsed_url_text(text@) == Some(url_text(url)),
            Err(_) => parsed_url_text(text@) is None,
        },
{
    text.parse()
}

/// `ToString::to_string` of a `Url`: its serialization.
#[verifier::external_body]
pub(crate) fn url_to_string(url: &Url) -> (text: String)
    ensures
        text@ == url_text(*url),
{
    url.to_string()
}

} // verus!
