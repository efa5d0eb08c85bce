//! Conversions between the URLs of `url` and the IRI strings of `iri-string`.
//!
//! Both ways go through the text: the one type writes it, the other reads it. Neither
//! crate accepts every text of the other, so each conversion comes twice: as a trait
//! method for a value that is known to convert, and as a function that tries.

use crate::iri::{
    iri_str_text, iri_str_to_string, iri_text, iri_to_string, is_iri, parse_iri, parse_url,
    parsed_url_text, url_text, url_to_string,
};
use activitystreams::iri_string::types::{IriStr, IriString};
use url::Url;
use vstd::pervasive::unreached;
use vstd::prelude::*;

verus! {

/// A value whose text is to be read as an IRI string.
pub trait IntoIri {
    /// The text that the value is written with.
    spec fn iri_source(&self) -> Seq<char>;

    /// The IRI string of the same text. The text must be an IRI.
    fn into_iri(&self) -> (iri: IriString)
        requires
            is_iri(self.iri_source()),
        ensures
            iri_text(iri) == self.iri_source(),
    ;
}

impl IntoIri for Url {
    open spec fn iri_source(&self) -> Seq<char> {
        url_text(*self)
    }

    fn into_iri(&self) -> (iri: IriString) {
        let text = url_to_string(self);
        match parse_iri(text.as_str()) {
            Ok(iri) => iri,
            Err(_) => unreached(),
        }
    }
}

/// A value whose text is to be read as a URL.
pub trait IntoUrl {
    /// The text that the value is written with.
    spec fn url_source(&self) -> Seq<char>;

    /// The URL that the text reads as. `url` must accept the text.
    fn into_url(&self) -> (url: Url)
        requires
            parsed_url_text(self.url_source()) is Some,
        ensures
            parsed_url_text(self.url_source()) == Some(url_text(url)),
    ;
}

impl IntoUrl for IriString {
    open spec fn url_source(&self) -> Seq<char> {
        iri_text(*self)
    }

    fn into_url(&self) -> (url: Url) {
        let text = iri_to_string(self);
        match parse_url(text.as_str()) {
            Ok(url) => url,
            Err(_) => unreached(),
        }
    }
}

impl IntoUrl for IriStr {
    open spec fn url_source(&self) -> Seq<char> {
        iri_str_text(self)
    }

    fn into_url(&self) -> (url: Url) {
        let text = iri_str_to_string(self);
        match parse_url(text.as_str()) {
            Ok(url) => url,
            Err(_) => unreached(),
        }
    }
}

/// The IRI string of a URL, where the URL's text is an IRI.
pub fn url_to_iri(url: &Url) -> (iri: Option<IriString>)
    ensures
        match iri {
            Some(found) => is_iri(url_text(*url)) && iri_text(found) == url_text(*url),
            None => !is_iri(url_text(*url)),
        },
{
    let text = url_to_string(url);
    if parse_iri(text.as_str()).is_ok() {
        Some(url.into_iri())
    } else {
        None
    }
}

/// The URL of an IRI string, where `url` accepts the IRI's text.
pub fn iri_to_url(iri: &IriString) -> (url: Option<Url>)
    ensures
        match url {
            Some(found) => parsed_url_text(iri_text(*iri)) == Some(url_text(found)),
            None => parsed_url_text(iri_text(*iri)) is None,
        },
{
    let text = iri_to_string(iri);
    if parse_url(text.as_str()).is_ok() {
        Some(iri.into_url())
    } else {
        None
    }
}

/// The URL of a borrowed IRI string, where `url` accepts the IRI's text.
pub fn iri_str_to_url(iri: &IriStr) -> (url: Option<Url>)
    ensures
        match url {
            Some(found) => parsed_url_text(iri_str_text(iri)) == Some(url_text(found)),
            None => parsed_url_text(iri_str_text(iri)) is None,
        },
{
    let text = iri_str_to_string(iri);
    if parse_url(text.as_str()).is_ok() {
        Some(iri.into_url())
    } else {
        None
    }
}

} // verus!
