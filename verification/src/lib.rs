//! Typed extensions over the open property bag of an ActivityStreams document.
//!
//! An ActivityStreams document has a closed set of well-known properties and an open bag
//! of all the others. An extension claims one property name of the bag and gives what is
//! held there a type: extending a document takes the value out of the bag into typed
//! fields, retracting puts it back. Whatever else the bag holds goes through untouched.
//!
//! - [`extensions::security`] is the extension of this crate: the public key block, its
//!   typed fields, the extended document and the accessors.
//! - [`extensions::laws`] states what holds of extending and retracting: the round trip,
//!   extensions side by side, and that what was set is what is written.
//! - [`unparsed`] is the bag, and the documents that carry one.
//! - [`capability`] holds the facets that an extended document hands on from its inner
//!   document.
//! - [`json`] and [`iri`] are the models of the values of `serde_json`, `iri-string` and
//!   `url` that the contracts speak of, with the few functions of those crates that the
//!   logic rests on.
//! - [`util`] converts between URLs and IRI strings.
//! - [`response`] is the header of a response that carries such a document.

pub mod capability;
pub mod extensions;
pub mod iri;
pub mod json;
pub mod response;
pub mod unparsed;
pub mod util;
