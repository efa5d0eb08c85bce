//! The open property bag of a document, and the documents that carry one.
//!
//! `activitystreams` keeps every property that a typed document does not model in an
//! `Unparsed`. Its interface hands a missing entry out as JSON null and reads a stored
//! value back through a deserializer. The functions here go by a snapshot of the bag
//! instead, which shows the entries as they are.

use crate::json::{json_view, Json};
use activitystreams::unparsed::{Unparsed, UnparsedMutExt};
use serde_json::Value;
use vstd::prelude::*;

verus! {

/// `activitystreams::unparsed::Unparsed`, carried through as it is.
#[verifier::external_type_specification]
#[verifier::external_body]
pub struct ExUnparsed(activitystreams::unparsed::Unparsed);

/// `serde_json::Error`, which no function of this crate looks into.
#[verifier::external_type_specification]
#[verifier::external_body]
pub struct ExJsonError(serde_json::Error);

/// The entries of a bag: the property names that it holds, each with its value.
pub uninterp spec fn bag_entries(bag: Unparsed) -> Map<Seq<char>, Json>;

/// `serde_json::to_value` of a bag: the JSON object whose members are the bag's entries.
/// It never fails: a bag is a map from strings to JSON values, and each of these
/// serializes into itself.
#[verifier::external_body]
pub(crate) fn bag_snapshot(bag: &Unparsed) -> (snapshot: Result<Value, serde_json::Error>)
    ensures
        match snapshot {
            Ok(value) => json_view(value) == Json::Object(bag_entries(*bag)),
            Err(_) => false,
        },
{
    serde_json::to_value(bag)
}

/// `UnparsedMutExt::remove` into `serde::de::IgnoredAny`: the entry of that name leaves the
/// bag, if there is one, and whatever it held is dropped unread.
#[verifier::external_body]
pub(crate) fn bag_discard(bag: &mut Unparsed, key: &str)
    ensures
        bag_entries(*final(bag)) == bag_entries(*old(bag)).remove(key@),
{
    let _ = UnparsedMutExt::remove::<serde::de::IgnoredAny>(bag, key);
}

/// `UnparsedMutExt::insert` of a `serde_json::Value`: the bag binds the name to the value,
/// in place of what it held there, unless the value is JSON null: then the bag stays as it
/// is.
#[verifier::external_body]
pub(crate) fn bag_insert(bag: &mut Unparsed, key: &str, value: Value)
    ensures
        bag_entries(*final(bag)) == if json_view(value) is Null {
            bag_entries(*old(bag))
        } else {
            bag_entries(*old(bag)).insert(key@, json_view(value))
        },
{
    let _ = UnparsedMutExt::insert(bag, key, value);
}

/// A document that carries a bag of unparsed properties.
pub trait UnparsedMut: Sized {
    /// The bag that the document carries.
    spec fn unparsed(&self) -> Unparsed;

    /// The same document around another bag.
    spec fn with_unparsed(&self, bag: Unparsed) -> Self;

    /// Borrows the bag. What the caller leaves in it is the document's bag from then on,
    /// and nothing else of the document changes.
    fn unparsed_mut(&mut self) -> (bag: &mut Unparsed)
        ensures
            *bag == old(self).unparsed(),
            *final(self) == old(self).with_unparsed(*final(bag)),
    ;

    /// A document around a bag carries that bag, and is the same document around any
    /// other. A document around its own bag is itself.
    proof fn lemma_with_unparsed(&self, bag: Unparsed)
        ensures
            self.with_unparsed(bag).unparsed() == bag,
            forall|other: Unparsed|
                #[trigger] self.with_unparsed(bag).with_unparsed(other) == self.with_unparsed(
                    other,
                ),
            self.with_unparsed(self.unparsed()) == *self,
    ;
}

/// A bag is the least document: it carries itself.
impl UnparsedMut for Unparsed {
    open spec fn unparsed(&self) -> Unparsed {
        *self
    }

    open spec fn with_unparsed(&self, bag: Unparsed) -> Self {
        bag
    }

    fn unparsed_mut(&mut self) -> (bag: &mut Unparsed) {
        self
    }

    proof fn lemma_with_unparsed(&self, bag: Unparsed) {
    }
}

} // verus!
