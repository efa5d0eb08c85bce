//! The public key block of the security vocabulary, as an extension of any document.
//!
//! A document holds the block under the property `publicKey`. Extending a document takes
//! the block out of the document's bag of unparsed properties into typed fields;
//! retracting puts it back. Between the two the block lives in exactly one place.

use crate::capability::{AsApActor, AsBase, AsObject};
use crate::iri::{iri_clone, iri_text, iri_to_string, is_iri, parse_iri};
use crate::json::{
    json_view, list_views, members_of, pair_views, value_as_array, value_as_str,
    value_from_pairs, value_from_string, value_get, Json,
};
use crate::unparsed::{bag_discard, bag_entries, bag_insert, bag_snapshot, UnparsedMut};
use activitystreams::actor::ApActor;
use activitystreams::base::Base;
use activitystreams::iri_string::types::IriString;
use activitystreams::object::Object;
use activitystreams::unparsed::Unparsed;
use serde_json::Value;
use vstd::prelude::*;
use vstd::std_specs::convert::IntoSpec;

verus! {

/// The property name that the extension owns in a document's bag.
pub const PUBLIC_KEY: &'static str = "publicKey";

/// Why a document could not be extended.
#[derive(Clone, Copy, Debug, PartialEq, Eq, Structural)]
pub enum DecodeError {
    /// The document holds nothing under the reserved name.
    MissingField,
    /// What the document holds under the reserved name does not have the shape of the
    /// typed fields.
    MalformedField,
}

/// Why typed fields could not be put back into a document.
#[derive(Clone, Copy, Debug, PartialEq, Eq, Structural)]
pub enum EncodeError {
    /// The document already holds something under the reserved name.
    KeyCollision,
}

/// The typed fields of a public key block.
#[derive(Debug)]
pub struct PublicKeyValues {
    pub id: IriString,
    pub owner: IriString,
    pub public_key_pem: String,
}

/// What a public key block states: the texts of its three fields.
pub struct KeyFields {
    pub id: Seq<char>,
    pub owner: Seq<char>,
    pub public_key_pem: Seq<char>,
}

impl View for PublicKeyValues {
    type V = KeyFields;

    open spec fn view(&self) -> KeyFields {
        KeyFields {
            id: iri_text(self.id),
            owner: iri_text(self.owner),
            public_key_pem: self.public_key_pem@,
        }
    }
}

impl Clone for PublicKeyValues {
    fn clone(&self) -> (cloned: Self)
        ensures
            cloned == *self,
    {
        PublicKeyValues {
            id: iri_clone(&self.id),
            owner: iri_clone(&self.owner),
            public_key_pem: self.public_key_pem.clone(),
        }
    }
}

impl KeyFields {
    /// Whether the identifier and the owner are IRIs, as they are in every block that
    /// exists at run time.
    pub open spec fn well_formed(self) -> bool {
        is_iri(self.id) && is_iri(self.owner)
    }
}

/// The text of a JSON string that is an IRI.
pub open spec fn iri_of(value: Json) -> Option<Seq<char>> {
    match value {
        Json::Text(text) => if is_iri(text) {
            Some(text)
        } else {
            None
        },
        _ => None,
    }
}

/// The text of a JSON string.
pub open spec fn text_of(value: Json) -> Option<Seq<char>> {
    match value {
        Json::Text(text) => Some(text),
        _ => None,
    }
}

/// The member of that name, and JSON null where the object has none.
pub open spec fn member(members: Map<Seq<char>, Json>, name: Seq<char>) -> Json {
    if members.contains_key(name) {
        members[name]
    } else {
        Json::Null
    }
}

/// The block that three JSON values state, where the first two are IRIs and the third is a
/// string.
pub open spec fn decode_fields(id: Json, owner: Json, pem: Json) -> Option<KeyFields> {
    match (iri_of(id), iri_of(owner), text_of(pem)) {
        (Some(id), Some(owner), Some(pem)) => Some(
            KeyFields { id: id, owner: owner, public_key_pem: pem },
        ),
        _ => None,
    }
}

/// The block that a JSON value states, if it has the shape of one: an object with the
/// members `id`, `owner` and `publicKeyPem`, whatever else it holds, or an array of just
/// these three in this order.
pub open spec fn decode(value: Json) -> Option<KeyFields> {
    match value {
        Json::Object(members) => decode_fields(
            member(members, "id"@),
            member(members, "owner"@),
            member(members, "publicKeyPem"@),
        ),
        Json::List(items) => if items.len() == 3 {
            decode_fields(items[0], items[1], items[2])
        } else {
            None
        },
        _ => None,
    }
}

/// The JSON object that states a block: its three members and no other.
pub open spec fn encode(fields: KeyFields) -> Json {
    Json::Object(
        Map::empty().insert("id"@, Json::Text(fields.id)).insert(
            "owner"@,
            Json::Text(fields.owner),
        ).insert("publicKeyPem"@, Json::Text(fields.public_key_pem)),
    )
}

/// The three member names of a block differ from one another.
pub proof fn lemma_member_names_differ()
    ensures
        "id"@ != "owner"@,
        "id"@ != "publicKeyPem"@,
        "owner"@ != "publicKeyPem"@,
{
    reveal_strlit("id");
    reveal_strlit("owner");
    reveal_strlit("publicKeyPem");
    assert("id"@.len() == 2);
    assert("owner"@.len() == 5);
    assert("publicKeyPem"@.len() == 12);
}

/// Taking a block out of the entries of a bag: the block that the entry of that name
/// states, with the entries that are left.
pub open spec fn decomposed(entries: Map<Seq<char>, Json>, key: Seq<char>) -> Result<
    (KeyFields, Map<Seq<char>, Json>),
    DecodeError,
> {
    if !entries.contains_key(key) {
        Err(DecodeError::MissingField)
    } else {
        match decode(entries[key]) {
            Some(fields) => Ok((fields, entries.remove(key))),
            None => Err(DecodeError::MalformedField),
        }
    }
}

/// Putting a block into the entries of a bag under a name that is free.
pub open spec fn composed(fields: KeyFields, entries: Map<Seq<char>, Json>, key: Seq<char>) -> Result<
    Map<Seq<char>, Json>,
    EncodeError,
> {
    if entries.contains_key(key) {
        Err(EncodeError::KeyCollision)
    } else {
        Ok(entries.insert(key, encode(fields)))
    }
}

/// Reads a JSON string that is an IRI.
fn read_iri(value: &Value) -> (iri: Option<IriString>)
    ensures
        match iri_of(json_view(*value)) {
            Some(text) => iri matches Some(found) && iri_text(found) == text,
            None => iri is None,
        },
{
    match value_as_str(value) {
        Some(text) => match parse_iri(text) {
            Ok(iri) => Some(iri),
            Err(_) => None,
        },
        None => None,
    }
}

/// Reads the three fields of a block from the values that state them.
fn read_fields(id: &Value, owner: &Value, pem: &Value) -> (values: Option<PublicKeyValues>)
    ensures
        match decode_fields(json_view(*id), json_view(*owner), json_view(*pem)) {
            Some(fields) => values matches Some(found) && found@ == fields,
            None => values is None,
        },
{
    let id = read_iri(id);
    let owner = read_iri(owner);
    let pem = value_as_str(pem);
    match (id, owner, pem) {
        (Some(id), Some(owner), Some(pem)) => Some(
            PublicKeyValues { id, owner, public_key_pem: pem.to_owned() },
        ),
        _ => None,
    }
}

impl PublicKeyValues {
    /// Reads a block from the JSON value that states it. Members that the block does not
    /// know are passed over.
    pub fn from_value(value: &Value) -> (values: Option<PublicKeyValues>)
        ensures
            match decode(json_view(*value)) {
                Some(fields) => values matches Some(found) && found@ == fields,
                None => values is None,
            },
    {
        if let Some(items) = value_as_array(value) {
            if items.len() == 3 {
                assert(list_views(items@)[0] == json_view(items@[0]));
                assert(list_views(items@)[1] == json_view(items@[1]));
                assert(list_views(items@)[2] == json_view(items@[2]));
                read_fields(&items[0], &items[1], &items[2])
            } else {
                None
            }
        } else {
            let id = value_get(value, "id");
            let owner = value_get(value, "owner");
            let pem = value_get(value, "publicKeyPem");
            match (id, owner, pem) {
                (Some(id), Some(owner), Some(pem)) => read_fields(id, owner, pem),
                _ => None,
            }
        }
    }

    /// Writes the block as the JSON object of its three members. The identifier and the
    /// owner of a block that can be written are IRIs.
    pub fn to_value(&self) -> (value: Value)
        ensures
            json_view(value) == encode(self@),
            self@.well_formed(),
    {
        let mut pairs: Vec<(String, Value)> = Vec::new();
        pairs.push(("id".to_owned(), value_from_string(iri_to_string(&self.id))));
        pairs.push(("owner".to_owned(), value_from_string(iri_to_string(&self.owner))));
        pairs.push(("publicKeyPem".to_owned(), value_from_string(self.public_key_pem.clone())));
        proof {
            lemma_member_names_differ();
            let views = pair_views(pairs@);
            assert(views.drop_last().drop_last().drop_last().len() == 0);
            reveal_with_fuel(members_of, 4);
            assert(Json::Object(members_of(views)) == encode(self@));
        }
        value_from_pairs(pairs)
    }

    /// Takes the block that a bag holds under a name out of the bag.
    ///
    /// The entry leaves the bag whether or not it has the shape of a block.
    pub fn remove_from(bag: &mut Unparsed, key: &str) -> (removed: Result<
        PublicKeyValues,
        DecodeError,
    >)
        ensures
            bag_entries(*final(bag)) == bag_entries(*old(bag)).remove(key@),
            match decomposed(bag_entries(*old(bag)), key@) {
                Ok((fields, _)) => removed matches Ok(values) && values@ == fields,
                Err(error) => removed matches Err(found) && found == error,
            },
    {
        let removed = match bag_snapshot(bag) {
            Ok(snapshot) => match value_get(&snapshot, key) {
                Some(value) => match PublicKeyValues::from_value(value) {
                    Some(values) => Ok(values),
                    None => Err(DecodeError::MalformedField),
                },
                None => Err(DecodeError::MissingField),
            },
            Err(_) => Err(DecodeError::MalformedField),
        };
        bag_discard(bag, key);
        removed
    }

    /// Puts the block into a bag under a name that the bag does not hold yet. A bag that
    /// holds the name stays as it is.
    pub fn insert_into(&self, bag: &mut Unparsed, key: &str) -> (inserted: Result<
        (),
        EncodeError,
    >)
        ensures
            match composed(self@, bag_entries(*old(bag)), key@) {
                Ok(entries) => inserted is Ok && bag_entries(*final(bag)) == entries,
                Err(error) => inserted == Err::<(), EncodeError>(error) && bag_entries(
                    *final(bag),
                ) == bag_entries(*old(bag)),
            },
    {
        let free = match bag_snapshot(bag) {
            Ok(snapshot) => value_get(&snapshot, key).is_none(),
            Err(_) => false,
        };
        if free {
            bag_insert(bag, key, self.to_value());
            Ok(())
        } else {
            Err(EncodeError::KeyCollision)
        }
    }
}

/// A document extended by a public key block.
///
/// The block is held in `public_key`, apart from the document: the bag of `inner` holds
/// nothing under `publicKey` from `extends` until `retracts`.
#[derive(Debug)]
pub struct PublicKey<Inner> {
    pub public_key: PublicKeyValues,
    pub inner: Inner,
}

impl<Inner: Clone> Clone for PublicKey<Inner> {
    /// The block is the same again; the inner document is what its own `clone` makes of
    /// it.
    fn clone(&self) -> (cloned: Self)
        ensures
            cloned.public_key == self.public_key,
            vstd::pervasive::cloned::<Inner>(self.inner, cloned.inner),
    {
        PublicKey { public_key: self.public_key.clone(), inner: self.inner.clone() }
    }
}

impl<Inner: UnparsedMut> PublicKey<Inner> {
    /// Whether the block lives in the typed fields alone: the bag of the inner document
    /// holds nothing under `publicKey`. This holds from `extends` on, until something
    /// else writes that entry into the bag, and `retracts` goes through exactly where it
    /// holds.
    pub open spec fn is_decomposed(self) -> bool {
        !bag_entries(self.inner.unparsed()).contains_key(PUBLIC_KEY@)
    }

    /// Whether this is `document` extended: the block is the one that the document held,
    /// and the inner document is the document without that entry.
    pub open spec fn extends_from(self, document: Inner) -> bool {
        &&& decomposed(bag_entries(document.unparsed()), PUBLIC_KEY@) matches Ok((fields, rest))
        &&& self.public_key@ == fields
        &&& bag_entries(self.inner.unparsed()) == rest
        &&& self.inner == document.with_unparsed(self.inner.unparsed())
    }

    /// Whether `document` is this retracted: the inner document with the block added to
    /// its bag.
    pub open spec fn retracts_into(self, document: Inner) -> bool {
        &&& composed(self.public_key@, bag_entries(self.inner.unparsed()), PUBLIC_KEY@) matches Ok(
            entries,
        )
        &&& bag_entries(document.unparsed()) == entries
        &&& document == self.inner.with_unparsed(document.unparsed())
    }

    /// Extends a document: takes its public key block out of its bag.
    ///
    /// The document must hold a block under `publicKey`: without the entry the result is
    /// `MissingField`, with an entry of another shape `MalformedField`. What is left of
    /// the document is the inner document of the result, unchanged but for that entry.
    pub fn extends(inner: Inner) -> (extended: Result<Self, DecodeError>)
        ensures
            match extended {
                Ok(found) => found.extends_from(inner) && found.is_decomposed(),
                Err(error) => decomposed(bag_entries(inner.unparsed()), PUBLIC_KEY@) matches Err(
                    expected,
                ) && error == expected,
            },
            !bag_entries(inner.unparsed()).contains_key(PUBLIC_KEY@) ==> extended matches Err(
                DecodeError::MissingField,
            ),
    {
        let mut inner = inner;
        let ghost before = inner;
        let bag = inner.unparsed_mut();
        let removed = PublicKeyValues::remove_from(bag, PUBLIC_KEY);
        let ghost after = *bag;
        proof {
            before.lemma_with_unparsed(after);
        }
        match removed {
            Ok(public_key) => Ok(PublicKey { public_key, inner }),
            Err(error) => Err(error),
        }
    }

    /// Retracts the extension: puts the block back into the bag of the inner document,
    /// and hands that document out.
    ///
    /// The block is never written over what the bag already holds under `publicKey`:
    /// then the result is `KeyCollision`. A bag keeps its entries in no order, so the
    /// block may be written out at another place among them than it was read from.
    pub fn retracts(self) -> (retracted: Result<Inner, EncodeError>)
        ensures
            match retracted {
                Ok(found) => self.retracts_into(found),
                Err(error) => composed(
                    self.public_key@,
                    bag_entries(self.inner.unparsed()),
                    PUBLIC_KEY@,
                ) matches Err(expected) && error == expected,
            },
            !self.is_decomposed() ==> retracted matches Err(EncodeError::KeyCollision),
            self.is_decomposed() ==> retracted is Ok,
    {
        let PublicKey { public_key, mut inner } = self;
        let ghost before = inner;
        let bag = inner.unparsed_mut();
        let inserted = public_key.insert_into(bag, PUBLIC_KEY);
        let ghost after = *bag;
        proof {
            before.lemma_with_unparsed(after);
        }
        match inserted {
            Ok(()) => Ok(inner),
            Err(error) => Err(error),
        }
    }
}

/// An extended document carries the bag of its inner document.
impl<Inner: UnparsedMut> UnparsedMut for PublicKey<Inner> {
    open spec fn unparsed(&self) -> Unparsed {
        self.inner.unparsed()
    }

    open spec fn with_unparsed(&self, bag: Unparsed) -> Self {
        PublicKey { public_key: self.public_key, inner: self.inner.with_unparsed(bag) }
    }

    fn unparsed_mut(&mut self) -> (bag: &mut Unparsed) {
        self.inner.unparsed_mut()
    }

    proof fn lemma_with_unparsed(&self, bag: Unparsed) {
        self.inner.lemma_with_unparsed(bag);
        assert forall|other: Unparsed|
            #[trigger] self.with_unparsed(bag).with_unparsed(other) == self.with_unparsed(
                other,
            ) by {
            self.inner.lemma_with_unparsed(bag);
        }
    }
}

/// An extended document has a base where its inner document has one, and hands out that one.
impl<Inner: AsBase> AsBase for PublicKey<Inner> {
    type Kind = Inner::Kind;

    open spec fn base(&self) -> Base<Self::Kind> {
        self.inner.base()
    }

    open spec fn with_base(&self, base: Base<Self::Kind>) -> Self {
        PublicKey { public_key: self.public_key, inner: self.inner.with_base(base) }
    }

    fn base_ref(&self) -> (base: &Base<Self::Kind>)
        ensures
            *base == self.inner.base(),
    {
        self.inner.base_ref()
    }

    fn base_mut(&mut self) -> (base: &mut Base<Self::Kind>)
        ensures
            *base == old(self).inner.base(),
            final(self).inner == old(self).inner.with_base(*final(base)),
            final(self).public_key == old(self).public_key,
    {
        self.inner.base_mut()
    }
}

/// An extended document has an object where its inner document has one, and hands out that
/// one.
impl<Inner: AsObject> AsObject for PublicKey<Inner> {
    type Kind = Inner::Kind;

    open spec fn object(&self) -> Object<Self::Kind> {
        self.inner.object()
    }

    open spec fn with_object(&self, object: Object<Self::Kind>) -> Self {
        PublicKey { public_key: self.public_key, inner: self.inner.with_object(object) }
    }

    fn object_ref(&self) -> (object: &Object<Self::Kind>)
        ensures
            *object == self.inner.object(),
    {
        self.inner.object_ref()
    }

    fn object_mut(&mut self) -> (object: &mut Object<Self::Kind>)
        ensures
            *object == old(self).inner.object(),
            final(self).inner == old(self).inner.with_object(*final(object)),
            final(self).public_key == old(self).public_key,
    {
        self.inner.object_mut()
    }
}

/// An extended document has an actor where its inner document has one, and hands out that
/// one.
impl<Inner: AsApActor> AsApActor for PublicKey<Inner> {
    type Inner = Inner::Inner;

    open spec fn ap_actor(&self) -> ApActor<Self::Inner> {
        self.inner.ap_actor()
    }

    open spec fn with_ap_actor(&self, actor: ApActor<Self::Inner>) -> Self {
        PublicKey { public_key: self.public_key, inner: self.inner.with_ap_actor(actor) }
    }

    fn ap_actor_ref(&self) -> (actor: &ApActor<Self::Inner>)
        ensures
            *actor == self.inner.ap_actor(),
    {
        self.inner.ap_actor_ref()
    }

    fn ap_actor_mut(&mut self) -> (actor: &mut ApActor<Self::Inner>)
        ensures
            *actor == old(self).inner.ap_actor(),
            final(self).inner == old(self).inner.with_ap_actor(*final(actor)),
            final(self).public_key == old(self).public_key,
    {
        self.inner.ap_actor_mut()
    }
}

impl<Inner> PublicKey<Inner> {
    /// The same extended document with another identifier in its block.
    pub open spec fn with_key_id(self, id: IriString) -> Self {
        PublicKey { public_key: PublicKeyValues { id: id, ..self.public_key }, ..self }
    }

    /// The same extended document with another owner in its block.
    pub open spec fn with_key_owner(self, owner: IriString) -> Self {
        PublicKey { public_key: PublicKeyValues { owner: owner, ..self.public_key }, ..self }
    }

    /// The same extended document with another key in its block.
    pub open spec fn with_key_pem(self, pem: String) -> Self {
        PublicKey { public_key: PublicKeyValues { public_key_pem: pem, ..self.public_key }, ..self }
    }
}

/// A value that holds an extended document, and hands it out.
///
/// An extension that wraps an extended document implements this, and so lends the
/// accessors of [`PublicKeyExt`] to its own type.
pub trait AsPublicKey<Inner>: Sized {
    /// The extended document that the value holds.
    spec fn public_key(&self) -> PublicKey<Inner>;

    /// The same value around another extended document.
    spec fn with_public_key(&self, extended: PublicKey<Inner>) -> Self;

    /// Borrows the extended document.
    fn public_key_ref(&self) -> (extended: &PublicKey<Inner>)
        ensures
            *extended == self.public_key(),
    ;

    /// Borrows the extended document for change. What the caller leaves in it is what the
    /// value holds from then on, and nothing else of the value changes.
    fn public_key_mut(&mut self) -> (extended: &mut PublicKey<Inner>)
        ensures
            *extended == old(self).public_key(),
            *final(self) == old(self).with_public_key(*final(extended)),
    ;

    /// A value around an extended document holds that document.
    proof fn lemma_with_public_key(&self, extended: PublicKey<Inner>)
        ensures
            self.with_public_key(extended).public_key() == extended,
    ;
}

impl<Inner> AsPublicKey<Inner> for PublicKey<Inner> {
    open spec fn public_key(&self) -> PublicKey<Inner> {
        *self
    }

    open spec fn with_public_key(&self, extended: PublicKey<Inner>) -> Self {
        extended
    }

    fn public_key_ref(&self) -> (extended: &Self) {
        self
    }

    fn public_key_mut(&mut self) -> (extended: &mut Self) {
        self
    }

    proof fn lemma_with_public_key(&self, extended: PublicKey<Inner>) {
    }
}

/// Getters and setters for the fields of the block, on every value that holds an extended
/// document.
pub trait PublicKeyExt<Inner>: AsPublicKey<Inner> {
    /// Borrow the public key's ID
    fn key_id<'a>(&'a self) -> (id: &'a IriString) where Inner: 'a
        ensures
            *id == self.public_key().public_key.id,
    {
        &self.public_key_ref().public_key.id
    }

    /// Set the public key's ID
    fn set_key_id(&mut self, id: IriString) -> (this: &mut Self)
        ensures
            *this == old(self).with_public_key(old(self).public_key().with_key_id(id)),
            this.public_key() == old(self).public_key().with_key_id(id),
            *final(self) == *final(this),
    {
        proof {
            self.lemma_with_public_key(self.public_key().with_key_id(id));
        }
        self.public_key_mut().public_key.id = id;
        self
    }

    /// Borrow the public key's Owner
    fn key_owner<'a>(&'a self) -> (owner: &'a IriString) where Inner: 'a
        ensures
            *owner == self.public_key().public_key.owner,
    {
        &self.public_key_ref().public_key.owner
    }

    /// Set the public key's Owner
    fn set_key_owner(&mut self, owner: IriString) -> (this: &mut Self)
        ensures
            *this == old(self).with_public_key(old(self).public_key().with_key_owner(owner)),
            this.public_key() == old(self).public_key().with_key_owner(owner),
            *final(self) == *final(this),
    {
        proof {
            self.lemma_with_public_key(self.public_key().with_key_owner(owner));
        }
        self.public_key_mut().public_key.owner = owner;
        self
    }

    /// Borrow the public key's PEM encoded value
    fn key_pem<'a>(&'a self) -> (pem: &'a str) where Inner: 'a
        ensures
            pem@ == self.public_key().public_key.public_key_pem@,
    {
        self.public_key_ref().public_key.public_key_pem.as_str()
    }

    /// Set the public key's PEM encoded value
    ///
    /// The new value is the text that `pem` converts into. Nothing else changes.
    fn set_key_pem<T>(&mut self, pem: T) -> (this: &mut Self) where T: Into<String>
        ensures
            exists|text: String|
                {
                    &&& T::obeys_into_spec() ==> text == pem.into_spec()
                    &&& *this == old(self).with_public_key(
                        #[trigger] old(self).public_key().with_key_pem(text),
                    )
                    &&& this.public_key() == old(self).public_key().with_key_pem(text)
                },
            *final(self) == *final(this),
    {
        let ghost before = self.public_key();
        let text: String = pem.into();
        let ghost witness = text;
        proof {
            self.lemma_with_public_key(before.with_key_pem(witness));
        }
        self.public_key_mut().public_key.public_key_pem = text;
        assert(*self == old(self).with_public_key(before.with_key_pem(witness)));
        self
    }
}

/// Every value that holds an extended document has the accessors.
impl<T, Inner> PublicKeyExt<Inner> for T where T: AsPublicKey<Inner> {

}

} // verus!
