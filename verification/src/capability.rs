//! The capabilities of a document: the facets that a document hands out, typed.
//!
//! `activitystreams` models a document as layers, each a struct around the next one: an
//! actor around an object around a base. A document has a capability where it can hand
//! out the layer of that name. The layers themselves are carried through as they are.

use activitystreams::actor::ApActor;
use activitystreams::base::Base;
use activitystreams::object::Object;
use vstd::prelude::*;

verus! {

/// `activitystreams::base::Base`, carried through as it is.
#[verifier::external_type_specification]
#[verifier::external_body]
#[verifier::reject_recursive_types(Kind)]
pub struct ExBase<Kind>(activitystreams::base::Base<Kind>);

/// `activitystreams::object::Object`, carried through as it is.
#[verifier::external_type_specification]
#[verifier::external_body]
#[verifier::reject_recursive_types(Kind)]
pub struct ExObject<Kind>(activitystreams::object::Object<Kind>);

/// `activitystreams::actor::ApActor`, carried through as it is.
#[verifier::external_type_specification]
#[verifier::external_body]
#[verifier::reject_recursive_types(Inner)]
pub struct ExApActor<Inner>(activitystreams::actor::ApActor<Inner>);

/// A document with the facet that links and objects share: context, id, kind, name,
/// media type and more.
pub trait AsBase: Sized {
    type Kind;

    /// The base of the document.
    spec fn base(&self) -> Base<Self::Kind>;

    /// The same document around another base.
    spec fn with_base(&self, base: Base<Self::Kind>) -> Self;

    /// Borrows the base.
    fn base_ref(&self) -> (base: &Base<Self::Kind>)
        ensures
            *base == self.base(),
    ;

    /// Borrows the base for change. What the caller leaves in it is the document's base
    /// from then on, and nothing else of the document changes.
    fn base_mut(&mut self) -> (base: &mut Base<Self::Kind>)
        ensures
            *base == old(self).base(),
            *final(self) == old(self).with_base(*final(base)),
    ;
}

/// A document with the facet of an object: url, generator, start time, duration and more.
pub trait AsObject: Sized {
    type Kind;

    /// The object of the document.
    spec fn object(&self) -> Object<Self::Kind>;

    /// The same document around another object.
    spec fn with_object(&self, object: Object<Self::Kind>) -> Self;

    /// Borrows the object.
    fn object_ref(&self) -> (object: &Object<Self::Kind>)
        ensures
            *object == self.object(),
    ;

    /// Borrows the object for change. What the caller leaves in it is the document's
    /// object from then on, and nothing else of the document changes.
    fn object_mut(&mut self) -> (object: &mut Object<Self::Kind>)
        ensures
            *object == old(self).object(),
            *final(self) == old(self).with_object(*final(object)),
    ;
}

/// A document with the facet of an ActivityPub actor: inbox, outbox, following,
/// followers, liked, streams, endpoints and more.
pub trait AsApActor: Sized {
    type Inner;

    /// The actor of the document.
    spec fn ap_actor(&self) -> ApActor<Self::Inner>;

    /// The same document around another actor.
    spec fn with_ap_actor(&self, actor: ApActor<Self::Inner>) -> Self;

    /// Borrows the actor.
    fn ap_actor_ref(&self) -> (actor: &ApActor<Self::Inner>)
        ensures
            *actor == self.ap_actor(),
    ;

    /// Borrows the actor for change. What the caller leaves in it is the document's
    /// actor from then on, and nothing else of the document changes.
    fn ap_actor_mut(&mut self) -> (actor: &mut ApActor<Self::Inner>)
        ensures
            *actor == old(self).ap_actor(),
            *final(self) == old(self).with_ap_actor(*final(actor)),
    ;
}

/// A base is its own base.
impl<Kind> AsBase for Base<Kind> {
    type Kind = Kind;

    open spec fn base(&self) -> Base<Kind> {
        *self
    }

    open spec fn with_base(&self, base: Base<Kind>) -> Self {
        base
    }

    fn base_ref(&self) -> (base: &Base<Kind>) {
        self
    }

    fn base_mut(&mut self) -> (base: &mut Base<Kind>) {
        self
    }
}

/// An object is its own object.
impl<Kind> AsObject for Object<Kind> {
    type Kind = Kind;

    open spec fn object(&self) -> Object<Kind> {
        *self
    }

    open spec fn with_object(&self, object: Object<Kind>) -> Self {
        object
    }

    fn object_ref(&self) -> (object: &Object<Kind>) {
        self
    }

    fn object_mut(&mut self) -> (object: &mut Object<Kind>) {
        self
    }
}

/// An actor is its own actor.
impl<Inner> AsApActor for ApActor<Inner> {
    type Inner = Inner;

    open spec fn ap_actor(&self) -> ApActor<Inner> {
        *self
    }

    open spec fn with_ap_actor(&self, actor: ApActor<Inner>) -> Self {
        actor
    }

    fn ap_actor_ref(&self) -> (actor: &ApActor<Inner>) {
        self
    }

    fn ap_actor_mut(&mut self) -> (actor: &mut ApActor<Inner>) {
        self
    }
}

} // verus!
