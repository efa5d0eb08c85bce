//! An extended document hands out the facets of its inner document.

use activity_extensions::capability::{AsApActor, AsBase, AsObject};
use activity_extensions::extensions::security::{PublicKey, PublicKeyExt, PublicKeyValues};
use activitystreams::actor::{ApActor, ApActorExt, Person};
use activitystreams::base::{Base, BaseExt};
use activitystreams::iri_string::types::IriString;
use activitystreams::object::{kind::NoteType, Object, ObjectExt};

fn iri(text: &str) -> IriString {
    text.parse().unwrap()
}

fn sample() -> PublicKeyValues {
    PublicKeyValues {
        id: iri("https://x/key"),
        owner: iri("https://x/actor"),
        public_key_pem: String::from("PEM"),
    }
}

#[test]
fn the_base_of_an_extended_document_is_the_base_of_its_inner_document() {
    let mut base: Base<String> = Base::new();
    base.set_id(iri("https://x/1"));
    let extended = PublicKey { public_key: sample(), inner: base };
    assert!(std::ptr::eq(extended.base_ref(), extended.inner.base_ref()));
    assert_eq!(extended.base_ref().id_unchecked(), extended.inner.id_unchecked());
    assert_eq!(extended.base_ref().id_unchecked().unwrap().as_str(), "https://x/1");
}

#[test]
fn a_change_through_the_base_of_an_extended_document_changes_its_inner_document() {
    let mut extended = PublicKey { public_key: sample(), inner: Base::<String>::new() };
    extended.base_mut().set_id(iri("https://x/2"));
    assert_eq!(extended.inner.id_unchecked().unwrap().as_str(), "https://x/2");
    assert_eq!(extended.key_id().as_str(), "https://x/key");
    assert_eq!(extended.key_pem(), "PEM");

    let mut plain = Base::<String>::new();
    plain.base_mut().set_id(iri("https://x/2"));
    assert_eq!(plain.id_unchecked(), extended.inner.id_unchecked());
}

#[test]
fn the_object_of_an_extended_document_is_the_object_of_its_inner_document() {
    let mut note: Object<NoteType> = Object::new();
    note.set_summary("a summary");
    let mut extended = PublicKey { public_key: sample(), inner: note };
    assert!(std::ptr::eq(extended.object_ref(), extended.inner.object_ref()));
    assert_eq!(
        extended.object_ref().summary().unwrap().as_single_xsd_string(),
        Some("a summary")
    );

    extended.object_mut().set_summary("another");
    assert_eq!(extended.inner.summary().unwrap().as_single_xsd_string(), Some("another"));
    assert_eq!(extended.key_owner().as_str(), "https://x/actor");
}

#[test]
fn the_actor_of_an_extended_document_is_the_actor_of_its_inner_document() {
    let actor = ApActor::new(iri("https://x/inbox"), Person::new());
    let mut extended = PublicKey { public_key: sample(), inner: actor };
    assert!(std::ptr::eq(extended.ap_actor_ref(), extended.inner.ap_actor_ref()));
    assert_eq!(extended.ap_actor_ref().inbox_unchecked().as_str(), "https://x/inbox");

    extended.ap_actor_mut().set_inbox(iri("https://x/inbox2"));
    assert_eq!(extended.inner.inbox_unchecked().as_str(), "https://x/inbox2");
    assert_eq!(extended.key_id().as_str(), "https://x/key");
}

#[test]
fn facets_reach_through_an_extension_around_an_extension() {
    let inner = PublicKey { public_key: sample(), inner: Base::<String>::new() };
    let mut outer = PublicKey { public_key: sample(), inner };
    outer.base_mut().set_id(iri("https://x/3"));
    assert_eq!(outer.inner.inner.id_unchecked().unwrap().as_str(), "https://x/3");
    assert!(std::ptr::eq(outer.base_ref(), &outer.inner.inner));
    assert_eq!(outer.inner.key_pem(), "PEM");
}
