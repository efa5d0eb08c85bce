//! What holds of extending and retracting, whatever the document.
//!
//! The laws are stated over the entries of a bag and the texts of a block, as the
//! contracts of [`PublicKey::extends`] and [`PublicKey::retracts`] are, and over any
//! property name, so that they also speak of two extensions side by side in one bag.

use crate::extensions::security::{
    composed, decode, decomposed, encode, lemma_member_names_differ, member, AsPublicKey,
    KeyFields, PublicKey, PUBLIC_KEY,
};
use crate::iri::iri_text;
use crate::json::Json;
use crate::unparsed::{bag_entries, UnparsedMut};
use activitystreams::iri_string::types::IriString;
use vstd::prelude::*;

verus! {

/// Whether a JSON value states a block and nothing else: an object of the three members
/// of a block, in which the identifier and the owner are IRIs.
pub open spec fn is_canonical(value: Json) -> bool {
    &&& value matches Json::Object(members)
    &&& members.dom() == set!["id"@, "owner"@, "publicKeyPem"@]
    &&& decode(value) is Some
}

/// The member of that name in the object that the entries hold under a property name,
/// and JSON null where there is no such object or no such member.
pub open spec fn block_member(
    entries: Map<Seq<char>, Json>,
    key: Seq<char>,
    name: Seq<char>,
) -> Json {
    match member(entries, key) {
        Json::Object(members) => member(members, name),
        _ => Json::Null,
    }
}

/// Whether taking the block of that name out of the entries gives these fields and
/// leaves those entries.
pub open spec fn takes_out(
    entries: Map<Seq<char>, Json>,
    key: Seq<char>,
    fields: KeyFields,
    rest: Map<Seq<char>, Json>,
) -> bool {
    decomposed(entries, key) matches Ok((found, left)) && found == fields && left == rest
}

/// A block that is written can be read, and reads as it was written. What is written is
/// canonical.
pub proof fn law_decode_encode(fields: KeyFields)
    requires
        fields.well_formed(),
    ensures
        decode(encode(fields)) == Some(fields),
        is_canonical(encode(fields)),
{
    lemma_member_names_differ();
    let members = encode(fields)->Object_0;
    assert(members.dom() =~= set!["id"@, "owner"@, "publicKeyPem"@]);
}

/// A canonical value that is read and written again is the same value.
pub proof fn law_encode_decode(value: Json)
    requires
        is_canonical(value),
    ensures
        encode(decode(value)->0) == value,
{
    lemma_member_names_differ();
    let members = value->Object_0;
    let written = encode(decode(value)->0)->Object_0;
    assert(written =~= members);
}

/// Only a canonical value is written back as it was read: a value with a member that the
/// block does not know, or in the form of an array, comes back without the one and as an
/// object.
pub proof fn law_encode_decode_only_canonical(value: Json)
    requires
        decode(value) is Some,
        encode(decode(value)->0) == value,
    ensures
        is_canonical(value),
{
    law_decode_encode(decode(value)->0);
}

/// Round trip: taking the block out of a bag and putting it back gives the bag as it
/// was, entry for entry, where the bag held a canonical block. The entries are a map:
/// the law says nothing of the order in which a bag is written out.
pub proof fn law_round_trip(entries: Map<Seq<char>, Json>, key: Seq<char>)
    requires
        entries.contains_key(key),
        is_canonical(entries[key]),
    ensures
        decomposed(entries, key) matches Ok((fields, rest)) && composed(fields, rest, key)
            matches Ok(full) && full == entries,
{
    law_encode_decode(entries[key]);
    let fields = decode(entries[key])->0;
    assert(entries.remove(key).insert(key, encode(fields)) =~= entries);
}

/// A round trip gives the bag back only where the block was canonical.
pub proof fn law_round_trip_only_canonical(entries: Map<Seq<char>, Json>, key: Seq<char>)
    requires
        decomposed(entries, key) matches Ok((fields, rest)) && composed(fields, rest, key)
            matches Ok(full) && full == entries,
    ensures
        entries.contains_key(key),
        is_canonical(entries[key]),
{
    let fields = decode(entries[key])->0;
    assert(entries.remove(key).insert(key, encode(fields))[key] == encode(fields));
    law_encode_decode_only_canonical(entries[key]);
}

/// The other way round: putting a block into a bag and taking it out again gives the
/// block and the bag as they were.
pub proof fn law_retract_then_extend(
    fields: KeyFields,
    entries: Map<Seq<char>, Json>,
    key: Seq<char>,
)
    requires
        fields.well_formed(),
        !entries.contains_key(key),
    ensures
        composed(fields, entries, key) matches Ok(full) && takes_out(full, key, fields, entries),
{
    law_decode_encode(fields);
    assert(entries.insert(key, encode(fields)).remove(key) =~= entries);
}

/// Two extensions side by side: two blocks put into one bag under two different names
/// are both in the bag, and taking them out, in either order, recovers both blocks and
/// the bag.
pub proof fn law_nested_extensions(
    first: KeyFields,
    second: KeyFields,
    entries: Map<Seq<char>, Json>,
    first_key: Seq<char>,
    second_key: Seq<char>,
)
    requires
        first_key != second_key,
        first.well_formed(),
        second.well_formed(),
        !entries.contains_key(first_key),
        !entries.contains_key(second_key),
    ensures
        composed(first, entries, first_key) matches Ok(one) && composed(second, one, second_key)
            matches Ok(both) && {
            &&& both.contains_key(first_key)
            &&& both.contains_key(second_key)
            &&& takes_out(both, second_key, second, one)
            &&& takes_out(one, first_key, first, entries)
            &&& takes_out(both, first_key, first, entries.insert(second_key, encode(second)))
            &&& takes_out(entries.insert(second_key, encode(second)), second_key, second, entries)
        },
{
    law_decode_encode(first);
    law_decode_encode(second);
    let one = entries.insert(first_key, encode(first));
    let both = one.insert(second_key, encode(second));
    assert(both.remove(second_key) =~= one);
    assert(one.remove(first_key) =~= entries);
    assert(both.remove(first_key) =~= entries.insert(second_key, encode(second)));
    assert(entries.insert(second_key, encode(second)).remove(second_key) =~= entries);
}

/// What is retracted is the block as it stands: its three members are the texts that the
/// fields hold when the extension is retracted.
pub proof fn law_retract_writes_fields(
    fields: KeyFields,
    entries: Map<Seq<char>, Json>,
    key: Seq<char>,
)
    requires
        !entries.contains_key(key),
    ensures
        composed(fields, entries, key) matches Ok(full) && {
            &&& block_member(full, key, "id"@) == Json::Text(fields.id)
            &&& block_member(full, key, "owner"@) == Json::Text(fields.owner)
            &&& block_member(full, key, "publicKeyPem"@) == Json::Text(fields.public_key_pem)
        },
{
    lemma_member_names_differ();
}

/// Extending a document and retracting the result gives the document back: its bag holds
/// the entries that it held, and nothing else of the document has changed. This holds
/// where the document held a canonical block. The retraction never collides.
pub proof fn law_round_trip_document<Inner: UnparsedMut>(
    document: Inner,
    extended: PublicKey<Inner>,
    retracted: Inner,
)
    requires
        extended.extends_from(document),
    ensures
        composed(extended.public_key@, bag_entries(extended.inner.unparsed()), PUBLIC_KEY@) is Ok,
        extended.retracts_into(retracted) ==> retracted == document.with_unparsed(
            retracted.unparsed(),
        ),
        extended.retracts_into(retracted) && is_canonical(
            member(bag_entries(document.unparsed()), PUBLIC_KEY@),
        ) ==> bag_entries(retracted.unparsed()) == bag_entries(document.unparsed()),
{
    let entries = bag_entries(document.unparsed());
    if extended.retracts_into(retracted) {
        document.lemma_with_unparsed(extended.inner.unparsed());
        if is_canonical(member(entries, PUBLIC_KEY@)) {
            law_round_trip(entries, PUBLIC_KEY@);
        }
    }
}

/// A field that is set and then retracted is written as it was set, not as it was
/// before: after `set_key_id`, the bag of the retracted document states the new
/// identifier, beside the owner and the key that the block held.
pub proof fn law_set_key_id_then_retract<Inner: UnparsedMut>(
    before: PublicKey<Inner>,
    id: IriString,
    after: PublicKey<Inner>,
    retracted: Inner,
)
    requires
        after == before.with_public_key(before.public_key().with_key_id(id)),
        after.retracts_into(retracted),
    ensures
        block_member(bag_entries(retracted.unparsed()), PUBLIC_KEY@, "id"@) == Json::Text(
            iri_text(id),
        ),
        block_member(bag_entries(retracted.unparsed()), PUBLIC_KEY@, "owner"@) == Json::Text(
            before.public_key@.owner,
        ),
        block_member(bag_entries(retracted.unparsed()), PUBLIC_KEY@, "publicKeyPem"@)
            == Json::Text(before.public_key@.public_key_pem),
{
    law_retract_writes_fields(
        after.public_key@,
        bag_entries(after.inner.unparsed()),
        PUBLIC_KEY@,
    );
}

/// After `set_key_owner`, the bag of the retracted document states the new owner.
pub proof fn law_set_key_owner_then_retract<Inner: UnparsedMut>(
    before: PublicKey<Inner>,
    owner: IriString,
    after: PublicKey<Inner>,
    retracted: Inner,
)
    requires
        after == before.with_public_key(before.public_key().with_key_owner(owner)),
        after.retracts_into(retracted),
    ensures
        block_member(bag_entries(retracted.unparsed()), PUBLIC_KEY@, "id"@) == Json::Text(
            before.public_key@.id,
        ),
        block_member(bag_entries(retracted.unparsed()), PUBLIC_KEY@, "owner"@) == Json::Text(
            iri_text(owner),
        ),
        block_member(bag_entries(retracted.unparsed()), PUBLIC_KEY@, "publicKeyPem"@)
            == Json::Text(before.public_key@.public_key_pem),
{
    law_retract_writes_fields(
        after.public_key@,
        bag_entries(after.inner.unparsed()),
        PUBLIC_KEY@,
    );
}

/// After `set_key_pem`, the bag of the retracted document states the new key.
pub proof fn law_set_key_pem_then_retract<Inner: UnparsedMut>(
    before: PublicKey<Inner>,
    pem: String,
    after: PublicKey<Inner>,
    retracted: Inner,
)
    requires
        after == before.with_public_key(before.public_key().with_key_pem(pem)),
        after.retracts_into(retracted),
    ensures
        block_member(bag_entries(retracted.unparsed()), PUBLIC_KEY@, "id"@) == Json::Text(
            before.public_key@.id,
        ),
        block_member(bag_entries(retracted.unparsed()), PUBLIC_KEY@, "owner"@) == Json::Text(
            before.public_key@.owner,
        ),
        block_member(bag_entries(retracted.unparsed()), PUBLIC_KEY@, "publicKeyPem"@)
            == Json::Text(pem@),
{
    law_retract_writes_fields(
        after.public_key@,
        bag_entries(after.inner.unparsed()),
        PUBLIC_KEY@,
    );
}

} // verus!
