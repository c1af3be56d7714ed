//! The two tables of the registry, kept in `soroban_sdk::Map`.
//!
//! Nothing in this file is proved. It declares the types of `soroban_sdk` that
//! the registry holds, names what a table contains, and wraps each call into
//! `soroban_sdk::Map` in a function whose contract is taken on trust from the
//! source of `soroban_sdk` 21.7.7. The registry has two tables of different
//! types, so each call is wrapped once for each.
//!
//! A `soroban_sdk::Map` is a handle to an immutable map in the host, together
//! with the `Env` it lives in. Every wrapper makes the handles it needs in the
//! table's own `Env`, so no call ever mixes two hosts. The host meters each
//! call and ends the invocation when its budget is spent, much as an allocator
//! does when memory runs out; the contracts below do not speak of that.

use crate::record::{LinkRecord, LinkRecordView};
use crate::text::fits_host;
use vstd::prelude::*;

verus! {

/// `soroban_sdk::Env`, opaque: it is only handed on to `soroban_sdk::Map::new`.
#[verifier::external_type_specification]
#[verifier::external_body]
pub struct ExEnv(soroban_sdk::Env);

/// `soroban_sdk::String`, opaque: a handle to a byte string in the host.
#[verifier::external_type_specification]
#[verifier::external_body]
pub struct ExString(soroban_sdk::String);

/// `soroban_sdk::Map`, opaque: a handle to a map in the host.
#[verifier::external_type_specification]
#[verifier::external_body]
#[verifier::reject_recursive_types(K)]
#[verifier::reject_recursive_types(V)]
pub struct ExMap<K, V>(soroban_sdk::Map<K, V>);

/// The table of links: short key to destination URL, ledger sequence number of
/// creation, and owner.
pub type LinkTable = soroban_sdk::Map<
    soroban_sdk::String,
    (soroban_sdk::String, u32, soroban_sdk::String),
>;

/// The table of owners: short key to owner.
pub type OwnerTable = soroban_sdk::Map<soroban_sdk::String, soroban_sdk::String>;

/// Whether every entry of a link table has a string of the host for its key
/// and a triple of string, `u32` and string for its value. A table read from
/// storage has the type `LinkTable` whatever a contract has stored there, and
/// `soroban_sdk::Map::get` aborts on an entry of another shape.
pub uninterp spec fn link_table_typed(table: LinkTable) -> bool;

/// What a typed link table holds: the bytes of each key, and under it the
/// record made of the bytes of the first string, the number, and the bytes of
/// the second string.
pub uninterp spec fn link_entries(table: LinkTable) -> Map<Seq<u8>, LinkRecordView>;

/// Whether every entry of an owner table has a string of the host for its
/// key and for its value.
pub uninterp spec fn owner_table_typed(table: OwnerTable) -> bool;

/// What a typed owner table holds: the bytes of each key, and under it the
/// bytes of the value.
pub uninterp spec fn owner_entries(table: OwnerTable) -> Map<Seq<u8>, Seq<u8>>;

/// A link table is sound if it is typed and holds no text longer than the
/// host can hold. A table that only a registry has filled is sound.
pub open spec fn link_table_sound(table: LinkTable) -> bool {
    &&& link_table_typed(table)
    &&& forall|key: Seq<u8>| #[trigger]
        link_entries(table).contains_key(key) ==> {
            &&& fits_host(key)
            &&& fits_host(link_entries(table)[key].destination_url)
            &&& fits_host(link_entries(table)[key].owner)
        }
}

/// An owner table is sound if it is typed and holds no text longer than the
/// host can hold. A table that only a registry has filled is sound.
pub open spec fn owner_table_sound(table: OwnerTable) -> bool {
    &&& owner_table_typed(table)
    &&& forall|key: Seq<u8>| #[trigger]
        owner_entries(table).contains_key(key) ==> {
            &&& fits_host(key)
            &&& fits_host(owner_entries(table)[key])
        }
}

/// `soroban_sdk::Map::new`: a new table is typed and holds nothing.
#[verifier::external_body]
pub(crate) fn new_link_table(env: &soroban_sdk::Env) -> (table: LinkTable)
    ensures
        link_table_typed(table),
        link_entries(table) == (Map::<Seq<u8>, LinkRecordView>::empty()),
{
    soroban_sdk::Map::new(env)
}

/// `soroban_sdk::Map::contains_key`, with the key made by
/// `soroban_sdk::String::from_bytes`: whether the table has the key.
#[verifier::external_body]
pub(crate) fn link_table_has(table: &LinkTable, key: &[u8]) -> (has: bool)
    requires
        link_table_typed(*table),
        fits_host(key@),
    ensures
        has == link_entries(*table).contains_key(key@),
{
    table.contains_key(soroban_sdk::String::from_bytes(table.env(), key))
}

/// `soroban_sdk::Map::get`, with the key made by
/// `soroban_sdk::String::from_bytes` and each string of the value read by
/// `soroban_sdk::String::len` and `soroban_sdk::String::copy_into_slice`: the
/// record under the key if the table has that key, and `None` if it has not.
#[verifier::external_body]
pub(crate) fn link_lookup(table: &LinkTable, key: &[u8]) -> (found: Option<LinkRecord>)
    requires
        link_table_typed(*table),
        fits_host(key@),
    ensures
        found is Some <==> link_entries(*table).contains_key(key@),
        found is Some ==> found->0@ == link_entries(*table)[key@],
{
    let key_text = soroban_sdk::String::from_bytes(table.env(), key);
    let (url, created_ledger, owner) = table.get(key_text)?;
    let mut destination_url = vec![0u8; url.len() as usize];
    url.copy_into_slice(&mut destination_url);
    let mut owner_text = vec![0u8; owner.len() as usize];
    owner.copy_into_slice(&mut owner_text);
    Some(LinkRecord { destination_url, created_ledger, owner: owner_text })
}

/// `soroban_sdk::Map::set` on a copy of the handle, with key and strings made
/// by `soroban_sdk::String::from_bytes`: the table that comes back holds the
/// record under the key, in place of what the given table held there, and
/// every other entry of the given table. The given table stays as it was: the
/// host never changes a map, it makes another.
#[verifier::external_body]
pub(crate) fn link_table_with(
    table: &LinkTable,
    key: &[u8],
    url: &[u8],
    created_ledger: u32,
    owner: &[u8],
) -> (next: LinkTable)
    requires
        link_table_typed(*table),
        fits_host(key@),
        fits_host(url@),
        fits_host(owner@),
    ensures
        link_table_typed(next),
        link_entries(next) == link_entries(*table).insert(
            key@,
            (LinkRecordView { destination_url: url@, created_ledger, owner: owner@ }),
        ),
{
    let mut next = table.clone();
    let key_text = soroban_sdk::String::from_bytes(table.env(), key);
    let url_text = soroban_sdk::String::from_bytes(table.env(), url);
    let owner_text = soroban_sdk::String::from_bytes(table.env(), owner);
    next.set(key_text, (url_text, created_ledger, owner_text));
    next
}

/// `soroban_sdk::Map::remove` on a copy of the handle, with the key made by
/// `soroban_sdk::String::from_bytes`: the table that comes back has no entry
/// under the key, and every other entry of the given table.
#[verifier::external_body]
pub(crate) fn link_table_without(table: &LinkTable, key: &[u8]) -> (next: LinkTable)
    requires
        link_table_typed(*table),
        fits_host(key@),
    ensures
        link_table_typed(next),
        link_entries(next) == link_entries(*table).remove(key@),
{
    let mut next = table.clone();
    next.remove(soroban_sdk::String::from_bytes(table.env(), key));
    next
}

/// `soroban_sdk::Map::new`: a new table is typed and holds nothing.
#[verifier::external_body]
pub(crate) fn new_owner_table(env: &soroban_sdk::Env) -> (table: OwnerTable)
    ensures
        owner_table_typed(table),
        owner_entries(table) == (Map::<Seq<u8>, Seq<u8>>::empty()),
{
    soroban_sdk::Map::new(env)
}

/// `soroban_sdk::Map::get`, with the key made by
/// `soroban_sdk::String::from_bytes` and the value read by
/// `soroban_sdk::String::len` and `soroban_sdk::String::copy_into_slice`: the
/// owner under the key if the table has that key, and `None` if it has not.
#[verifier::external_body]
pub(crate) fn owner_lookup(table: &OwnerTable, key: &[u8]) -> (found: Option<Vec<u8>>)
    requires
        owner_table_typed(*table),
        fits_host(key@),
    ensures
        found is Some <==> owner_entries(*table).contains_key(key@),
        found is Some ==> found->0@ == owner_entries(*table)[key@],
{
    let key_text = soroban_sdk::String::from_bytes(table.env(), key);
    let owner = table.get(key_text)?;
    let mut owner_text = vec![0u8; owner.len() as usize];
    owner.copy_into_slice(&mut owner_text);
    Some(owner_text)
}

/// `soroban_sdk::Map::set` on a copy of the handle, with key and value made by
/// `soroban_sdk::String::from_bytes`: the table that comes back holds the owner
/// under the key, in place of what the given table held there, and every other
/// entry of the given table.
#[verifier::external_body]
pub(crate) fn owner_table_with(table: &OwnerTable, key: &[u8], owner: &[u8]) -> (next: OwnerTable)
    requires
        owner_table_typed(*table),
        fits_host(key@),
        fits_host(owner@),
    ensures
        owner_table_typed(next),
        owner_entries(next) == owner_entries(*table).insert(key@, owner@),
{
    let mut next = table.clone();
    let key_text = soroban_sdk::String::from_bytes(table.env(), key);
    next.set(key_text, soroban_sdk::String::from_bytes(table.env(), owner));
    next
}

/// `soroban_sdk::Map::remove` on a copy of the handle, with the key made by
/// `soroban_sdk::String::from_bytes`: the table that comes back has no entry
/// under the key, and every other entry of the given table.
#[verifier::external_body]
pub(crate) fn owner_table_without(table: &OwnerTable, key: &[u8]) -> (next: OwnerTable)
    requires
        owner_table_typed(*table),
        fits_host(key@),
    ensures
        owner_table_typed(next),
        owner_entries(next) == owner_entries(*table).remove(key@),
{
    let mut next = table.clone();
    next.remove(soroban_sdk::String::from_bytes(table.env(), key));
    next
}

} // verus!
