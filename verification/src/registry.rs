//! The registry and its operations.
//!
//! Every operation takes texts as plain bytes. An identity is the text of an
//! address; a caller is authenticated where the host has confirmed that the
//! call comes from the identity it names, which the contract around the
//! registry finds out and hands in. What an operation returns and how it leaves
//! the registry is stated over the registry's view, `crate::model::Registry`.

use crate::errors::LinkError;
use crate::key::generate_random_key;
use crate::laws::{
    law_create_keeps_consistency, law_delete_keeps_consistency, law_update_keeps_consistency,
};
use crate::model::{Registry, MAX_KEY_LEN};
use crate::record::{LinkRecord, LinkRecordView};
use crate::tables::{
    link_entries, link_lookup, link_table_has, link_table_sound, link_table_with,
    link_table_without, new_link_table, new_owner_table, owner_entries, owner_lookup,
    owner_table_sound, owner_table_with, owner_table_without, LinkTable, OwnerTable,
};
use crate::text::{fits, fits_host, same_text};
use vstd::prelude::*;
use vstd::slice::slice_to_vec;

verus! {

/// A caller's key as a mathematical value.
pub open spec fn key_view(custom_key: Option<&[u8]>) -> Option<Seq<u8>> {
    match custom_key {
        Some(key) => Some(key@),
        None => None,
    }
}

/// The registry of short links: a table of links and a table of owners.
pub struct StellarLinkContract {
    links: LinkTable,
    owners: OwnerTable,
}

impl View for StellarLinkContract {
    type V = Registry;

    open spec fn view(&self) -> Registry {
        Registry {
            links: link_entries(self.link_table()),
            owners: owner_entries(self.owner_table()),
        }
    }
}

impl StellarLinkContract {
    #[verifier::type_invariant]
    spec fn sound(self) -> bool {
        link_table_sound(self.links) && owner_table_sound(self.owners)
    }

    /// The table in which the registry keeps its links.
    pub closed spec fn link_table(self) -> LinkTable {
        self.links
    }

    /// The table in which the registry keeps the owners.
    pub closed spec fn owner_table(self) -> OwnerTable {
        self.owners
    }

    /// A registry without links, whose tables live in `env`.
    pub fn new(env: &soroban_sdk::Env) -> (registry: StellarLinkContract)
        ensures
            registry@ == Registry::empty(),
            registry@.consistent(),
    {
        StellarLinkContract { links: new_link_table(env), owners: new_owner_table(env) }
    }

    /// The registry that two tables make, such as a contract has read from its
    /// storage. The tables must be sound, as the tables of a registry are.
    pub fn from_tables(links: LinkTable, owners: OwnerTable) -> (registry: StellarLinkContract)
        requires
            link_table_sound(links),
            owner_table_sound(owners),
        ensures
            registry.link_table() == links,
            registry.owner_table() == owners,
    {
        StellarLinkContract { links, owners }
    }

    /// The two tables of the registry, links first.
    pub fn into_tables(self) -> (tables: (LinkTable, OwnerTable))
        ensures
            tables.0 == self.link_table(),
            tables.1 == self.owner_table(),
            link_table_sound(tables.0),
            owner_table_sound(tables.1),
    {
        proof {
            use_type_invariant(&self);
        }
        (self.links, self.owners)
    }

    /// The table of links, for a contract to put into its storage.
    pub fn links(&self) -> (table: &LinkTable)
        ensures
            *table == self.link_table(),
            link_table_sound(*table),
    {
        proof {
            use_type_invariant(self);
        }
        &self.links
    }

    /// The table of owners, for a contract to put into its storage.
    pub fn owners(&self) -> (table: &OwnerTable)
        ensures
            *table == self.owner_table(),
            owner_table_sound(*table),
    {
        proof {
            use_type_invariant(self);
        }
        &self.owners
    }

    /// Files a link to `long_url` for `owner`, under `custom_key` or else
    /// under the key derived from the ledger's sequence number and timestamp,
    /// and returns the key.
    pub fn create_link(
        &mut self,
        authenticated: bool,
        owner: &[u8],
        long_url: &[u8],
        custom_key: Option<&[u8]>,
        sequence: u32,
        timestamp: u64,
    ) -> (result: Result<Vec<u8>, LinkError>)
        requires
            fits_host(owner@),
            fits_host(long_url@),
        ensures
            match result {
                Ok(key) => old(self)@.create_result(
                    authenticated,
                    long_url@,
                    key_view(custom_key),
                    sequence,
                    timestamp,
                ) == Ok::<Seq<u8>, LinkError>(key@),
                Err(error) => old(self)@.create_result(
                    authenticated,
                    long_url@,
                    key_view(custom_key),
                    sequence,
                    timestamp,
                ) == Err::<Seq<u8>, LinkError>(error),
            },
            final(self)@ == old(self)@.create(
                authenticated,
                owner@,
                long_url@,
                key_view(custom_key),
                sequence,
                timestamp,
            ),
            old(self)@.consistent() ==> final(self)@.consistent(),
    {
        proof {
            use_type_invariant(&*self);
            if self@.consistent() {
                law_create_keeps_consistency(
                    self@,
                    authenticated,
                    owner@,
                    long_url@,
                    key_view(custom_key),
                    sequence,
                    timestamp,
                );
            }
        }
        if !authenticated {
            return Err(LinkError::AuthenticationFailed);
        }
        if long_url.len() == 0 {
            return Err(LinkError::InvalidInput);
        }
        let key: Vec<u8> = match custom_key {
            Some(custom) => {
                if custom.len() == 0 || custom.len() > MAX_KEY_LEN {
                    return Err(LinkError::InvalidInput);
                }
                slice_to_vec(custom)
            },
            None => generate_random_key(sequence, timestamp),
        };
        if link_table_has(&self.links, key.as_slice()) {
            return Err(LinkError::KeyConflict);
        }
        self.links = link_table_with(&self.links, key.as_slice(), long_url, sequence, owner);
        self.owners = owner_table_with(&self.owners, key.as_slice(), owner);
        Ok(key)
    }

    /// Replaces the destination of the link under `short_key` by
    /// `new_long_url`, for the owner of the link and for nobody else. The
    /// record keeps its owner and its ledger sequence number.
    pub fn update_link(
        &mut self,
        authenticated: bool,
        owner: &[u8],
        short_key: &[u8],
        new_long_url: &[u8],
    ) -> (result: Result<(), LinkError>)
        requires
            fits_host(new_long_url@),
        ensures
            result == old(self)@.update_result(authenticated, owner@, short_key@, new_long_url@),
            final(self)@ == old(self)@.update(authenticated, owner@, short_key@, new_long_url@),
            old(self)@.consistent() ==> final(self)@.consistent(),
    {
        proof {
            use_type_invariant(&*self);
            if self@.consistent() {
                law_update_keeps_consistency(
                    self@,
                    authenticated,
                    owner@,
                    short_key@,
                    new_long_url@,
                );
            }
        }
        if !authenticated {
            return Err(LinkError::AuthenticationFailed);
        }
        if !fits(short_key) {
            return Err(LinkError::NotFound);
        }
        let link_owner: Vec<u8> = match owner_lookup(&self.owners, short_key) {
            Some(found) => found,
            None => {
                return Err(LinkError::NotFound);
            },
        };
        if !same_text(link_owner.as_slice(), owner) {
            return Err(LinkError::Unauthorized);
        }
        if new_long_url.len() == 0 {
            return Err(LinkError::InvalidInput);
        }
        let record: LinkRecord = match link_lookup(&self.links, short_key) {
            Some(found) => found,
            None => {
                return Err(LinkError::NotFound);
            },
        };
        self.links = link_table_with(
            &self.links,
            short_key,
            new_long_url,
            record.created_ledger,
            record.owner.as_slice(),
        );
        Ok(())
    }

    /// Removes the link under `short_key` and its owner entry, for the owner
    /// of the link and for nobody else.
    pub fn delete_link(
        &mut self,
        authenticated: bool,
        owner: &[u8],
        short_key: &[u8],
    ) -> (result: Result<(), LinkError>)
        ensures
            result == old(self)@.delete_result(authenticated, owner@, short_key@),
            final(self)@ == old(self)@.delete(authenticated, owner@, short_key@),
            old(self)@.consistent() ==> final(self)@.consistent(),
    {
        proof {
            use_type_invariant(&*self);
            if self@.consistent() {
                law_delete_keeps_consistency(self@, authenticated, owner@, short_key@);
            }
        }
        if !authenticated {
            return Err(LinkError::AuthenticationFailed);
        }
        if !fits(short_key) {
            return Err(LinkError::NotFound);
        }
        let link_owner: Vec<u8> = match owner_lookup(&self.owners, short_key) {
            Some(found) => found,
            None => {
                return Err(LinkError::NotFound);
            },
        };
        if !same_text(link_owner.as_slice(), owner) {
            return Err(LinkError::Unauthorized);
        }
        self.links = link_table_without(&self.links, short_key);
        self.owners = owner_table_without(&self.owners, short_key);
        Ok(())
    }

    /// The destination of the link under `short_key`.
    pub fn get_url(&self, short_key: &[u8]) -> (result: Result<Vec<u8>, LinkError>)
        ensures
            match result {
                Ok(url) => self@.destination(short_key@) == Ok::<Seq<u8>, LinkError>(url@),
                Err(error) => self@.destination(short_key@) == Err::<Seq<u8>, LinkError>(error),
            },
    {
        proof {
            use_type_invariant(self);
        }
        if !fits(short_key) {
            return Err(LinkError::NotFound);
        }
        match link_lookup(&self.links, short_key) {
            Some(record) => Ok(record.destination_url),
            None => Err(LinkError::NotFound),
        }
    }

    /// The record of the link under `short_key`.
    pub fn get_link(&self, short_key: &[u8]) -> (result: Result<LinkRecord, LinkError>)
        ensures
            match result {
                Ok(record) => self@.record(short_key@) == Ok::<LinkRecordView, LinkError>(record@),
                Err(error) => self@.record(short_key@) == Err::<LinkRecordView, LinkError>(error),
            },
    {
        proof {
            use_type_invariant(self);
        }
        if !fits(short_key) {
            return Err(LinkError::NotFound);
        }
        match link_lookup(&self.links, short_key) {
            Some(record) => Ok(record),
            None => Err(LinkError::NotFound),
        }
    }

    /// The owner of the link under `short_key`.
    pub fn get_owner(&self, short_key: &[u8]) -> (result: Result<Vec<u8>, LinkError>)
        ensures
            match result {
                Ok(owner) => self@.owner(short_key@) == Ok::<Seq<u8>, LinkError>(owner@),
                Err(error) => self@.owner(short_key@) == Err::<Seq<u8>, LinkError>(error),
            },
    {
        proof {
            use_type_invariant(self);
        }
        if !fits(short_key) {
            return Err(LinkError::NotFound);
        }
        match owner_lookup(&self.owners, short_key) {
            Some(owner) => Ok(owner),
            None => Err(LinkError::NotFound),
        }
    }
}

} // verus!
