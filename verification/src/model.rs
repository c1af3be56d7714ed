//! The registry as a mathematical value, and what each operation makes of it.
//!
//! The contracts of the executable operations say that they return what the
//! functions of this file give and leave the registry as these functions say.

use crate::errors::LinkError;
use crate::key::derived_key;
use crate::record::LinkRecordView;
use vstd::prelude::*;

verus! {

/// Greatest length of a short key, in bytes.
pub const MAX_KEY_LEN: usize = 64;

/// Whether a text can be a short key: 1 to 64 bytes.
pub open spec fn valid_key(key: Seq<u8>) -> bool {
    1 <= key.len() <= MAX_KEY_LEN
}

/// The state of a registry: the table of links and the table of owners.
pub ghost struct Registry {
    pub links: Map<Seq<u8>, LinkRecordView>,
    pub owners: Map<Seq<u8>, Seq<u8>>,
}

impl Registry {
    /// The registry without links.
    pub open spec fn empty() -> Registry {
        Registry { links: Map::empty(), owners: Map::empty() }
    }

    /// The two tables have the same keys, each a valid short key; the owner in
    /// a link's record is the owner in the table of owners; no destination is
    /// empty. Every operation keeps a registry so, and the empty one is.
    pub open spec fn consistent(self) -> bool {
        &&& forall|key: Seq<u8>|
            self.links.contains_key(key) <==> self.owners.contains_key(key)
        &&& forall|key: Seq<u8>| #[trigger]
            self.links.contains_key(key) ==> {
                &&& valid_key(key)
                &&& self.links[key].destination_url.len() > 0
                &&& self.links[key].owner == self.owners[key]
            }
    }

    /// The key under which `create` files a link: the caller's, or else the
    /// one derived from the ledger.
    pub open spec fn chosen_key(
        custom_key: Option<Seq<u8>>,
        sequence: u32,
        timestamp: u64,
    ) -> Seq<u8> {
        match custom_key {
            Some(key) => key,
            None => derived_key(sequence, timestamp),
        }
    }

    /// What `create` returns: the key of the new link, or the first of these
    /// that applies: the caller is not authenticated; the destination is empty
    /// or the caller's key is not a valid key; the key is taken.
    pub open spec fn create_result(
        self,
        authenticated: bool,
        url: Seq<u8>,
        custom_key: Option<Seq<u8>>,
        sequence: u32,
        timestamp: u64,
    ) -> Result<Seq<u8>, LinkError> {
        let key = Self::chosen_key(custom_key, sequence, timestamp);
        if !authenticated {
            Err(LinkError::AuthenticationFailed)
        } else if url.len() == 0 {
            Err(LinkError::InvalidInput)
        } else if custom_key is Some && !valid_key(key) {
            Err(LinkError::InvalidInput)
        } else if self.links.contains_key(key) {
            Err(LinkError::KeyConflict)
        } else {
            Ok(key)
        }
    }

    /// The registry after `create`: with the new link and its owner under the
    /// key if `create` succeeds, unchanged if it fails.
    pub open spec fn create(
        self,
        authenticated: bool,
        owner: Seq<u8>,
        url: Seq<u8>,
        custom_key: Option<Seq<u8>>,
        sequence: u32,
        timestamp: u64,
    ) -> Registry {
        match self.create_result(authenticated, url, custom_key, sequence, timestamp) {
            Ok(key) => Registry {
                links: self.links.insert(
                    key,
                    LinkRecordView { destination_url: url, created_ledger: sequence, owner },
                ),
                owners: self.owners.insert(key, owner),
            },
            Err(_) => self,
        }
    }

    /// Whether a caller may change or remove the link under a key, and if not,
    /// why: the first of these that applies: the caller is not authenticated;
    /// the table of owners has no such key; its owner is someone else.
    pub open spec fn access(
        self,
        authenticated: bool,
        caller: Seq<u8>,
        key: Seq<u8>,
    ) -> Result<(), LinkError> {
        if !authenticated {
            Err(LinkError::AuthenticationFailed)
        } else if !self.owners.contains_key(key) {
            Err(LinkError::NotFound)
        } else if self.owners[key] != caller {
            Err(LinkError::Unauthorized)
        } else {
            Ok(())
        }
    }

    /// What `update` returns: the refusal of access if there is one; else
    /// `InvalidInput` for an empty destination; else `NotFound` where the
    /// table of links has no such key, which a consistent registry excludes.
    pub open spec fn update_result(
        self,
        authenticated: bool,
        caller: Seq<u8>,
        key: Seq<u8>,
        url: Seq<u8>,
    ) -> Result<(), LinkError> {
        if self.access(authenticated, caller, key) is Err {
            self.access(authenticated, caller, key)
        } else if url.len() == 0 {
            Err(LinkError::InvalidInput)
        } else if !self.links.contains_key(key) {
            Err(LinkError::NotFound)
        } else {
            Ok(())
        }
    }

    /// The registry after `update`: with the new destination in the record
    /// under the key if `update` succeeds, unchanged if it fails.
    pub open spec fn update(
        self,
        authenticated: bool,
        caller: Seq<u8>,
        key: Seq<u8>,
        url: Seq<u8>,
    ) -> Registry {
        if self.update_result(authenticated, caller, key, url) is Ok {
            Registry {
                links: self.links.insert(
                    key,
                    LinkRecordView { destination_url: url, ..self.links[key] },
                ),
                owners: self.owners,
            }
        } else {
            self
        }
    }

    /// What `delete` returns: the refusal of access if there is one.
    pub open spec fn delete_result(
        self,
        authenticated: bool,
        caller: Seq<u8>,
        key: Seq<u8>,
    ) -> Result<(), LinkError> {
        self.access(authenticated, caller, key)
    }

    /// The registry after `delete`: without the key in either table if
    /// `delete` succeeds, unchanged if it fails.
    pub open spec fn delete(self, authenticated: bool, caller: Seq<u8>, key: Seq<u8>) -> Registry {
        if self.delete_result(authenticated, caller, key) is Ok {
            Registry { links: self.links.remove(key), owners: self.owners.remove(key) }
        } else {
            self
        }
    }

    /// The record under a key, or `NotFound`.
    pub open spec fn record(self, key: Seq<u8>) -> Result<LinkRecordView, LinkError> {
        if self.links.contains_key(key) {
            Ok(self.links[key])
        } else {
            Err(LinkError::NotFound)
        }
    }

    /// The destination under a key, or `NotFound`.
    pub open spec fn destination(self, key: Seq<u8>) -> Result<Seq<u8>, LinkError> {
        if self.links.contains_key(key) {
            Ok(self.links[key].destination_url)
        } else {
            Err(LinkError::NotFound)
        }
    }

    /// The owner of the link under a key, or `NotFound`.
    pub open spec fn owner(self, key: Seq<u8>) -> Result<Seq<u8>, LinkError> {
        if self.owners.contains_key(key) {
            Ok(self.owners[key])
        } else {
            Err(LinkError::NotFound)
        }
    }
}

} // verus!
