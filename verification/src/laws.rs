//! What holds of the registry whatever its state and whatever is asked of it.
//!
//! Each law is stated of the mathematical registry of `crate::model`; the
//! executable operations return and leave behind what that model says, so
//! the laws hold of them too.

use crate::errors::LinkError;
use crate::key::lemma_derived_key_shape;
use crate::model::{valid_key, Registry};
use crate::record::LinkRecordView;
use vstd::prelude::*;

verus! {

/// The empty registry is consistent.
pub proof fn law_empty_is_consistent()
    ensures
        Registry::empty().consistent(),
{
}

/// `create` keeps a consistent registry consistent, whether it succeeds or
/// fails.
pub proof fn law_create_keeps_consistency(
    registry: Registry,
    authenticated: bool,
    owner: Seq<u8>,
    url: Seq<u8>,
    custom_key: Option<Seq<u8>>,
    sequence: u32,
    timestamp: u64,
)
    requires
        registry.consistent(),
    ensures
        registry.create(authenticated, owner, url, custom_key, sequence, timestamp).consistent(),
{
    lemma_derived_key_shape(sequence, timestamp);
}

/// `update` keeps a consistent registry consistent, whether it succeeds or
/// fails.
pub proof fn law_update_keeps_consistency(
    registry: Registry,
    authenticated: bool,
    caller: Seq<u8>,
    key: Seq<u8>,
    url: Seq<u8>,
)
    requires
        registry.consistent(),
    ensures
        registry.update(authenticated, caller, key, url).consistent(),
{
}

/// `delete` keeps a consistent registry consistent, whether it succeeds or
/// fails.
pub proof fn law_delete_keeps_consistency(
    registry: Registry,
    authenticated: bool,
    caller: Seq<u8>,
    key: Seq<u8>,
)
    requires
        registry.consistent(),
    ensures
        registry.delete(authenticated, caller, key).consistent(),
{
}

/// In a consistent registry the three reads agree: they find a key together
/// or not at all, and the record holds the destination and the owner that the
/// other two give.
pub proof fn law_reads_agree(registry: Registry, key: Seq<u8>)
    requires
        registry.consistent(),
    ensures
        registry.record(key) is Ok <==> registry.destination(key) is Ok,
        registry.record(key) is Ok <==> registry.owner(key) is Ok,
        registry.record(key) is Ok ==> {
            &&& registry.record(key)->Ok_0.destination_url == registry.destination(key)->Ok_0
            &&& registry.record(key)->Ok_0.owner == registry.owner(key)->Ok_0
        },
{
}

/// In a consistent registry, a caller who has access to a key finds a link
/// there: `update` then fails only on an empty destination.
pub proof fn law_access_finds_link(
    registry: Registry,
    authenticated: bool,
    caller: Seq<u8>,
    key: Seq<u8>,
    url: Seq<u8>,
)
    requires
        registry.consistent(),
        registry.access(authenticated, caller, key) is Ok,
    ensures
        registry.update_result(authenticated, caller, key, url) == (if url.len() == 0 {
            Err::<(), LinkError>(LinkError::InvalidInput)
        } else {
            Ok::<(), LinkError>(())
        }),
{
}

/// An authenticated `create` with a destination that is not empty and a key
/// that is valid and free succeeds with that key, and the link can then be
/// read back: its destination, its owner, and the ledger sequence number of
/// its creation.
pub proof fn law_create_then_read(
    registry: Registry,
    owner: Seq<u8>,
    url: Seq<u8>,
    custom_key: Option<Seq<u8>>,
    sequence: u32,
    timestamp: u64,
)
    requires
        url.len() > 0,
        custom_key is Some ==> valid_key(custom_key->0),
        !registry.links.contains_key(Registry::chosen_key(custom_key, sequence, timestamp)),
    ensures
        ({
            let key = Registry::chosen_key(custom_key, sequence, timestamp);
            let after = registry.create(true, owner, url, custom_key, sequence, timestamp);
            &&& registry.create_result(true, url, custom_key, sequence, timestamp) == Ok::<
                Seq<u8>,
                LinkError,
            >(key)
            &&& after.destination(key) == Ok::<Seq<u8>, LinkError>(url)
            &&& after.owner(key) == Ok::<Seq<u8>, LinkError>(owner)
            &&& after.record(key) == Ok::<LinkRecordView, LinkError>(
                LinkRecordView { destination_url: url, created_ledger: sequence, owner },
            )
        }),
{
}

/// After a `create` that succeeded with a key, every further `create` with
/// that key fails, whoever asks and whatever the destination; an
/// authenticated one with a destination that is not empty fails with
/// `KeyConflict`.
pub proof fn law_key_is_unique(
    registry: Registry,
    authenticated: bool,
    owner: Seq<u8>,
    url: Seq<u8>,
    custom_key: Option<Seq<u8>>,
    sequence: u32,
    timestamp: u64,
    next_authenticated: bool,
    next_url: Seq<u8>,
    next_sequence: u32,
    next_timestamp: u64,
)
    requires
        registry.create_result(authenticated, url, custom_key, sequence, timestamp) is Ok,
    ensures
        ({
            let key = registry.create_result(
                authenticated,
                url,
                custom_key,
                sequence,
                timestamp,
            )->Ok_0;
            let after = registry.create(authenticated, owner, url, custom_key, sequence, timestamp);
            let again = after.create_result(
                next_authenticated,
                next_url,
                Some(key),
                next_sequence,
                next_timestamp,
            );
            &&& again is Err
            &&& next_authenticated && next_url.len() > 0 ==> again == Err::<Seq<u8>, LinkError>(
                LinkError::KeyConflict,
            )
        }),
{
    lemma_derived_key_shape(sequence, timestamp);
}

/// An authenticated caller who is not the owner of a link can neither change
/// nor remove it: both fail with `Unauthorized` and leave the registry as it
/// was.
pub proof fn law_only_owner_changes(
    registry: Registry,
    caller: Seq<u8>,
    key: Seq<u8>,
    url: Seq<u8>,
)
    requires
        registry.owners.contains_key(key),
        registry.owners[key] != caller,
    ensures
        registry.update_result(true, caller, key, url) == Err::<(), LinkError>(
            LinkError::Unauthorized,
        ),
        registry.update(true, caller, key, url) == registry,
        registry.delete_result(true, caller, key) == Err::<(), LinkError>(LinkError::Unauthorized),
        registry.delete(true, caller, key) == registry,
{
}

/// An operation that fails leaves the registry as it was.
pub proof fn law_failure_changes_nothing(
    registry: Registry,
    authenticated: bool,
    caller: Seq<u8>,
    key: Seq<u8>,
    url: Seq<u8>,
    custom_key: Option<Seq<u8>>,
    sequence: u32,
    timestamp: u64,
)
    ensures
        registry.create_result(authenticated, url, custom_key, sequence, timestamp) is Err
            ==> registry.create(authenticated, caller, url, custom_key, sequence, timestamp)
            == registry,
        registry.update_result(authenticated, caller, key, url) is Err ==> registry.update(
            authenticated,
            caller,
            key,
            url,
        ) == registry,
        registry.delete_result(authenticated, caller, key) is Err ==> registry.delete(
            authenticated,
            caller,
            key,
        ) == registry,
{
}

/// An `update` that succeeds changes the destination of the one link and
/// nothing else: the record keeps its owner and its ledger sequence number,
/// every other link stays as it was, and so does the table of owners.
pub proof fn law_update_keeps_metadata(
    registry: Registry,
    authenticated: bool,
    caller: Seq<u8>,
    key: Seq<u8>,
    url: Seq<u8>,
)
    requires
        registry.update_result(authenticated, caller, key, url) is Ok,
    ensures
        ({
            let after = registry.update(authenticated, caller, key, url);
            &&& after.links.dom() == registry.links.dom()
            &&& after.links[key].destination_url == url
            &&& after.links[key].owner == registry.links[key].owner
            &&& after.links[key].created_ledger == registry.links[key].created_ledger
            &&& forall|other: Seq<u8>| other != key ==> after.links[other] == registry.links[other]
            &&& after.owners == registry.owners
        }),
{
    let after = registry.update(authenticated, caller, key, url);
    assert(after.links.dom() =~= registry.links.dom());
}

/// After a `delete` that succeeded, no read finds the key, and an
/// authenticated `create` with that key and a destination that is not empty
/// succeeds, whoever asks.
pub proof fn law_delete_frees_key(
    registry: Registry,
    authenticated: bool,
    caller: Seq<u8>,
    key: Seq<u8>,
    next_url: Seq<u8>,
    next_sequence: u32,
    next_timestamp: u64,
)
    requires
        registry.consistent(),
        registry.delete_result(authenticated, caller, key) is Ok,
        next_url.len() > 0,
    ensures
        ({
            let after = registry.delete(authenticated, caller, key);
            &&& after.destination(key) == Err::<Seq<u8>, LinkError>(LinkError::NotFound)
            &&& after.record(key) == Err::<LinkRecordView, LinkError>(LinkError::NotFound)
            &&& after.owner(key) == Err::<Seq<u8>, LinkError>(LinkError::NotFound)
            &&& after.create_result(true, next_url, Some(key), next_sequence, next_timestamp)
                == Ok::<Seq<u8>, LinkError>(key)
        }),
{
}

/// An authenticated `create` with an empty destination, or with a key of the
/// caller's that is empty or longer than 64 bytes, fails with `InvalidInput`
/// and creates nothing.
pub proof fn law_invalid_input_creates_nothing(
    registry: Registry,
    owner: Seq<u8>,
    url: Seq<u8>,
    custom_key: Option<Seq<u8>>,
    sequence: u32,
    timestamp: u64,
)
    requires
        url.len() == 0 || (custom_key is Some && !valid_key(custom_key->0)),
    ensures
        registry.create_result(true, url, custom_key, sequence, timestamp) == Err::<
            Seq<u8>,
            LinkError,
        >(LinkError::InvalidInput),
        registry.create(true, owner, url, custom_key, sequence, timestamp) == registry,
{
}

/// A call that is not authenticated fails with `AuthenticationFailed`,
/// whatever else it asks.
pub proof fn law_authentication_comes_first(
    registry: Registry,
    caller: Seq<u8>,
    key: Seq<u8>,
    url: Seq<u8>,
    custom_key: Option<Seq<u8>>,
    sequence: u32,
    timestamp: u64,
)
    ensures
        registry.create_result(false, url, custom_key, sequence, timestamp) == Err::<
            Seq<u8>,
            LinkError,
        >(LinkError::AuthenticationFailed),
        registry.update_result(false, caller, key, url) == Err::<(), LinkError>(
            LinkError::AuthenticationFailed,
        ),
        registry.delete_result(false, caller, key) == Err::<(), LinkError>(
            LinkError::AuthenticationFailed,
        ),
{
}

} // verus!
