//! The record that the registry keeps for each short key.

use vstd::prelude::*;

verus! {

/// What is filed under a short key.
#[derive(Clone, Debug, PartialEq, Eq)]
pub struct LinkRecord {
    /// Where the link leads. Never empty in a record that the registry made.
    pub destination_url: Vec<u8>,
    /// The ledger sequence number at which the link was created.
    pub created_ledger: u32,
    /// The identity that created the link, as the text of its address.
    pub owner: Vec<u8>,
}

/// A `LinkRecord` as a mathematical value.
pub ghost struct LinkRecordView {
    pub destination_url: Seq<u8>,
    pub created_ledger: u32,
    pub owner: Seq<u8>,
}

impl View for LinkRecord {
    type V = LinkRecordView;

    open spec fn view(&self) -> LinkRecordView {
        LinkRecordView {
            destination_url: self.destination_url@,
            created_ledger: self.created_ledger,
            owner: self.owner@,
        }
    }
}

} // verus!
