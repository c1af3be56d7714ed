//! A registry of short links for a Soroban contract.
//!
//! A short key stands for a destination URL. The identity that files a link
//! owns it, and only that identity may change or remove it. The registry keeps
//! its two tables in `soroban_sdk::Map` values, so that a contract can hold
//! them in its persistent storage as they are; its operations take and return
//! plain bytes and integers.
//!
//! Reading the ledger, asking the host to authenticate a caller and moving the
//! tables to and from storage are left to the contract that uses this crate.
//!
//! - `registry`: the registry and its operations, with their contracts.
//! - `model`: the registry as a mathematical value; what each operation
//!   returns and leaves behind.
//! - `laws`: what holds of every registry, proved of the model.
//! - `key`: the keys that the registry derives from the ledger.
//! - `tables`: the calls into `soroban_sdk`, taken on trust.
//! - `record`, `errors`, `text`: the plain values that go in and out.

pub mod errors;
pub mod key;
pub mod laws;
pub mod model;
pub mod record;
pub mod registry;
pub mod tables;
pub mod text;

pub use errors::LinkError;
pub use record::LinkRecord;
pub use registry::StellarLinkContract;
