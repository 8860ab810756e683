//! A fixed-capacity, append-only ledger of author-attributed, timestamped
//! text records. Records are created by `create_record`, and only the
//! original author of a record may later modify it through `update_record`.
//!
//! The store itself is the verified core: the environment is expected to
//! supply an authenticated caller identity and the current time for every
//! operation, and to serialize access to a store instance.

pub mod config;
pub mod errors;
pub mod identity;
pub mod laws;
pub mod model;
pub mod store;

pub use config::StoreConfig;
pub use errors::CustomError;
pub use identity::Identity;
pub use store::Record;
pub use store::RecordAccount;
