//! The store's capacity configuration. The backing storage region is
//! pre-sized by the environment for a fixed number of records of a fixed
//! maximum payload length; the store re-checks both bounds itself so that a
//! violation surfaces as its own attributable error.

use vstd::prelude::*;

verus! {

/// The standard maximum number of records a store may hold.
pub const MAX_RECORDS: u64 = 1000;

/// The standard maximum payload length, in bytes of UTF-8.
pub const MAX_DATA_LENGTH: u64 = 200;

/// The capacity bounds a store is created with. Both bounds are fixed for
/// the lifetime of the store.
#[derive(Clone, Copy, Debug, PartialEq, Eq, Structural)]
pub struct StoreConfig {
    /// The maximum number of records the store may ever hold.
    pub max_records: u64,
    /// The maximum payload length of a single record, in bytes of UTF-8.
    pub max_data_length: u64,
}

impl StoreConfig {
    /// A configuration is valid when it admits at least one record of at
    /// least one byte.
    pub open spec fn valid(self) -> bool {
        &&& self.max_records >= 1
        &&& self.max_data_length >= 1
    }

    /// Builds a configuration, refusing degenerate bounds.
    pub fn new(max_records: u64, max_data_length: u64) -> (result: Option<StoreConfig>)
        ensures
            result is Some <==> (max_records >= 1 && max_data_length >= 1),
            result is Some ==> {
                let config = result->Some_0;
                &&& config.max_records == max_records
                &&& config.max_data_length == max_data_length
                &&& config.valid()
            },
    {
        if max_records >= 1 && max_data_length >= 1 {
            Some(StoreConfig { max_records, max_data_length })
        } else {
            None
        }
    }

    /// The standard configuration: [`MAX_RECORDS`] records of up to
    /// [`MAX_DATA_LENGTH`] bytes each.
    pub fn standard() -> (config: StoreConfig)
        ensures
            config.max_records == MAX_RECORDS,
            config.max_data_length == MAX_DATA_LENGTH,
            config.valid(),
    {
        StoreConfig { max_records: MAX_RECORDS, max_data_length: MAX_DATA_LENGTH }
    }
}

} // verus!
