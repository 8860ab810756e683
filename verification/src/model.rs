//! The mathematical model of the store. Every executable operation on a
//! [`crate::store::RecordAccount`] is pinned, in its contract, to one of the
//! transition functions below, stated over sequences and integers; the laws
//! in [`crate::laws`] are proved of these transitions and therefore hold of
//! every execution.

use vstd::prelude::*;

use crate::config::StoreConfig;
use crate::errors::CustomError;
use crate::identity::IDENTITY_LENGTH;

verus! {

/// The abstract value of one stored record.
pub struct RecordModel {
    /// The identity token of the actor that created the record.
    pub author: Seq<u8>,
    /// The text payload, as the sequence of its characters.
    pub data: Seq<char>,
    /// Seconds since the epoch at creation or last update.
    pub timestamp: int,
}

/// The abstract state of a store.
pub struct StoreModel {
    /// The bounds the store was created with.
    pub config: StoreConfig,
    /// The stored record count, kept explicitly alongside the sequence.
    pub count: u64,
    /// The records, in insertion order; indices are stable once assigned.
    pub records: Seq<RecordModel>,
}

/// The length in bytes of a payload's UTF-8 encoding.
pub open spec fn data_len(data: Seq<char>) -> nat {
    vstd::utf8::encode_utf8(data).len()
}

/// A record is well formed for a configuration when its payload fits the
/// payload bound and its author token has the fixed identity length.
pub open spec fn record_wf(record: RecordModel, config: StoreConfig) -> bool {
    &&& data_len(record.data) <= config.max_data_length
    &&& record.author.len() == IDENTITY_LENGTH
}

/// The store invariant: the configuration is valid, the explicit count
/// equals the number of records, the capacity bound holds, and every record
/// is well formed.
pub open spec fn store_inv(s: StoreModel) -> bool {
    &&& s.config.valid()
    &&& s.count == s.records.len()
    &&& s.records.len() <= s.config.max_records
    &&& forall|i: int| 0 <= i < s.records.len() ==> record_wf(#[trigger] s.records[i], s.config)
}

/// The state of a freshly initialized store: zero count, no records.
pub open spec fn init_state(config: StoreConfig) -> StoreModel {
    StoreModel { config, count: 0, records: Seq::empty() }
}

/// What appending a payload returns: the new record's index on success, an
/// error otherwise. Capacity is checked before the payload bound.
pub open spec fn append_outcome(pre: StoreModel, data: Seq<char>) -> Result<u64, CustomError> {
    if pre.count >= pre.config.max_records {
        Err(CustomError::CapacityExceeded)
    } else if data_len(data) > pre.config.max_data_length {
        Err(CustomError::PayloadTooLarge)
    } else {
        Ok(pre.count)
    }
}

/// The store state after an append: on success the new record, carrying the
/// caller's identity and the supplied time, stands at the end and the count
/// grows by one; on failure nothing changes.
pub open spec fn append_post(
    pre: StoreModel,
    author: Seq<u8>,
    data: Seq<char>,
    now: int,
) -> StoreModel {
    if append_outcome(pre, data) is Ok {
        StoreModel {
            config: pre.config,
            count: (pre.count + 1) as u64,
            records: pre.records.push(RecordModel { author, data, timestamp: now }),
        }
    } else {
        pre
    }
}

/// What updating a record returns. The checks run in a fixed order — bounds,
/// then authorization, then payload size — so that an out-of-range index is
/// never reported as an authorization failure.
pub open spec fn update_outcome(
    pre: StoreModel,
    caller: Seq<u8>,
    index: u64,
    new_data: Seq<char>,
) -> Result<(), CustomError> {
    if index >= pre.count {
        Err(CustomError::InvalidRecordIndex)
    } else if pre.records[index as int].author != caller {
        Err(CustomError::UnauthorizedAccess)
    } else if data_len(new_data) > pre.config.max_data_length {
        Err(CustomError::PayloadTooLarge)
    } else {
        Ok(())
    }
}

/// The store state after an update: on success the addressed record carries
/// the new payload and the supplied time while its author is unchanged, and
/// no other record or the count moves; on failure nothing changes.
pub open spec fn update_post(
    pre: StoreModel,
    caller: Seq<u8>,
    index: u64,
    new_data: Seq<char>,
    now: int,
) -> StoreModel {
    if update_outcome(pre, caller, index, new_data) is Ok {
        StoreModel {
            config: pre.config,
            count: pre.count,
            records: pre.records.update(
                index as int,
                RecordModel {
                    author: pre.records[index as int].author,
                    data: new_data,
                    timestamp: now,
                },
            ),
        }
    } else {
        pre
    }
}

} // verus!
