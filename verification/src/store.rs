//! The record store itself: a fixed-capacity, append-only collection of
//! author-attributed, timestamped text records, where only a record's
//! original author may modify it.
//!
//! The environment hands every operation an already-authenticated caller
//! identity and the current time, and serializes access to a store instance;
//! the store performs no authentication and no I/O of its own.

use vstd::prelude::*;

use crate::config::StoreConfig;
use crate::errors::CustomError;
use crate::identity::Identity;
use crate::model::{
    append_outcome, append_post, init_state, store_inv, update_outcome, update_post, RecordModel,
    StoreModel,
};

verus! {

/// One author-attributed, timestamped text record.
#[derive(Clone)]
pub struct Record {
    /// The identity of the actor that created the record; immutable once set.
    pub author: Identity,
    /// The text payload.
    pub data: String,
    /// Seconds since the epoch, set on creation and on every update.
    pub timestamp: i64,
}

impl View for Record {
    type V = RecordModel;

    open spec fn view(&self) -> RecordModel {
        RecordModel { author: self.author@, data: self.data@, timestamp: self.timestamp as int }
    }
}

/// The store: an ordered collection of records plus its explicit count.
pub struct RecordAccount {
    /// The number of records currently stored; always equals `records.len()`.
    pub count: u64,
    /// The records, in insertion order.
    pub records: Vec<Record>,
    /// The bounds the store was created with.
    pub config: StoreConfig,
}

impl View for RecordAccount {
    type V = StoreModel;

    open spec fn view(&self) -> StoreModel {
        StoreModel {
            config: self.config,
            count: self.count,
            records: Seq::new(self.records@.len(), |i: int| self.records@[i]@),
        }
    }
}

impl RecordAccount {
    /// The store invariant, stated of the abstract state. It holds of a
    /// freshly initialized store and is preserved by every operation.
    pub open spec fn wf(self) -> bool {
        store_inv(self@)
    }

    /// Creates an empty store with the given bounds: zero count, no records.
    pub fn initialize(config: StoreConfig) -> (store: RecordAccount)
        requires
            config.valid(),
        ensures
            store@ == init_state(config),
            store.wf(),
    {
        let store = RecordAccount { count: 0, records: Vec::new(), config };
        proof {
            assert(store@.records =~= Seq::<RecordModel>::empty());
        }
        store
    }

    /// Appends a record authored by `caller` with payload `data`, stamped
    /// with the supplied time, and returns its index (the old count). Fails
    /// with `CapacityExceeded` when the store is full, and with
    /// `PayloadTooLarge` when the payload exceeds the configured bound; a
    /// failed append changes nothing.
    pub fn create_record(&mut self, caller: Identity, data: String, now: i64) -> (result: Result<
        u64,
        CustomError,
    >)
        requires
            old(self).wf(),
        ensures
            final(self).wf(),
            result == append_outcome(old(self)@, data@),
            final(self)@ == append_post(old(self)@, caller@, data@, now as int),
    {
        if self.count >= self.config.max_records {
            return Err(CustomError::CapacityExceeded);
        }
        let data_bytes: usize = data.as_str().as_bytes().len();
        if data_bytes as u64 > self.config.max_data_length {
            return Err(CustomError::PayloadTooLarge);
        }
        let index: u64 = self.count;
        let ghost pre = self@;
        let record = Record { author: caller, data, timestamp: now };
        self.records.push(record);
        self.count = self.count + 1;
        proof {
            caller.lemma_length();
            assert(self@.records =~= pre.records.push(
                RecordModel { author: caller@, data: data@, timestamp: now as int },
            ));
        }
        Ok(index)
    }

    /// Replaces the payload and timestamp of the record at `index`, provided
    /// the index is in range, the caller is the record's author, and the new
    /// payload fits the configured bound — checked in that order, so an
    /// out-of-range index is always reported as `InvalidRecordIndex` and
    /// never as `UnauthorizedAccess`. The record's author never changes, and
    /// a failed update changes nothing.
    pub fn update_record(
        &mut self,
        caller: Identity,
        index: u64,
        new_data: String,
        now: i64,
    ) -> (result: Result<(), CustomError>)
        requires
            old(self).wf(),
        ensures
            final(self).wf(),
            result == update_outcome(old(self)@, caller@, index, new_data@),
            final(self)@ == update_post(old(self)@, caller@, index, new_data@, now as int),
    {
        if index >= self.count {
            return Err(CustomError::InvalidRecordIndex);
        }
        proof {
            broadcast use vstd::std_specs::vec::axiom_spec_len;

            assert(vstd::std_specs::vec::spec_vec_len(&self.records) == self.records@.len());
        }
        let i: usize = index as usize;
        if !(self.records[i].author == caller) {
            return Err(CustomError::UnauthorizedAccess);
        }
        let data_bytes: usize = new_data.as_str().as_bytes().len();
        if data_bytes as u64 > self.config.max_data_length {
            return Err(CustomError::PayloadTooLarge);
        }
        let ghost pre = self@;
        let record = &mut self.records[i];
        record.data = new_data;
        record.timestamp = now;
        proof {
            assert(self@.records =~= pre.records.update(
                index as int,
                RecordModel {
                    author: pre.records[index as int].author,
                    data: new_data@,
                    timestamp: now as int,
                },
            ));
        }
        Ok(())
    }

    /// Looks up the record at `index`: `Some` exactly when the index is in
    /// range, and then the record the store holds there.
    pub fn get(&self, index: u64) -> (result: Option<&Record>)
        requires
            self.wf(),
        ensures
            match result {
                Some(record) => index < self@.count && record@ == self@.records[index as int],
                None => index >= self@.count,
            },
    {
        if index < self.count {
            proof {
                broadcast use vstd::std_specs::vec::axiom_spec_len;

                assert(vstd::std_specs::vec::spec_vec_len(&self.records) == self.records@.len());
            }
            Some(&self.records[index as usize])
        } else {
            None
        }
    }
}

} // verus!
