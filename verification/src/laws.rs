//! The laws of the store, proved of the abstract transitions in
//! [`crate::model`]. Because every executable operation's contract equates
//! its effect with one of those transitions, each law holds of every
//! execution of the corresponding operation.

use vstd::prelude::*;

use crate::config::StoreConfig;
use crate::errors::CustomError;
use crate::identity::IDENTITY_LENGTH;
use crate::model::{
    append_outcome, append_post, data_len, init_state, record_wf, store_inv, update_outcome,
    update_post, RecordModel, StoreModel,
};

verus! {

/// A freshly initialized store satisfies the invariant: its count is zero,
/// it holds no records, and it is within capacity.
pub proof fn lemma_initialize_invariant(config: StoreConfig)
    requires
        config.valid(),
    ensures
        store_inv(init_state(config)),
        init_state(config).count == 0,
        init_state(config).records.len() == 0,
{
}

/// Appending preserves the invariant: `count` still equals the number of
/// records, which still respects the capacity bound.
pub proof fn lemma_append_preserves_invariant(
    pre: StoreModel,
    author: Seq<u8>,
    data: Seq<char>,
    now: int,
)
    requires
        store_inv(pre),
        author.len() == IDENTITY_LENGTH,
    ensures
        store_inv(append_post(pre, author, data, now)),
{
}

/// Updating preserves the invariant, whatever the caller and index.
pub proof fn lemma_update_preserves_invariant(
    pre: StoreModel,
    caller: Seq<u8>,
    index: u64,
    new_data: Seq<char>,
    now: int,
)
    requires
        store_inv(pre),
    ensures
        store_inv(update_post(pre, caller, index, new_data, now)),
{
}

/// Append monotonicity: a successful append returns the old count as the new
/// record's index, raises the count by exactly one, places the new record —
/// with the caller's identity and the supplied time — at that index, and
/// leaves every prior record untouched.
pub proof fn lemma_append_monotonic(pre: StoreModel, author: Seq<u8>, data: Seq<char>, now: int)
    requires
        store_inv(pre),
        append_outcome(pre, data) is Ok,
    ensures
        append_outcome(pre, data) == Ok::<u64, CustomError>(pre.count),
        append_post(pre, author, data, now).count == pre.count + 1,
        append_post(pre, author, data, now).records.len() == pre.records.len() + 1,
        append_post(pre, author, data, now).records[pre.count as int] == (RecordModel {
            author,
            data,
            timestamp: now,
        }),
        forall|j: int|
            0 <= j < pre.records.len() ==> append_post(pre, author, data, now).records[j]
                == pre.records[j],
{
}

/// A failed append changes nothing: when the store is full or the payload is
/// too large, the state after the append is the state before it.
pub proof fn lemma_append_failure_unchanged(
    pre: StoreModel,
    author: Seq<u8>,
    data: Seq<char>,
    now: int,
)
    requires
        append_outcome(pre, data) is Err,
    ensures
        append_post(pre, author, data, now) == pre,
{
}

/// Authorization, refused side: an update on an in-range record whose stored
/// author differs from the caller yields `UnauthorizedAccess`, whatever the
/// payload and time, and changes nothing.
pub proof fn lemma_update_unauthorized(
    pre: StoreModel,
    caller: Seq<u8>,
    index: u64,
    new_data: Seq<char>,
    now: int,
)
    requires
        index < pre.count,
        pre.records[index as int].author != caller,
    ensures
        update_outcome(pre, caller, index, new_data) == Err::<(), CustomError>(
            CustomError::UnauthorizedAccess,
        ),
        update_post(pre, caller, index, new_data, now) == pre,
{
}

/// Authorization, positive side: only the matching caller alters anything.
/// If any record differs after an update, the update succeeded, the record
/// that changed is exactly the addressed one, and the caller equals its
/// stored author.
pub proof fn lemma_update_alters_only_authorized(
    pre: StoreModel,
    caller: Seq<u8>,
    index: u64,
    new_data: Seq<char>,
    now: int,
    j: int,
)
    requires
        store_inv(pre),
        0 <= j < pre.records.len(),
        update_post(pre, caller, index, new_data, now).records[j] != pre.records[j],
    ensures
        update_outcome(pre, caller, index, new_data) == Ok::<(), CustomError>(()),
        j == index as int,
        caller == pre.records[j].author,
{
}

/// Author immutability under append: every record already stored keeps its
/// author (indeed, is wholly untouched) across any append.
pub proof fn lemma_append_keeps_authors(
    pre: StoreModel,
    author: Seq<u8>,
    data: Seq<char>,
    now: int,
    j: int,
)
    requires
        0 <= j < pre.records.len(),
    ensures
        append_post(pre, author, data, now).records[j] == pre.records[j],
{
}

/// Author immutability under update: whatever the caller, index, payload and
/// outcome, no stored record's author changes across an update.
pub proof fn lemma_update_keeps_authors(
    pre: StoreModel,
    caller: Seq<u8>,
    index: u64,
    new_data: Seq<char>,
    now: int,
    j: int,
)
    requires
        store_inv(pre),
        0 <= j < pre.records.len(),
    ensures
        update_post(pre, caller, index, new_data, now).records[j].author
            == pre.records[j].author,
{
}

/// Bounds are checked first: an update with an out-of-range index yields
/// `InvalidRecordIndex` — never `UnauthorizedAccess` — whatever the caller
/// identity, and changes nothing.
pub proof fn lemma_update_bounds_checked_first(
    pre: StoreModel,
    caller: Seq<u8>,
    index: u64,
    new_data: Seq<char>,
    now: int,
)
    requires
        index >= pre.count,
    ensures
        update_outcome(pre, caller, index, new_data) == Err::<(), CustomError>(
            CustomError::InvalidRecordIndex,
        ),
        update_post(pre, caller, index, new_data, now) == pre,
{
}

/// Capacity boundary, last slot: a fitting payload appended to a store that
/// holds one record fewer than its capacity succeeds, filling the store.
pub proof fn lemma_append_fills_last_slot(
    pre: StoreModel,
    author: Seq<u8>,
    data: Seq<char>,
    now: int,
)
    requires
        store_inv(pre),
        pre.count + 1 == pre.config.max_records,
        data_len(data) <= pre.config.max_data_length,
    ensures
        append_outcome(pre, data) == Ok::<u64, CustomError>(pre.count),
        append_post(pre, author, data, now).count == pre.config.max_records,
{
}

/// Capacity boundary, full store: appending to a store that already holds
/// its maximum number of records fails with `CapacityExceeded` and leaves
/// the store — its count included — unchanged.
pub proof fn lemma_append_when_full(pre: StoreModel, author: Seq<u8>, data: Seq<char>, now: int)
    requires
        store_inv(pre),
        pre.count == pre.config.max_records,
    ensures
        append_outcome(pre, data) == Err::<u64, CustomError>(CustomError::CapacityExceeded),
        append_post(pre, author, data, now) == pre,
{
}

} // verus!
