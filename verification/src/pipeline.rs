//! The batch orchestrator: every record of a batch is driven through
//! validate, fetch, transform and store, and no record's failure ever aborts
//! or taints a sibling record.
//!
//! The whole pipeline is modelled against the store map: `store_after_record`
//! and `store_after_batch` say what a store holds after processing, and
//! `outcome_matches` says which outcome a record yields against a given store
//! state. `function_handler` is proved against that model whenever the store
//! handle is reliable, and proved to leave the store untouched whenever no
//! record reaches a successful write.

use vstd::prelude::*;
use crate::record::{
    NotificationRecord,
    RejectReason,
    spec_extract,
    extract,
    spec_thumbs_container,
    thumbs_container,
};
use crate::transform::{TransformError, spec_thumbnail, get_thumbnail};
use crate::store::{GetFile, PutFile};

verus! {

/// The terminal outcome of one record: where its processing stopped.
#[derive(Debug)]
pub enum RecordOutcome {
    /// The record was rejected before any store traffic.
    Skipped(RejectReason),
    /// The source object could not be fetched; the record was abandoned.
    FetchFailed(String),
    /// The source bytes yielded no thumbnail; the record was abandoned.
    TransformFailed(TransformError),
    /// The derivative could not be written; there is no further stage.
    StoreFailed(String),
    /// The derivative was written under the given container and key.
    Stored { container: String, key: String },
}

/// The store contents after one record is processed against the store `m`.
/// A rejected record, a missing source object and a failed transform all
/// leave the store as it is; otherwise the thumbnail is filed under the
/// destination container and the unchanged source key.
pub open spec fn store_after_record(
    m: Map<(Seq<char>, Seq<char>), Seq<u8>>,
    r: NotificationRecord,
    size: u32,
) -> Map<(Seq<char>, Seq<char>), Seq<u8>> {
    match spec_extract(r) {
        Err(_) => m,
        Ok(reference) => {
            let src = (reference.container@, reference.key@);
            if !m.contains_key(src) {
                m
            } else {
                match spec_thumbnail(m[src], size) {
                    None => m,
                    Some(t) => m.insert(
                        (spec_thumbs_container(reference.container@), reference.key@),
                        t,
                    ),
                }
            }
        },
    }
}

/// The store contents after a whole batch, processed in the order the
/// records were supplied.
pub open spec fn store_after_batch(
    m: Map<(Seq<char>, Seq<char>), Seq<u8>>,
    records: Seq<NotificationRecord>,
    size: u32,
) -> Map<(Seq<char>, Seq<char>), Seq<u8>>
    decreases records.len(),
{
    if records.len() == 0 {
        m
    } else {
        store_after_record(store_after_batch(m, records.drop_last(), size), records.last(), size)
    }
}

/// The outcome `o` is the one the record `r` yields against the store state
/// `m`, provided every store call behaves reliably.
pub open spec fn outcome_matches(
    o: RecordOutcome,
    m: Map<(Seq<char>, Seq<char>), Seq<u8>>,
    r: NotificationRecord,
    size: u32,
) -> bool {
    match spec_extract(r) {
        Err(reason) => o == RecordOutcome::Skipped(reason),
        Ok(reference) => {
            let src = (reference.container@, reference.key@);
            if !m.contains_key(src) {
                o is FetchFailed
            } else if spec_thumbnail(m[src], size) is None {
                o is TransformFailed
            } else {
                &&& o matches RecordOutcome::Stored { container, key }
                &&& container@ == spec_thumbs_container(reference.container@)
                &&& key@ == reference.key@
            }
        },
    }
}

/// Process one batch of notification records, in order, against the given
/// store handle. Every record yields an outcome; a record's failure at any
/// stage abandons that record alone. The batch itself never fails: per-record
/// failures are reported only through the returned outcomes.
pub fn function_handler<T: GetFile + PutFile>(
    records: Vec<NotificationRecord>,
    size: u32,
    client: &mut T,
) -> (outcomes: Vec<RecordOutcome>)
    requires
        1 <= size,
    ensures
        outcomes@.len() == records@.len(),
        forall|i: int|
            0 <= i < records@.len() ==> (spec_extract(records@[i]) matches Err(reason)
                ==> #[trigger] outcomes@[i] == RecordOutcome::Skipped(reason)),
        forall|i: int|
            0 <= i < records@.len() ==> (spec_extract(records@[i]) is Ok ==> !(
            #[trigger] outcomes@[i] is Skipped)),
        forall|i: int|
            0 <= i < records@.len() ==> (#[trigger] outcomes@[i] matches RecordOutcome::Stored {
                container,
                key,
            } ==> spec_extract(records@[i]) matches Ok(reference) && container@
                == spec_thumbs_container(reference.container@) && key@ == reference.key@),
        (forall|i: int| 0 <= i < records@.len() ==> !(#[trigger] outcomes@[i] is Stored))
            ==> final(client).objects() == old(client).objects(),
        final(client).reliable() == old(client).reliable(),
        old(client).reliable() ==> final(client).objects() == store_after_batch(
            old(client).objects(),
            records@,
            size,
        ),
        old(client).reliable() ==> forall|i: int|
            0 <= i < records@.len() ==> outcome_matches(
                #[trigger] outcomes@[i],
                store_after_batch(old(client).objects(), records@.take(i), size),
                records@[i],
                size,
            ),
{
    let mut outcomes: Vec<RecordOutcome> = Vec::new();
    let mut i: usize = 0;
    while i < records.len()
        invariant
            1 <= size,
            i <= records@.len(),
            outcomes@.len() == i,
            client.reliable() == old(client).reliable(),
            forall|j: int|
                0 <= j < i ==> (spec_extract(records@[j]) matches Err(reason)
                    ==> #[trigger] outcomes@[j] == RecordOutcome::Skipped(reason)),
            forall|j: int|
                0 <= j < i ==> (spec_extract(records@[j]) is Ok ==> !(
                #[trigger] outcomes@[j] is Skipped)),
            forall|j: int|
                0 <= j < i ==> (#[trigger] outcomes@[j] matches RecordOutcome::Stored {
                    container,
                    key,
                } ==> spec_extract(records@[j]) matches Ok(reference) && container@
                    == spec_thumbs_container(reference.container@) && key@ == reference.key@),
            (forall|j: int| 0 <= j < i ==> !(#[trigger] outcomes@[j] is Stored))
                ==> client.objects() == old(client).objects(),
            old(client).reliable() ==> client.objects() == store_after_batch(
                old(client).objects(),
                records@.take(i as int),
                size,
            ),
            old(client).reliable() ==> forall|j: int|
                0 <= j < i ==> outcome_matches(
                    #[trigger] outcomes@[j],
                    store_after_batch(old(client).objects(), records@.take(j), size),
                    records@[j],
                    size,
                ),
        decreases records@.len() - i,
    {
        let ghost store_before = client.objects();
        let outcome = match extract(&records[i]) {
            Err(reason) => RecordOutcome::Skipped(reason),
            Ok(reference) => {
                match client.get_file(reference.container.as_str(), reference.key.as_str()) {
                    Err(message) => RecordOutcome::FetchFailed(message),
                    Ok(image) => {
                        match get_thumbnail(image, size) {
                            Err(fault) => RecordOutcome::TransformFailed(fault),
                            Ok(thumbnail) => {
                                let destination = thumbs_container(&reference.container);
                                match client.put_file(
                                    destination.as_str(),
                                    reference.key.as_str(),
                                    thumbnail,
                                ) {
                                    Ok(_) => RecordOutcome::Stored {
                                        container: destination,
                                        key: reference.key,
                                    },
                                    Err(message) => RecordOutcome::StoreFailed(message),
                                }
                            },
                        }
                    },
                }
            },
        };
        proof {
            assert(records@.take(i + 1).drop_last() =~= records@.take(i as int));
            assert(records@.take(i + 1).last() == records@[i as int]);
            if old(client).reliable() {
                assert(client.objects() == store_after_record(store_before, records@[i as int], size));
            }
        }
        let ghost outcomes_before = outcomes@;
        outcomes.push(outcome);
        i = i + 1;
        proof {
            assert(forall|j: int|
                0 <= j < outcomes_before.len() ==> outcomes@[j] == outcomes_before[j]);
            assert(outcomes@[outcomes_before.len() as int] == outcome);
        }
    }
    proof {
        assert(records@.take(records@.len() as int) =~= records@);
    }
    outcomes
}

} // verus!
