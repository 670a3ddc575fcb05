//! The guarantees of the pipeline, stated over the store model and proved
//! once for every batch, record and store state.

use vstd::prelude::*;
use crate::record::{
    NotificationRecord,
    RejectReason,
    spec_extract,
    is_creation_event,
    has_nonempty,
    spec_thumbs_container,
};
use crate::transform::spec_thumbnail;
use crate::pipeline::{RecordOutcome, store_after_record, store_after_batch, outcome_matches};

verus! {

/// A record whose event name does not mark an object creation is rejected
/// before any store traffic: for every store state the store is left as it
/// is, and the record's outcome is the rejection itself, the same against
/// every store state.
pub proof fn law_wrong_event_untouched(
    m: Map<(Seq<char>, Seq<char>), Seq<u8>>,
    r: NotificationRecord,
    size: u32,
)
    requires
        !is_creation_event(r.event_name),
    ensures
        spec_extract(r) matches Err(reason) && reason == RejectReason::WrongEventType,
        store_after_record(m, r, size) == m,
        forall|o: RecordOutcome|
            outcome_matches(o, m, r, size) <==> o == RecordOutcome::Skipped(
                RejectReason::WrongEventType,
            ),
{
}

/// A record whose container or key is absent or empty is rejected before
/// any store traffic: for every store state the store is left as it is, and
/// the record's outcome is a rejection, the same against every store state.
pub proof fn law_missing_field_untouched(
    m: Map<(Seq<char>, Seq<char>), Seq<u8>>,
    r: NotificationRecord,
    size: u32,
)
    requires
        !has_nonempty(r.container) || !has_nonempty(r.key),
    ensures
        spec_extract(r) is Err,
        store_after_record(m, r, size) == m,
        forall|o: RecordOutcome|
            outcome_matches(o, m, r, size) <==> o == RecordOutcome::Skipped(
                spec_extract(r)->Err_0,
            ),
{
}

/// A record whose container is present but empty is treated exactly like
/// one whose container is absent: validation decides the same way on both.
pub proof fn law_empty_container_like_absent(r1: NotificationRecord, r2: NotificationRecord)
    requires
        r1.event_name == r2.event_name,
        r1.key == r2.key,
        r1.container matches Some(c) && c@.len() == 0,
        r2.container is None,
    ensures
        spec_extract(r1) == spec_extract(r2),
{
}

/// A valid record only ever writes under the destination derived from its
/// source: the source container name with the fixed suffix, and the source
/// key byte for byte. Every other entry of the store is left exactly as it
/// was.
pub proof fn law_destination_naming(
    m: Map<(Seq<char>, Seq<char>), Seq<u8>>,
    r: NotificationRecord,
    size: u32,
)
    requires
        spec_extract(r) is Ok,
    ensures
        forall|k: (Seq<char>, Seq<char>)|
            k != (
                spec_thumbs_container(spec_extract(r)->Ok_0.container@),
                spec_extract(r)->Ok_0.key@,
            ) ==> (#[trigger] store_after_record(m, r, size).contains_key(k) <==> m.contains_key(
                k,
            )) && (m.contains_key(k) ==> store_after_record(m, r, size)[k] == m[k]),
{
}

/// A record whose source object cannot be fetched leaves the store exactly
/// as it was, so the records after it proceed against the same store state
/// and yield the same outcomes as if the failed record had never been
/// supplied.
pub proof fn law_fetch_failure_isolated(
    m: Map<(Seq<char>, Seq<char>), Seq<u8>>,
    r1: NotificationRecord,
    r2: NotificationRecord,
    size: u32,
)
    requires
        spec_extract(r1) matches Ok(reference) && !m.contains_key(
            (reference.container@, reference.key@),
        ),
    ensures
        store_after_record(m, r1, size) == m,
        forall|o: RecordOutcome|
            outcome_matches(o, store_after_record(m, r1, size), r2, size) == outcome_matches(
                o,
                m,
                r2,
                size,
            ),
{
}

/// A record whose source bytes yield no thumbnail writes nothing: the store
/// after the record is exactly the store before it.
pub proof fn law_transform_failure_no_write(
    m: Map<(Seq<char>, Seq<char>), Seq<u8>>,
    r: NotificationRecord,
    size: u32,
)
    requires
        spec_extract(r) matches Ok(reference) && m.contains_key(
            (reference.container@, reference.key@),
        ) && spec_thumbnail(m[(reference.container@, reference.key@)], size) is None,
    ensures
        store_after_record(m, r, size) == m,
{
}

/// Processing is a function of the batch, the target size and the prior
/// store state alone: two invocations on the same batch against the same
/// store state produce the same store contents. The transform behind it is
/// a pure function of the source bytes and the target size.
pub proof fn law_batch_deterministic(
    m1: Map<(Seq<char>, Seq<char>), Seq<u8>>,
    m2: Map<(Seq<char>, Seq<char>), Seq<u8>>,
    records1: Seq<NotificationRecord>,
    records2: Seq<NotificationRecord>,
    size: u32,
)
    requires
        m1 == m2,
        records1 == records2,
    ensures
        store_after_batch(m1, records1, size) == store_after_batch(m2, records2, size),
{
}

} // verus!
