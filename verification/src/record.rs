//! Notification records and the validated object references derived from them.
//!
//! A record arrives from the triggering system and is untrusted: it is turned
//! into an `ObjectReference` only when its event name marks an object-creation
//! event and both the container name and the object key are present and
//! non-empty. The destination of a derivative is computed here as well: the
//! source container name with a fixed suffix, the key unchanged.

use vstd::prelude::*;
use vstd::string::*;

verus! {

/// One raw storage notification, as delivered by the triggering system.
/// Externally supplied and untrusted: any field may be absent.
pub struct NotificationRecord {
    pub event_name: Option<String>,
    pub container: Option<String>,
    pub key: Option<String>,
}

/// A validated reference to one object in the store: both parts non-empty.
#[derive(Debug)]
pub struct ObjectReference {
    pub container: String,
    pub key: String,
}

impl ObjectReference {
    /// A reference is well formed when neither part is empty.
    pub open spec fn wf(&self) -> bool {
        self.container@.len() > 0 && self.key@.len() > 0
    }
}

/// Why a record was rejected before any store traffic.
#[derive(Clone, Copy, PartialEq, Eq, Structural, Debug)]
pub enum RejectReason {
    /// The event name is absent or does not start with the creation prefix.
    WrongEventType,
    /// The container name is absent or empty.
    MissingContainer,
    /// The object key is absent or empty.
    MissingKey,
}

/// `p` is a prefix of `s`.
pub open spec fn spec_starts_with(s: Seq<char>, p: Seq<char>) -> bool {
    p.len() <= s.len() && s.take(p.len() as int) == p
}

/// The event-name prefix that marks an object-creation notification.
pub open spec fn creation_prefix() -> Seq<char> {
    "ObjectCreated"@
}

/// The suffix appended to a source container name to obtain the
/// destination container for derivatives.
pub open spec fn thumbs_suffix() -> Seq<char> {
    "-thumbs"@
}

/// The destination container name for a given source container name.
pub open spec fn spec_thumbs_container(container: Seq<char>) -> Seq<char> {
    container + thumbs_suffix()
}

/// An optional string field that is present and non-empty.
pub open spec fn has_nonempty(field: Option<String>) -> bool {
    field matches Some(s) && s@.len() > 0
}

/// The record's event name marks an object-creation event.
pub open spec fn is_creation_event(event_name: Option<String>) -> bool {
    event_name matches Some(e) && spec_starts_with(e@, creation_prefix())
}

/// What `extract` returns for a given record: the validated reference, or
/// the first reason to reject, checked in the order event name, container,
/// key.
pub open spec fn spec_extract(r: NotificationRecord) -> Result<ObjectReference, RejectReason> {
    if !is_creation_event(r.event_name) {
        Err(RejectReason::WrongEventType)
    } else if !has_nonempty(r.container) {
        Err(RejectReason::MissingContainer)
    } else if !has_nonempty(r.key) {
        Err(RejectReason::MissingKey)
    } else {
        Ok(ObjectReference { container: r.container->0, key: r.key->0 })
    }
}

/// `p` is a prefix of `s`, decided character by character.
pub fn str_starts_with(s: &str, p: &str) -> (r: bool)
    ensures
        r == spec_starts_with(s@, p@),
{
    let n: usize = p.unicode_len();
    if s.unicode_len() < n {
        return false;
    }
    let mut i: usize = 0;
    while i < n
        invariant
            i <= n,
            n == p@.len(),
            n <= s@.len(),
            forall|j: int| 0 <= j < i ==> s@[j] == p@[j],
        decreases n - i,
    {
        if s.get_char(i) != p.get_char(i) {
            assert(s@.take(n as int)[i as int] != p@[i as int]);
            return false;
        }
        i += 1;
    }
    assert(s@.take(n as int) =~= p@);
    true
}

/// Validate one record and extract its object reference, or reject it with
/// the first applicable reason. Pure: no side effects, no store traffic.
pub fn extract(record: &NotificationRecord) -> (r: Result<ObjectReference, RejectReason>)
    ensures
        r == spec_extract(*record),
        r matches Ok(reference) ==> reference.wf(),
{
    let event_ok = match &record.event_name {
        Some(e) => str_starts_with(e.as_str(), "ObjectCreated"),
        None => false,
    };
    if !event_ok {
        return Err(RejectReason::WrongEventType);
    }
    let container = match &record.container {
        Some(c) => {
            if c.as_str().unicode_len() == 0 {
                return Err(RejectReason::MissingContainer);
            }
            c.clone()
        },
        None => {
            return Err(RejectReason::MissingContainer);
        },
    };
    let key = match &record.key {
        Some(k) => {
            if k.as_str().unicode_len() == 0 {
                return Err(RejectReason::MissingKey);
            }
            k.clone()
        },
        None => {
            return Err(RejectReason::MissingKey);
        },
    };
    Ok(ObjectReference { container, key })
}

/// The destination container name: the source container name with the
/// fixed suffix appended; the object key is never transformed.
pub fn thumbs_container(container: &String) -> (r: String)
    ensures
        r@ == spec_thumbs_container(container@),
{
    let mut out = container.clone();
    out.append("-thumbs");
    out
}

} // verus!
