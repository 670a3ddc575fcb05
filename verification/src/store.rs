//! The object-store capability the pipeline depends on, and a verified
//! in-memory store.
//!
//! The orchestrator never sees a concrete network client: it depends on the
//! `GetFile` and `PutFile` capabilities alone, so a stand-in store can be
//! substituted for tests. A store handle is modelled by the map of objects it
//! can serve, keyed by (container name, key). A handle may be unreliable — a
//! networked store can fail any call transiently — so success is only owed by
//! handles whose `reliable()` holds, such as the in-memory store below.

use vstd::prelude::*;
use vstd::string::*;

verus! {

/// Read access to an object store.
pub trait GetFile {
    /// The keyed objects this handle can currently serve: a map from
    /// (container name, key) to the object's bytes.
    spec fn objects(&self) -> Map<(Seq<char>, Seq<char>), Seq<u8>>;

    /// The handle never fails spuriously: a fetch succeeds exactly when the
    /// object is present, and a write always succeeds. Holds of the
    /// in-memory store; a networked handle may fail any call transiently.
    spec fn reliable(&self) -> bool;

    /// Fetch one object's bytes. A success returns the stored bytes; any
    /// call may fail, but a reliable handle fails exactly on absent objects.
    fn get_file(&self, container: &str, key: &str) -> (r: Result<Vec<u8>, String>)
        ensures
            r matches Ok(v) ==> self.objects().contains_key((container@, key@))
                && v@ == self.objects()[(container@, key@)],
            self.reliable() ==> (r is Ok <==> self.objects().contains_key((container@, key@))),
    ;
}

/// Write access to an object store.
pub trait PutFile: GetFile {
    /// Write one object, replacing any previous object under the same
    /// container and key. A failed write leaves the store unchanged.
    fn put_file(&mut self, container: &str, key: &str, contents: Vec<u8>) -> (r: Result<
        String,
        String,
    >)
        ensures
            r is Ok ==> final(self).objects() == old(self).objects().insert(
                (container@, key@),
                contents@,
            ),
            r is Err ==> final(self).objects() == old(self).objects(),
            final(self).reliable() == old(self).reliable(),
            old(self).reliable() ==> r is Ok,
    ;
}

/// The (container name, key) a stored entry is filed under.
spec fn entry_key(e: (String, String, Vec<u8>)) -> (Seq<char>, Seq<char>) {
    (e.0@, e.1@)
}

/// The map of objects held by a sequence of entries; a later entry under the
/// same container and key shadows an earlier one.
spec fn entries_map(s: Seq<(String, String, Vec<u8>)>) -> Map<
    (Seq<char>, Seq<char>),
    Seq<u8>,
>
    decreases s.len(),
{
    if s.len() == 0 {
        Map::empty()
    } else {
        entries_map(s.drop_last()).insert(entry_key(s.last()), s.last().2@)
    }
}

/// An entry sequence holds a key exactly when one of its entries is filed
/// under it.
proof fn lemma_entries_map_domain(s: Seq<(String, String, Vec<u8>)>, k: (Seq<char>, Seq<char>))
    ensures
        entries_map(s).contains_key(k) <==> exists|j: int|
            0 <= j < s.len() && entry_key(s[j]) == k,
    decreases s.len(),
{
    if s.len() > 0 {
        lemma_entries_map_domain(s.drop_last(), k);
        if entries_map(s).contains_key(k) && entry_key(s.last()) != k {
            assert(entry_key(s[s.len() - 1]) == entry_key(s.last()));
        }
        if exists|j: int| 0 <= j < s.len() && entry_key(s[j]) == k {
            let j = choose|j: int| 0 <= j < s.len() && entry_key(s[j]) == k;
            if j < s.len() - 1 {
                assert(entry_key(s.drop_last()[j]) == k);
            }
        }
    }
}

/// The value filed under a key is the value of the last entry under it.
proof fn lemma_entries_map_value(s: Seq<(String, String, Vec<u8>)>, j: int)
    requires
        0 <= j < s.len(),
        forall|l: int| j < l < s.len() ==> entry_key(s[l]) != entry_key(s[j]),
    ensures
        entries_map(s).contains_key(entry_key(s[j])),
        entries_map(s)[entry_key(s[j])] == s[j].2@,
    decreases s.len(),
{
    if j == s.len() - 1 {
        assert(entry_key(s.last()) == entry_key(s[j]));
    } else {
        assert(s.drop_last()[j] == s[j]);
        assert(forall|l: int|
            j < l < s.drop_last().len() ==> entry_key(s.drop_last()[l]) != entry_key(
                s.drop_last()[j],
            ));
        lemma_entries_map_value(s.drop_last(), j);
        assert(entry_key(s[s.len() - 1]) == entry_key(s.last()));
    }
}

/// An in-memory object store: the stand-in used by tests, and the reference
/// implementation of the two capabilities.
pub struct MemStore {
    entries: Vec<(String, String, Vec<u8>)>,
}

impl MemStore {
    /// An empty store.
    pub fn new() -> (r: MemStore)
        ensures
            r.objects() == Map::<(Seq<char>, Seq<char>), Seq<u8>>::empty(),
            r.reliable(),
    {
        MemStore { entries: Vec::new() }
    }
}

impl GetFile for MemStore {
    closed spec fn objects(&self) -> Map<(Seq<char>, Seq<char>), Seq<u8>> {
        entries_map(self.entries@)
    }

    open spec fn reliable(&self) -> bool {
        true
    }

    fn get_file(&self, container: &str, key: &str) -> (r: Result<Vec<u8>, String>) {
        let c = container.to_owned();
        let k = key.to_owned();
        let mut i: usize = self.entries.len();
        while i > 0
            invariant
                i <= self.entries@.len(),
                c@ == container@,
                k@ == key@,
                forall|j: int|
                    i <= j < self.entries@.len() ==> entry_key(self.entries@[j]) != (
                        container@,
                        key@,
                    ),
            decreases i,
        {
            i = i - 1;
            let e = &self.entries[i];
            if e.0 == c && e.1 == k {
                proof {
                    lemma_entries_map_value(self.entries@, i as int);
                }
                return Ok(e.2.clone());
            }
        }
        proof {
            lemma_entries_map_domain(self.entries@, (container@, key@));
        }
        Err("no object under this container and key".to_owned())
    }
}

impl PutFile for MemStore {
    fn put_file(&mut self, container: &str, key: &str, contents: Vec<u8>) -> (r: Result<
        String,
        String,
    >) {
        let ghost previous = self.entries@;
        let entry = (container.to_owned(), key.to_owned(), contents);
        self.entries.push(entry);
        proof {
            assert(self.entries@.drop_last() =~= previous);
        }
        Ok("stored".to_owned())
    }
}

} // verus!
