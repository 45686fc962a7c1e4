//! The table of in-flight transactions, keyed by signature.
//!
//! The store keeps its records in the order in which they were accepted. Its
//! model is that sequence of record views, [`TransactionStore::entries`]; the
//! view `store@` is the same content as a map from signature to record.

use crate::record::{RecordView, TransactionRecord};
use vstd::prelude::*;

verus! {

/// The views of a sequence of records, in the same order.
pub open spec fn views(records: Seq<TransactionRecord>) -> Seq<RecordView> {
    records.map_values(|r: TransactionRecord| r@)
}

/// Some entry carries `signature`.
pub open spec fn has_signature(entries: Seq<RecordView>, signature: Seq<char>) -> bool {
    exists|i: int|
        #![trigger entries[i]]
        0 <= i < entries.len() && entries[i].signature == signature
}

/// The position of an entry that carries `signature`, where there is one.
pub open spec fn index_of(entries: Seq<RecordView>, signature: Seq<char>) -> int {
    choose|i: int|
        #![trigger entries[i]]
        0 <= i < entries.len() && entries[i].signature == signature
}

/// No two entries carry the same signature.
pub open spec fn distinct_signatures(entries: Seq<RecordView>) -> bool {
    forall|i: int, j: int|
        #![trigger entries[i], entries[j]]
        0 <= i < j < entries.len() ==> entries[i].signature != entries[j].signature
}

/// Every entry keeps its retry counter within its cap.
pub open spec fn all_wf(entries: Seq<RecordView>) -> bool {
    forall|i: int| #![trigger entries[i]] 0 <= i < entries.len() ==> entries[i].wf()
}

/// The entries as a map from signature to record.
pub open spec fn as_map(entries: Seq<RecordView>) -> Map<Seq<char>, RecordView> {
    Map::new(
        |k: Seq<char>| has_signature(entries, k),
        |k: Seq<char>| entries[index_of(entries, k)],
    )
}

/// With distinct signatures, the entry at `i` is the one its signature finds.
pub proof fn lemma_index_of(entries: Seq<RecordView>, i: int)
    requires
        distinct_signatures(entries),
        0 <= i < entries.len(),
    ensures
        has_signature(entries, entries[i].signature),
        index_of(entries, entries[i].signature) == i,
        as_map(entries).contains_key(entries[i].signature),
        as_map(entries)[entries[i].signature] == entries[i],
{
    let j = index_of(entries, entries[i].signature);
    assert(0 <= j < entries.len() && entries[j].signature == entries[i].signature);
    if j < i {
        assert(entries[j].signature != entries[i].signature);
    } else if i < j {
        assert(entries[i].signature != entries[j].signature);
    }
}

/// Appending an entry with a new signature inserts it into the map.
pub proof fn lemma_push_entry(entries: Seq<RecordView>, added: RecordView)
    requires
        distinct_signatures(entries),
        !has_signature(entries, added.signature),
    ensures
        distinct_signatures(entries.push(added)),
        as_map(entries.push(added)) == as_map(entries).insert(added.signature, added),
{
    let after = entries.push(added);
    assert forall|i: int, j: int| 0 <= i < j < after.len() implies after[i].signature
        != after[j].signature by {
        if j < entries.len() {
            assert(entries[i].signature != entries[j].signature);
        } else {
            assert(entries[i] == after[i]);
        }
    }
    assert forall|k: Seq<char>| has_signature(after, k) <==> (has_signature(entries, k) || k
        == added.signature) by {
        if has_signature(after, k) {
            let i = index_of(after, k);
            if i < entries.len() {
                assert(entries[i].signature == k);
            }
        }
        if has_signature(entries, k) {
            let i = index_of(entries, k);
            assert(after[i].signature == k);
        }
        if k == added.signature {
            assert(after[entries.len() as int].signature == k);
        }
    }
    assert forall|k: Seq<char>| has_signature(after, k) implies #[trigger] as_map(after)[k]
        == as_map(entries).insert(added.signature, added)[k] by {
        let i = index_of(after, k);
        lemma_index_of(after, i);
        if i < entries.len() {
            assert(entries[i] == after[i]);
            lemma_index_of(entries, i);
        }
    }
    assert(as_map(after) =~= as_map(entries).insert(added.signature, added));
}

/// Taking the entry at `at` out removes its signature from the map.
pub proof fn lemma_remove_entry(entries: Seq<RecordView>, at: int)
    requires
        distinct_signatures(entries),
        0 <= at < entries.len(),
    ensures
        distinct_signatures(entries.remove(at)),
        !has_signature(entries.remove(at), entries[at].signature),
        as_map(entries.remove(at)) == as_map(entries).remove(entries[at].signature),
{
    let after = entries.remove(at);
    let gone = entries[at].signature;
    assert forall|i: int, j: int| 0 <= i < j < after.len() implies after[i].signature
        != after[j].signature by {
        let a = if i < at { i } else { i + 1 };
        let b = if j < at { j } else { j + 1 };
        assert(entries[a].signature != entries[b].signature);
    }
    assert forall|k: Seq<char>| has_signature(after, k) <==> (has_signature(entries, k) && k
        != gone) by {
        if has_signature(after, k) {
            let i = index_of(after, k);
            let a = if i < at { i } else { i + 1 };
            assert(entries[a].signature == k);
            if a < at {
                assert(entries[a].signature != entries[at].signature);
            } else {
                assert(entries[at].signature != entries[a].signature);
            }
        }
        if has_signature(entries, k) && k != gone {
            let a = index_of(entries, k);
            let i = if a < at { a } else { a - 1 };
            assert(after[i].signature == k);
        }
    }
    assert forall|k: Seq<char>| has_signature(after, k) implies #[trigger] as_map(after)[k]
        == as_map(entries).remove(gone)[k] by {
        let i = index_of(after, k);
        lemma_index_of(after, i);
        let a = if i < at { i } else { i + 1 };
        lemma_index_of(entries, a);
    }
    assert(as_map(after) =~= as_map(entries).remove(gone));
}

/// Replacing the entry at `at` by one with the same signature updates the map
/// at that signature.
pub proof fn lemma_update_entry(entries: Seq<RecordView>, at: int, changed: RecordView)
    requires
        distinct_signatures(entries),
        0 <= at < entries.len(),
        changed.signature == entries[at].signature,
    ensures
        distinct_signatures(entries.update(at, changed)),
        as_map(entries.update(at, changed)) == as_map(entries).insert(
            changed.signature,
            changed,
        ),
{
    let after = entries.update(at, changed);
    assert forall|i: int, j: int| 0 <= i < j < after.len() implies after[i].signature
        != after[j].signature by {
        assert(entries[i].signature != entries[j].signature);
    }
    assert forall|k: Seq<char>| has_signature(after, k) <==> has_signature(entries, k) by {
        if has_signature(after, k) {
            let i = index_of(after, k);
            assert(entries[i].signature == k);
        }
        if has_signature(entries, k) {
            let i = index_of(entries, k);
            assert(after[i].signature == k);
        }
    }
    lemma_index_of(entries, at);
    assert forall|k: Seq<char>| has_signature(after, k) implies #[trigger] as_map(after)[k]
        == as_map(entries).insert(changed.signature, changed)[k] by {
        let i = index_of(after, k);
        lemma_index_of(after, i);
        lemma_index_of(entries, i);
    }
    assert(as_map(after) =~= as_map(entries).insert(changed.signature, changed));
}

/// An insertion was refused because a live record already has this signature.
#[derive(Debug)]
pub struct DuplicateSignature {
    pub signature: String,
}

/// The in-flight transactions, at most one per signature.
#[derive(Debug)]
pub struct TransactionStore {
    records: Vec<TransactionRecord>,
}

impl View for TransactionStore {
    type V = Map<Seq<char>, RecordView>;

    open spec fn view(&self) -> Map<Seq<char>, RecordView> {
        as_map(self.entries())
    }
}

impl TransactionStore {
    /// The live records, oldest first.
    pub closed spec fn entries(&self) -> Seq<RecordView> {
        views(self.records@)
    }

    /// Signatures are distinct and every record is well formed.
    pub open spec fn wf(&self) -> bool {
        &&& distinct_signatures(self.entries())
        &&& all_wf(self.entries())
    }

    /// The entries are the views of the stored records, position by position.
    proof fn lemma_entries(&self)
        ensures
            self.entries().len() == self.records@.len(),
            forall|i: int|
                #![trigger self.entries()[i]]
                0 <= i < self.records@.len() ==> self.entries()[i] == self.records@[i]@,
    {
    }

    /// An empty store.
    pub fn new() -> (store: Self)
        ensures
            store.wf(),
            store.entries() == Seq::<RecordView>::empty(),
            store@ == Map::<Seq<char>, RecordView>::empty(),
    {
        let store = TransactionStore { records: Vec::new() };
        assert(store.entries() =~= Seq::<RecordView>::empty());
        assert(store@ =~= Map::<Seq<char>, RecordView>::empty());
        store
    }

    /// The number of live records.
    pub fn len(&self) -> (n: usize)
        ensures
            n == self.entries().len(),
    {
        self.records.len()
    }

    /// Whether no record is live.
    pub fn is_empty(&self) -> (empty: bool)
        ensures
            empty == (self.entries().len() == 0),
    {
        self.records.len() == 0
    }

    /// Where the record with this signature stands, if it is live.
    pub fn position(&self, signature: &String) -> (found: Option<usize>)
        requires
            self.wf(),
        ensures
            match found {
                Some(i) => i < self.entries().len() && self.entries()[i as int].signature
                    == signature@ && index_of(self.entries(), signature@) == i,
                None => !has_signature(self.entries(), signature@),
            },
            found is Some <==> self@.contains_key(signature@),
    {
        let mut i: usize = 0;
        while i < self.records.len()
            invariant
                self.wf(),
                i <= self.records.len(),
                forall|j: int|
                    #![trigger self.entries()[j]]
                    0 <= j < i ==> self.entries()[j].signature != signature@,
            decreases self.records.len() - i,
        {
            proof {
                self.lemma_entries();
            }
            if *self.records[i].signature() == *signature {
                proof {
                    lemma_index_of(self.entries(), i as int);
                }
                return Some(i);
            }
            i = i + 1;
        }
        None
    }

    /// Whether a record with this signature is live.
    pub fn contains(&self, signature: &String) -> (present: bool)
        requires
            self.wf(),
        ensures
            present == self@.contains_key(signature@),
    {
        self.position(signature).is_some()
    }

    /// The live record with this signature.
    pub fn get(&self, signature: &String) -> (found: Option<&TransactionRecord>)
        requires
            self.wf(),
        ensures
            match found {
                Some(record) => self@.contains_key(signature@) && record@ == self@[signature@]
                    && record.wf(),
                None => !self@.contains_key(signature@),
            },
    {
        match self.position(signature) {
            Some(i) => {
                proof {
                    self.lemma_entries();
                    lemma_index_of(self.entries(), i as int);
                    assert(self.entries()[i as int].wf());
                }
                Some(&self.records[i])
            },
            None => None,
        }
    }

    /// The record at position `i`.
    pub(crate) fn record_at(&self, i: usize) -> (record: &TransactionRecord)
        requires
            self.wf(),
            i < self.entries().len(),
        ensures
            record@ == self.entries()[i as int],
            record.wf(),
    {
        proof {
            self.lemma_entries();
            assert(self.entries()[i as int].wf());
        }
        &self.records[i]
    }

    /// Accepts `record` unless a live record already has its signature; the
    /// store is unchanged when it refuses.
    pub fn insert(&mut self, record: TransactionRecord) -> (result: Result<(), DuplicateSignature>)
        requires
            old(self).wf(),
            record.wf(),
        ensures
            final(self).wf(),
            match result {
                Ok(()) => {
                    &&& !old(self)@.contains_key(record@.signature)
                    &&& final(self).entries() == old(self).entries().push(record@)
                    &&& final(self)@ == old(self)@.insert(record@.signature, record@)
                },
                Err(e) => {
                    &&& old(self)@.contains_key(record@.signature)
                    &&& e.signature@ == record@.signature
                    &&& final(self).entries() == old(self).entries()
                },
            },
    {
        if self.position(record.signature()).is_some() {
            return Err(DuplicateSignature { signature: record.signature().clone() });
        }
        proof {
            lemma_push_entry(self.entries(), record@);
            assert(views(self.records@.push(record)) =~= views(self.records@).push(record@));
        }
        self.records.push(record);
        Ok(())
    }

    /// Takes the record with this signature out of the store. Removing a
    /// signature that is not live changes nothing.
    pub fn remove(&mut self, signature: &String) -> (removed: Option<TransactionRecord>)
        requires
            old(self).wf(),
        ensures
            final(self).wf(),
            match removed {
                Some(record) => {
                    &&& old(self)@.contains_key(signature@)
                    &&& record@ == old(self)@[signature@]
                    &&& record.wf()
                    &&& final(self).entries() == old(self).entries().remove(
                        index_of(old(self).entries(), signature@),
                    )
                    &&& final(self)@ == old(self)@.remove(signature@)
                },
                None => {
                    &&& !old(self)@.contains_key(signature@)
                    &&& final(self).entries() == old(self).entries()
                },
            },
    {
        match self.position(signature) {
            Some(i) => Some(self.remove_at(i)),
            None => None,
        }
    }

    /// Takes the record at position `i` out of the store.
    pub(crate) fn remove_at(&mut self, i: usize) -> (record: TransactionRecord)
        requires
            old(self).wf(),
            i < old(self).entries().len(),
        ensures
            final(self).wf(),
            record.wf(),
            record@ == old(self).entries()[i as int],
            final(self).entries() == old(self).entries().remove(i as int),
            final(self)@ == old(self)@.remove(record@.signature),
            !final(self)@.contains_key(record@.signature),
    {
        proof {
            self.lemma_entries();
            assert(self.entries()[i as int].wf());
            lemma_remove_entry(self.entries(), i as int);
            lemma_index_of(self.entries(), i as int);
            assert(views(self.records@.remove(i as int)) =~= views(self.records@).remove(
                i as int,
            ));
        }
        self.records.remove(i)
    }

    /// Books one resend attempt, made at `now`, on the record at position `i`.
    pub(crate) fn note_resend_at(&mut self, i: usize, now: u64)
        requires
            old(self).wf(),
            i < old(self).entries().len(),
            old(self).entries()[i as int].retry_count < old(self).entries()[i as int].max_retries,
        ensures
            final(self).wf(),
            final(self).entries() == old(self).entries().update(
                i as int,
                old(self).entries()[i as int].resent(now),
            ),
            final(self)@ == old(self)@.insert(
                old(self).entries()[i as int].signature,
                old(self).entries()[i as int].resent(now),
            ),
    {
        proof {
            self.lemma_entries();
            assert(self.entries()[i as int].wf());
        }
        let mut record = self.records.remove(i);
        record.note_resend(now);
        proof {
            lemma_update_entry(old(self).entries(), i as int, record@);
            assert(views(old(self).records@.remove(i as int).insert(i as int, record))
                =~= views(old(self).records@).update(i as int, record@));
        }
        self.records.insert(i, record);
    }

    /// A copy of every live record, oldest first. Later changes to the store
    /// do not reach the copy.
    pub fn snapshot(&self) -> (copy: Vec<TransactionRecord>)
        requires
            self.wf(),
        ensures
            views(copy@) == self.entries(),
    {
        let mut copy: Vec<TransactionRecord> = Vec::new();
        let mut i: usize = 0;
        while i < self.records.len()
            invariant
                i <= self.records.len(),
                copy.len() == i,
                views(copy@) == self.entries().take(i as int),
            decreases self.records.len() - i,
        {
            let record = self.records[i].clone();
            proof {
                self.lemma_entries();
                let grown = views(copy@.push(record));
                let prefix = self.entries().take(i + 1);
                assert(grown.len() == prefix.len());
                assert forall|j: int| 0 <= j < grown.len() implies grown[j] == prefix[j] by {
                    if j < i {
                        assert(views(copy@)[j] == self.entries().take(i as int)[j]);
                    } else {
                        assert(self.entries()[i as int] == self.records@[i as int]@);
                    }
                }
                assert(grown =~= prefix);
            }
            copy.push(record);
            i = i + 1;
        }
        assert(self.entries().take(i as int) =~= self.entries());
        copy
    }
}

} // verus!
