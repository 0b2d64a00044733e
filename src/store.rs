//! The reference store: one embedding per enrolled (identity, mode).
use vstd::prelude::*;
use crate::config::Modes;
use crate::similarity::Embedding;

verus! {

/// The key a record is stored under.
pub type RecordKey = (Seq<char>, Modes);

/// The reference embedding of one identity in one mode.
#[derive(Debug)]
pub struct ReferenceRecord {
    pub identity: String,
    pub mode: Modes,
    pub embedding: Embedding,
}

impl ReferenceRecord {
    /// The key of the record.
    pub open spec fn key(&self) -> RecordKey {
        (self.identity@, self.mode)
    }
}

/// The map that a list of records stands for: a later record of a key
/// shadows an earlier one.
pub open spec fn records_map(recs: Seq<ReferenceRecord>) -> Map<RecordKey, Seq<i16>>
    decreases recs.len(),
{
    if recs.len() == 0 {
        Map::empty()
    } else {
        records_map(recs.drop_last()).insert(recs.last().key(), recs.last().embedding@)
    }
}

proof fn lemma_absent(recs: Seq<ReferenceRecord>, k: RecordKey)
    requires
        forall|i: int| 0 <= i < recs.len() ==> recs[i].key() != k,
    ensures
        !records_map(recs).contains_key(k),
    decreases recs.len(),
{
    if recs.len() > 0 {
        lemma_absent(recs.drop_last(), k);
    }
}

proof fn lemma_last_wins(recs: Seq<ReferenceRecord>, j: int, k: RecordKey)
    requires
        0 <= j < recs.len(),
        recs[j].key() == k,
        forall|i: int| j < i < recs.len() ==> recs[i].key() != k,
    ensures
        records_map(recs).contains_key(k),
        records_map(recs)[k] == recs[j].embedding@,
    decreases recs.len(),
{
    if j < recs.len() - 1 {
        lemma_last_wins(recs.drop_last(), j, k);
    }
}

proof fn lemma_replace(recs: Seq<ReferenceRecord>, j: int, r: ReferenceRecord)
    requires
        0 <= j < recs.len(),
        recs[j].key() == r.key(),
        forall|i: int| j < i < recs.len() ==> recs[i].key() != r.key(),
    ensures
        records_map(recs.update(j, r)) == records_map(recs).insert(r.key(), r.embedding@),
    decreases recs.len(),
{
    let updated = recs.update(j, r);
    if j == recs.len() - 1 {
        assert(updated.drop_last() =~= recs.drop_last());
        assert(records_map(updated) =~= records_map(recs).insert(r.key(), r.embedding@));
    } else {
        let rest = recs.drop_last();
        lemma_replace(rest, j, r);
        assert(updated.drop_last() =~= rest.update(j, r));
        assert(records_map(updated) =~= records_map(recs).insert(r.key(), r.embedding@));
    }
}

proof fn lemma_push(recs: Seq<ReferenceRecord>, r: ReferenceRecord)
    ensures
        records_map(recs.push(r)) == records_map(recs).insert(r.key(), r.embedding@),
{
    assert(recs.push(r).drop_last() =~= recs);
}

/// Reference embeddings, keyed by identity and capture mode.
#[derive(Debug)]
pub struct ReferenceStore {
    records: Vec<ReferenceRecord>,
}

impl View for ReferenceStore {
    type V = Map<RecordKey, Seq<i16>>;

    closed spec fn view(&self) -> Map<RecordKey, Seq<i16>> {
        records_map(self.records@)
    }
}

impl ReferenceStore {
    /// An empty store.
    pub fn new() -> (r: ReferenceStore)
        ensures
            r@ == Map::<RecordKey, Seq<i16>>::empty(),
    {
        ReferenceStore { records: Vec::new() }
    }

    /// The last position that holds a record of `(identity, mode)`.
    fn find(&self, identity: &String, mode: Modes) -> (r: Option<usize>)
        ensures
            r is None ==> forall|i: int|
                0 <= i < self.records@.len() ==> self.records@[i].key() != (identity@, mode),
            r matches Some(j) ==> {
                &&& j < self.records@.len()
                &&& self.records@[j as int].key() == (identity@, mode)
                &&& forall|i: int|
                    j < i < self.records@.len() ==> self.records@[i].key() != (identity@, mode)
            },
    {
        let mut i: usize = self.records.len();
        while i > 0
            invariant
                i <= self.records@.len(),
                forall|k: int|
                    i <= k < self.records@.len() ==> self.records@[k].key() != (identity@, mode),
            decreases i,
        {
            let rec = &self.records[i - 1];
            if rec.mode == mode && rec.identity == *identity {
                return Some(i - 1);
            }
            i = i - 1;
        }
        None
    }

    /// Stores `embedding` as the reference of `(identity, mode)`, replacing
    /// whatever was stored for that key before.
    pub fn save(&mut self, identity: &str, mode: Modes, embedding: Embedding)
        ensures
            final(self)@ == old(self)@.insert((identity@, mode), embedding@),
    {
        let id = identity.to_owned();
        let found = self.find(&id, mode);
        let rec = ReferenceRecord { identity: id, mode, embedding };
        match found {
            Some(j) => {
                proof {
                    lemma_replace(self.records@, j as int, rec);
                }
                self.records.set(j, rec);
            },
            None => {
                proof {
                    lemma_push(self.records@, rec);
                }
                self.records.push(rec);
            },
        }
    }

    /// Whether `(identity, mode)` has a reference.
    pub fn is_enrolled(&self, identity: &str, mode: Modes) -> (r: bool)
        ensures
            r == self@.contains_key((identity@, mode)),
    {
        let id = identity.to_owned();
        match self.find(&id, mode) {
            Some(j) => {
                proof {
                    lemma_last_wins(self.records@, j as int, (identity@, mode));
                }
                true
            },
            None => {
                proof {
                    lemma_absent(self.records@, (identity@, mode));
                }
                false
            },
        }
    }

    /// The reference of `(identity, mode)`, or `NotEnrolled` where there
    /// is none.
    pub fn load(&self, identity: &str, mode: Modes) -> (r: Result<&Embedding, NotEnrolled>)
        ensures
            r is Err <==> !self@.contains_key((identity@, mode)),
            r matches Ok(e) ==> e@ == self@[(identity@, mode)],
    {
        let id = identity.to_owned();
        match self.find(&id, mode) {
            Some(j) => {
                proof {
                    lemma_last_wins(self.records@, j as int, (identity@, mode));
                }
                Ok(&self.records[j].embedding)
            },
            None => {
                proof {
                    lemma_absent(self.records@, (identity@, mode));
                }
                Err(NotEnrolled)
            },
        }
    }
}

/// No reference is stored for the identity and mode asked for.
#[derive(Debug, Clone, Copy, PartialEq, Eq, Structural)]
pub struct NotEnrolled;

} // verus!
