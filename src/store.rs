//! The registry of user records.
use vstd::prelude::*;

use crate::fresh::{random_uuid, utc_timestamp};
use crate::record::{
    has_id, ids_distinct, lemma_append_fresh_keeps_ids_distinct, lemma_lookup_found, lookup, Record,
    RecordView,
};

verus! {

/// Why a registry operation did not succeed.
#[derive(Clone, Copy, Debug, PartialEq, Eq, Structural)]
pub enum StoreError {
    /// No record has the id asked for.
    NotFound,
    /// The id offered for a new record is already taken.
    DuplicateId,
}

/// The records created so far, oldest first. No two of them share an id.
pub struct Store {
    records: Vec<Record>,
}

impl View for Store {
    type V = Seq<RecordView>;

    closed spec fn view(&self) -> Seq<RecordView> {
        self.records@.map_values(|r: Record| r@)
    }
}

impl Store {
    /// Well-formed: no two records share an id.
    pub open spec fn wf(&self) -> bool {
        ids_distinct(self@)
    }

    /// An empty registry.
    pub fn new() -> (r: Store)
        ensures
            r.wf(),
            r@ == Seq::<RecordView>::empty(),
    {
        let r = Store { records: Vec::new() };
        assert(r@ =~= Seq::<RecordView>::empty());
        r
    }

    /// How many records the registry holds.
    pub fn len(&self) -> (r: usize)
        ensures
            r == self@.len(),
    {
        self.records.len()
    }

    /// Whether some record has the id `id`.
    pub fn contains_id(&self, id: &String) -> (r: bool)
        ensures
            r == has_id(self@, id@),
    {
        let n = self.records.len();
        let mut i: usize = 0;
        while i < n
            invariant
                n == self@.len(),
                0 <= i <= n,
                forall|k: int| 0 <= k < i ==> #[trigger] self@[k].id != id@,
            decreases n - i,
        {
            if self.records[i].id == *id {
                assert(self@[i as int].id == id@);
                return true;
            }
            i = i + 1;
        }
        false
    }

    /// Stores a record with the given fields at the end of the sequence.
    /// Fails with `DuplicateId`, and changes nothing, exactly when a record
    /// with that id is already stored.
    pub fn insert(&mut self, id: String, email: String, name: String, created_at: String) -> (r: Result<Record, StoreError>)
        requires
            old(self).wf(),
        ensures
            match r {
                Ok(rec) => {
                    &&& !has_id(old(self)@, id@)
                    &&& rec@ == (RecordView { id: id@, email: email@, name: name@, created_at: created_at@ })
                    &&& final(self)@ == old(self)@.push(rec@)
                },
                Err(e) => {
                    &&& has_id(old(self)@, id@)
                    &&& e == StoreError::DuplicateId
                    &&& final(self)@ == old(self)@
                },
            },
            final(self).wf(),
    {
        if self.contains_id(&id) {
            return Err(StoreError::DuplicateId);
        }
        let rec = Record { id, email, name, created_at };
        let copy = rec.duplicate();
        let ghost before = self@;
        self.records.push(copy);
        assert(self@ =~= before.push(rec@));
        proof {
            lemma_append_fresh_keeps_ids_distinct(before, rec@);
        }
        Ok(rec)
    }

    /// Creates a record for `email` and `name` under a fresh random id,
    /// stamped with the current UTC time, and appends it. Fails with
    /// `DuplicateId`, and changes nothing, only if the random id drawn is
    /// already taken, so never on an empty registry.
    pub fn create(&mut self, email: String, name: String) -> (r: Result<Record, StoreError>)
        requires
            old(self).wf(),
        ensures
            match r {
                Ok(rec) => {
                    &&& rec@.email == email@
                    &&& rec@.name == name@
                    &&& rec@.id.len() == 36
                    &&& !has_id(old(self)@, rec@.id)
                    &&& final(self)@ == old(self)@.push(rec@)
                },
                Err(e) => {
                    &&& e == StoreError::DuplicateId
                    &&& old(self)@.len() > 0
                    &&& final(self)@ == old(self)@
                },
            },
            final(self).wf(),
    {
        let id = random_uuid();
        let created_at = utc_timestamp();
        self.insert(id, email, name, created_at)
    }

    /// A copy of every record, in the order they were created.
    pub fn list(&self) -> (r: Vec<Record>)
        ensures
            r@.map_values(|x: Record| x@) == self@,
    {
        let n = self.records.len();
        let mut out: Vec<Record> = Vec::new();
        let mut i: usize = 0;
        while i < n
            invariant
                n == self@.len(),
                0 <= i <= n,
                out@.map_values(|x: Record| x@) =~= self@.subrange(0, i as int),
            decreases n - i,
        {
            let rec = self.records[i].duplicate();
            let ghost before = out@;
            out.push(rec);
            assert(out@ =~= before.push(rec));
            assert(self@.subrange(0, i + 1) =~= self@.subrange(0, i as int).push(self@[i as int]));
            i = i + 1;
        }
        assert(self@.subrange(0, n as int) =~= self@);
        out
    }

    /// The record with the id `id`; `NotFound` exactly when no record has it.
    pub fn get_by_id(&self, id: &String) -> (r: Result<Record, StoreError>)
        ensures
            match r {
                Ok(rec) => lookup(self@, id@) == Some(rec@),
                Err(e) => e == StoreError::NotFound && lookup(self@, id@) is None,
            },
            r is Ok <==> has_id(self@, id@),
    {
        proof {
            lemma_lookup_found(self@, id@);
        }
        let n = self.records.len();
        let mut i: usize = 0;
        assert(self@.skip(0) =~= self@);
        while i < n
            invariant
                n == self@.len(),
                0 <= i <= n,
                lookup(self@, id@) == lookup(self@.skip(i as int), id@),
            decreases n - i,
        {
            proof {
                let t = self@.skip(i as int);
                assert(t[0] == self@[i as int]);
                assert(t.skip(1) =~= self@.skip(i + 1));
            }
            if self.records[i].id == *id {
                return Ok(self.records[i].duplicate());
            }
            i = i + 1;
        }
        Err(StoreError::NotFound)
    }
}

} // verus!
