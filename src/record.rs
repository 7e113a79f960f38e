//! A stored user record and the spec functions over sequences of them.
use vstd::prelude::*;

verus! {

/// What a record holds, as plain values.
pub ghost struct RecordView {
    pub id: Seq<char>,
    pub email: Seq<char>,
    pub name: Seq<char>,
    pub created_at: Seq<char>,
}

/// A user record. It is never changed once the registry has stored it.
#[derive(Clone, Debug, PartialEq, Eq)]
pub struct Record {
    pub id: String,
    pub email: String,
    pub name: String,
    pub created_at: String,
}

impl View for Record {
    type V = RecordView;

    open spec fn view(&self) -> RecordView {
        RecordView {
            id: self.id@,
            email: self.email@,
            name: self.name@,
            created_at: self.created_at@,
        }
    }
}

impl Record {
    /// A copy of this record, field for field.
    pub fn duplicate(&self) -> (r: Record)
        ensures
            r@ == self@,
    {
        Record {
            id: self.id.clone(),
            email: self.email.clone(),
            name: self.name.clone(),
            created_at: self.created_at.clone(),
        }
    }
}

/// No two records of `s` share an id.
pub open spec fn ids_distinct(s: Seq<RecordView>) -> bool {
    forall|i: int, j: int|
        0 <= i < s.len() && 0 <= j < s.len() && i != j ==> #[trigger] s[i].id != #[trigger] s[j].id
}

/// Some record of `s` has the id `id`.
pub open spec fn has_id(s: Seq<RecordView>, id: Seq<char>) -> bool {
    exists|i: int| 0 <= i < s.len() && #[trigger] s[i].id == id
}

/// The first record of `s` whose id is `id`, if any.
pub open spec fn lookup(s: Seq<RecordView>, id: Seq<char>) -> Option<RecordView>
    decreases s.len(),
{
    if s.len() == 0 {
        None
    } else if s[0].id == id {
        Some(s[0])
    } else {
        lookup(s.skip(1), id)
    }
}

/// Ids stay distinct under creation: appending a record whose id no record
/// of `s` has keeps the ids of `s` pairwise distinct, and adds one record.
pub proof fn lemma_append_fresh_keeps_ids_distinct(s: Seq<RecordView>, rec: RecordView)
    requires
        ids_distinct(s),
        !has_id(s, rec.id),
    ensures
        ids_distinct(s.push(rec)),
        s.push(rec).len() == s.len() + 1,
        s.push(rec).last() == rec,
{
    let t = s.push(rec);
    assert forall|i: int, j: int|
        0 <= i < t.len() && 0 <= j < t.len() && i != j implies #[trigger] t[i].id != #[trigger] t[j].id by {
        if i == s.len() {
            assert(s[j].id != rec.id);
        } else if j == s.len() {
            assert(s[i].id != rec.id);
        } else {
            assert(s[i].id != s[j].id);
        }
    }
}

/// The records that a run of creations stored: one for each creation that
/// succeeded (`Some`), in the order of the run.
pub open spec fn successes(outcomes: Seq<Option<RecordView>>) -> Seq<RecordView>
    decreases outcomes.len(),
{
    if outcomes.len() == 0 {
        Seq::empty()
    } else {
        let earlier = successes(outcomes.drop_last());
        match outcomes.last() {
            Some(rec) => earlier.push(rec),
            None => earlier,
        }
    }
}

/// The records listed are the successful creations, oldest first: when a
/// run of creations starts from no records, and each step appends the record
/// it created or, on failure, leaves the records as they were, then the
/// records at the end are exactly the successful ones in creation order, and
/// their number is the number of successes.
pub proof fn lemma_records_are_successes(states: Seq<Seq<RecordView>>, outcomes: Seq<Option<RecordView>>)
    requires
        states.len() == outcomes.len() + 1,
        states[0].len() == 0,
        forall|k: int|
            0 <= k < outcomes.len() ==> match #[trigger] outcomes[k] {
                Some(rec) => states[k + 1] == states[k].push(rec),
                None => states[k + 1] == states[k],
            },
    ensures
        states.last() == successes(outcomes),
        states.last().len() == successes(outcomes).len(),
    decreases outcomes.len(),
{
    if outcomes.len() == 0 {
        assert(states[0] =~= Seq::<RecordView>::empty());
    } else {
        let n = outcomes.len() - 1;
        let earlier_states = states.drop_last();
        let earlier = outcomes.drop_last();
        assert forall|k: int| 0 <= k < earlier.len() implies match #[trigger] earlier[k] {
            Some(rec) => earlier_states[k + 1] == earlier_states[k].push(rec),
            None => earlier_states[k + 1] == earlier_states[k],
        } by {
            assert(earlier[k] == outcomes[k]);
        }
        lemma_records_are_successes(earlier_states, earlier);
        assert(outcomes[n] == outcomes.last());
    }
}

/// The lookup finds a record exactly when one has the id, and what it finds
/// is a record of the sequence with that id.
pub proof fn lemma_lookup_found(s: Seq<RecordView>, id: Seq<char>)
    ensures
        lookup(s, id) is Some <==> has_id(s, id),
        lookup(s, id) is Some ==> s.contains(lookup(s, id)->0) && lookup(s, id)->0.id == id,
    decreases s.len(),
{
    if s.len() > 0 && s[0].id != id {
        let t = s.skip(1);
        lemma_lookup_found(t, id);
        if has_id(s, id) {
            let i = choose|i: int| 0 <= i < s.len() && #[trigger] s[i].id == id;
            assert(t[i - 1].id == id);
        }
        if has_id(t, id) {
            let k = choose|k: int| 0 <= k < t.len() && #[trigger] t[k].id == id;
            assert(s[k + 1].id == id);
        }
        if lookup(t, id) is Some {
            let k = choose|k: int| 0 <= k < t.len() && t[k] == lookup(t, id)->0;
            assert(s[k + 1] == lookup(s, id)->0);
        }
    } else if s.len() > 0 {
        assert(s[0].id == id);
        assert(s.contains(s[0]));
    }
}

/// A record that was never stored is not found: looking up an id that no
/// record of `s` has gives nothing.
pub proof fn lemma_lookup_unknown(s: Seq<RecordView>, id: Seq<char>)
    requires
        !has_id(s, id),
    ensures
        lookup(s, id) is None,
{
    lemma_lookup_found(s, id);
}

/// Fetching a record by the id it was created with gives that record back:
/// after appending `rec`, whose id no earlier record has, looking up its id
/// finds `rec` itself.
pub proof fn lemma_lookup_after_append(s: Seq<RecordView>, rec: RecordView)
    requires
        !has_id(s, rec.id),
    ensures
        lookup(s.push(rec), rec.id) == Some(rec),
    decreases s.len(),
{
    let t = s.push(rec);
    if s.len() > 0 {
        assert(s[0].id != rec.id);
        assert(t[0] == s[0]);
        let u = s.skip(1);
        assert(t.skip(1) =~= u.push(rec));
        assert forall|i: int| 0 <= i < u.len() implies #[trigger] u[i].id != rec.id by {
            assert(s[i + 1].id != rec.id);
        }
        lemma_lookup_after_append(u, rec);
    } else {
        assert(t[0] == rec);
    }
}

} // verus!
