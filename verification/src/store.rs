//! A generic, growable, never-shrinking collection of owned records.
//!
//! Each record has an identifier and an ownership predicate; the store
//! offers append, owner-scoped listing, owner-scoped single-record lookup,
//! and an out-of-band status transition keyed by identifier alone. The
//! caller-facing service wraps a store of this kind in a mutual-exclusion
//! lock; every operation here runs under that lock for its whole duration.

use vstd::prelude::*;

verus! {

/// A record that can live in a [`RecordStore`]: it has an identifier, an
/// ownership predicate over caller identities, and a settled form.
pub trait Record: Sized {
    /// The record's identifier.
    spec fn rec_id(&self) -> Seq<char>;

    /// Whether the record is visible to the given caller.
    spec fn rec_owned_by(&self, caller: Seq<char>) -> bool;

    /// The record after its status transition to the settled state.
    spec fn rec_completed(&self) -> Self;

    /// Settling changes neither the identifier nor the ownership of a
    /// record, and settling twice is the same as settling once: the status
    /// converges.
    proof fn lemma_completed_keeps_identity(&self)
        ensures
            self.rec_completed().rec_id() == self.rec_id(),
            forall|c: Seq<char>|
                self.rec_completed().rec_owned_by(c) == self.rec_owned_by(c),
            self.rec_completed().rec_completed() == self.rec_completed(),
    ;

    /// Whether the record's identifier equals the given one.
    fn id_matches(&self, id: &str) -> (b: bool)
        ensures
            b == (self.rec_id() == id@),
    ;

    /// Whether the record is visible to the given caller.
    fn is_owned_by(&self, caller: &str) -> (b: bool)
        ensures
            b == self.rec_owned_by(caller@),
    ;

    /// A copy of the record, equal to the original.
    fn duplicate(&self) -> (r: Self)
        ensures
            r == *self,
    ;

    /// The in-place status transition to the settled state.
    fn complete(&mut self)
        ensures
            *final(self) == (*old(self)).rec_completed(),
    ;
}

/// The ownership predicate of a caller, as a function on records.
pub open spec fn owned_by_pred<T: Record>(caller: Seq<char>) -> spec_fn(T) -> bool {
    |r: T| r.rec_owned_by(caller)
}

/// The records a caller may see, in insertion order.
pub open spec fn owned_records<T: Record>(s: Seq<T>, caller: Seq<char>) -> Seq<T> {
    s.filter(owned_by_pred(caller))
}

/// The first record with the given identifier that the caller may see.
/// An identifier that is absent and one that exists but is owned by
/// someone else give the same answer.
pub open spec fn lookup<T: Record>(s: Seq<T>, caller: Seq<char>, id: Seq<char>) -> Option<T>
    decreases s.len(),
{
    if s.len() == 0 {
        None
    } else if s[0].rec_id() == id && s[0].rec_owned_by(caller) {
        Some(s[0])
    } else {
        lookup(s.drop_first(), caller, id)
    }
}

/// No two records of the sequence share an identifier.
pub open spec fn distinct_ids<T: Record>(s: Seq<T>) -> bool {
    forall|i: int, j: int|
        0 <= i < j < s.len() ==> #[trigger] s[i].rec_id() != #[trigger] s[j].rec_id()
}

/// An ordered collection of owned records. It only ever grows; the one
/// mutation besides append is the status transition of a single record.
pub struct RecordStore<T> {
    records: Vec<T>,
}

impl<T> View for RecordStore<T> {
    type V = Seq<T>;

    closed spec fn view(&self) -> Seq<T> {
        self.records@
    }
}

impl<T: Record> RecordStore<T> {
    /// An empty store.
    pub fn new() -> (s: Self)
        ensures
            s@ == Seq::<T>::empty(),
    {
        RecordStore { records: Vec::new() }
    }

    /// How many records the store holds.
    pub fn len(&self) -> (n: usize)
        ensures
            n == self@.len(),
    {
        self.records.len()
    }

    /// Appends a record at the end; existing records are untouched.
    pub fn append(&mut self, r: T)
        ensures
            final(self)@ == old(self)@.push(r),
    {
        self.records.push(r);
    }

    /// All records the caller may see, in insertion order.
    pub fn list(&self, caller: &str) -> (out: Vec<T>)
        ensures
            out@ == owned_records(self@, caller@),
    {
        let mut out: Vec<T> = Vec::new();
        let n = self.records.len();
        let mut i: usize = 0;
        while i < n
            invariant
                i <= n,
                n == self.records@.len(),
                out@ == owned_records(self.records@.subrange(0, i as int), caller@),
            decreases n - i,
        {
            let ghost prefix = self.records@.subrange(0, i as int);
            let r = &self.records[i];
            if r.is_owned_by(caller) {
                out.push(r.duplicate());
            }
            i += 1;
            proof {
                reveal(Seq::filter);
                let longer = self.records@.subrange(0, i as int);
                assert(longer.drop_last() =~= prefix);
                assert(longer.last() == self.records@[i - 1]);
            }
        }
        proof {
            assert(self.records@.subrange(0, n as int) =~= self.records@);
        }
        out
    }

    /// The first record with this identifier that the caller may see, or
    /// nothing — whether the identifier is absent or merely unowned.
    pub fn get(&self, caller: &str, id: &str) -> (out: Option<T>)
        ensures
            out == lookup(self@, caller@, id@),
    {
        let n = self.records.len();
        let mut i: usize = 0;
        while i < n
            invariant
                i <= n,
                n == self.records@.len(),
                forall|j: int|
                    0 <= j < i ==> !(#[trigger] self.records@[j].rec_id() == id@
                        && self.records@[j].rec_owned_by(caller@)),
            decreases n - i,
        {
            let r = &self.records[i];
            if r.id_matches(id) && r.is_owned_by(caller) {
                proof {
                    lemma_lookup_prefix_miss(self.records@, caller@, id@, i as int);
                    assert(self.records@.skip(i as int)[0] == self.records@[i as int]);
                }
                return Some(r.duplicate());
            }
            i += 1;
        }
        proof {
            lemma_lookup_prefix_miss(self.records@, caller@, id@, n as int);
            assert(self.records@.skip(n as int) =~= Seq::<T>::empty());
        }
        None
    }

    /// Applies the settling transition to the first record with this
    /// identifier, if any; ownership is deliberately not consulted, as
    /// only trusted background processing reaches this operation. Reports
    /// whether a record was found.
    pub fn settle(&mut self, id: &str) -> (found: bool)
        ensures
            final(self)@.len() == old(self)@.len(),
            found == (exists|i: int|
                0 <= i < old(self)@.len() && #[trigger] old(self)@[i].rec_id() == id@),
            !found ==> final(self)@ == old(self)@,
            found ==> (exists|i: int|
                {
                    &&& 0 <= i < old(self)@.len()
                    &&& #[trigger] old(self)@[i].rec_id() == id@
                    &&& forall|j: int| 0 <= j < i ==> old(self)@[j].rec_id() != id@
                    &&& final(self)@ == old(self)@.update(i, old(self)@[i].rec_completed())
                }),
    {
        let n = self.records.len();
        let mut i: usize = 0;
        while i < n
            invariant
                self.records@ == old(self)@,
                i <= n,
                n == self.records@.len(),
                forall|j: int| 0 <= j < i ==> #[trigger] old(self)@[j].rec_id() != id@,
            decreases n - i,
        {
            if self.records[i].id_matches(id) {
                let mut rec = self.records.remove(i);
                rec.complete();
                self.records.insert(i, rec);
                proof {
                    assert(self.records@ =~= old(self)@.update(
                        i as int,
                        old(self)@[i as int].rec_completed(),
                    ));
                }
                return true;
            }
            i += 1;
        }
        false
    }
}

/// When no record among the first `i` matches both the identifier and the
/// caller, the lookup outcome is decided by the rest of the sequence.
proof fn lemma_lookup_prefix_miss<T: Record>(s: Seq<T>, caller: Seq<char>, id: Seq<char>, i: int)
    requires
        0 <= i <= s.len(),
        forall|j: int|
            0 <= j < i ==> !(#[trigger] s[j].rec_id() == id && s[j].rec_owned_by(caller)),
    ensures
        lookup(s, caller, id) == lookup(s.skip(i), caller, id),
    decreases i,
{
    if i > 0 {
        assert(s.skip(0) =~= s);
        lemma_lookup_prefix_miss(s.drop_first(), caller, id, i - 1);
        assert(s.drop_first().skip(i - 1) =~= s.skip(i));
    } else {
        assert(s.skip(0) =~= s);
    }
}

/// Reads are idempotent: two listing results, and two lookup results,
/// computed from the same store contents and the same caller agree.
pub proof fn lemma_reads_idempotent<T: Record>(
    s: Seq<T>,
    caller: Seq<char>,
    id: Seq<char>,
    listed1: Seq<T>,
    listed2: Seq<T>,
    got1: Option<T>,
    got2: Option<T>,
)
    requires
        listed1 == owned_records(s, caller),
        listed2 == owned_records(s, caller),
        got1 == lookup(s, caller, id),
        got2 == lookup(s, caller, id),
    ensures
        listed1 == listed2,
        got1 == got2,
{
}

/// Every record in an owner-scoped listing is owned by that caller: a
/// listing never leaks a record across callers.
pub proof fn lemma_listing_owned<T: Record>(s: Seq<T>, caller: Seq<char>, i: int)
    requires
        0 <= i < owned_records(s, caller).len(),
    ensures
        owned_records(s, caller)[i].rec_owned_by(caller),
{
    s.lemma_filter_pred(owned_by_pred(caller), i);
}

/// An identifier that exists but belongs to another caller is
/// indistinguishable from an absent one: the lookup yields nothing in
/// both cases.
pub proof fn lemma_unowned_hidden<T: Record>(s: Seq<T>, caller: Seq<char>, id: Seq<char>)
    requires
        forall|i: int|
            0 <= i < s.len() && #[trigger] s[i].rec_id() == id ==> !s[i].rec_owned_by(caller),
    ensures
        lookup(s, caller, id) is None,
    decreases s.len(),
{
    if s.len() > 0 {
        lemma_unowned_hidden(s.drop_first(), caller, id);
    }
}

/// Settling a record changes nobody's view of the store's ownership: every
/// record is visible to a caller after the transition exactly when it was
/// visible before, and every identifier stays as it was.
pub proof fn lemma_settle_preserves_ownership<T: Record>(s: Seq<T>, i: int, caller: Seq<char>, j: int)
    requires
        0 <= i < s.len(),
        0 <= j < s.len(),
    ensures
        s.update(i, s[i].rec_completed())[j].rec_owned_by(caller) == s[j].rec_owned_by(caller),
        s.update(i, s[i].rec_completed())[j].rec_id() == s[j].rec_id(),
{
    if i == j {
        s[i].lemma_completed_keeps_identity();
    }
}

/// Appending a record with a fresh identifier grows the store by exactly
/// one and keeps identifiers distinct: no create is lost and no
/// identifier collides.
pub proof fn lemma_append_fresh<T: Record>(s: Seq<T>, r: T)
    requires
        distinct_ids(s),
        forall|i: int| 0 <= i < s.len() ==> #[trigger] s[i].rec_id() != r.rec_id(),
    ensures
        distinct_ids(s.push(r)),
        s.push(r).len() == s.len() + 1,
{
    let grown = s.push(r);
    assert forall|i: int, j: int| 0 <= i < j < grown.len() implies #[trigger] grown[i].rec_id()
        != #[trigger] grown[j].rec_id() by {
        if j < s.len() {
            assert(grown[i] == s[i] && grown[j] == s[j]);
        } else {
            assert(grown[j] == r && grown[i] == s[i]);
        }
    }
}

} // verus!
