//! A verified in-memory document store for user records.
//!
//! The store keeps records in insertion order and assigns each new record
//! a fresh twelve-byte identifier whose last four bytes carry a running
//! counter, so no identifier is ever assigned twice. Its five methods are
//! the document-store collaborator contract the resource service depends
//! on: insert, find by identifier, find all, find-and-update, delete.

use vstd::prelude::*;

verus! {

use crate::object_id::UserId;
use crate::outcome::StoreFault;
use crate::user::UpdateUserRequest;
use crate::user::User;
use crate::user::UserView;
use crate::user::apply_update;
use crate::user::spec_updated_record;

/// The first record carrying the identifier, searched front to back.
pub open spec fn spec_lookup(s: Seq<UserView>, id: Seq<u8>) -> Option<UserView>
    decreases s.len(),
{
    if s.len() == 0 {
        None
    } else if s[0].id == Some(id) {
        Some(s[0])
    } else {
        spec_lookup(s.drop_first(), id)
    }
}

/// Whether some record carries the identifier.
pub open spec fn contains_id(s: Seq<UserView>, id: Seq<u8>) -> bool {
    spec_lookup(s, id) is Some
}

/// The contents after removing the first record carrying the identifier.
pub open spec fn spec_remove(s: Seq<UserView>, id: Seq<u8>) -> Seq<UserView>
    decreases s.len(),
{
    if s.len() == 0 {
        s
    } else if s[0].id == Some(id) {
        s.drop_first()
    } else {
        seq![s[0]] + spec_remove(s.drop_first(), id)
    }
}

/// The contents after the field-level set of an update on the first
/// record carrying the identifier.
pub open spec fn spec_update(
    s: Seq<UserView>,
    id: Seq<u8>,
    name: Seq<char>,
    email: Seq<char>,
) -> Seq<UserView>
    decreases s.len(),
{
    if s.len() == 0 {
        s
    } else if s[0].id == Some(id) {
        seq![spec_updated_record(s[0], name, email)] + s.drop_first()
    } else {
        seq![s[0]] + spec_update(s.drop_first(), id, name, email)
    }
}

/// The record as the store persists it on creation: the assigned
/// identifier set, the three text fields exactly as sent.
pub open spec fn stored_view(r: UserView, id: Seq<u8>) -> UserView {
    UserView { id: Some(id), name: r.name, mobile: r.mobile, email: r.email }
}

/// Well-formed store contents: every record carries a twelve-byte
/// identifier and no identifier repeats.
pub open spec fn records_ok(s: Seq<UserView>) -> bool {
    (forall|i: int|
        0 <= i < s.len() ==> (#[trigger] s[i]).id is Some && s[i].id->0.len() == 12)
        && (forall|i: int, j: int|
        #![trigger s[i].id, s[j].id]
        0 <= i < j < s.len() ==> s[i].id != s[j].id)
}

/// Looking an identifier up past a prefix that does not carry it.
pub proof fn lemma_lookup_skip(s: Seq<UserView>, id: Seq<u8>, i: int)
    requires
        0 <= i <= s.len(),
        forall|j: int| 0 <= j < i ==> (#[trigger] s[j]).id != Some(id),
    ensures
        spec_lookup(s, id) == spec_lookup(s.skip(i), id),
    decreases i,
{
    if i > 0 {
        assert(s[0].id != Some(id));
        assert(s.drop_first() =~= s.skip(1));
        assert forall|j: int| 0 <= j < i - 1 implies (#[trigger] s.skip(1)[j]).id != Some(id) by {
            assert(s.skip(1)[j] == s[j + 1]);
        }
        lemma_lookup_skip(s.skip(1), id, i - 1);
        assert(s.skip(1).skip(i - 1) =~= s.skip(i));
    } else {
        assert(s.skip(0) =~= s);
    }
}

/// An identifier carried by no record is never found.
pub proof fn lemma_lookup_none(s: Seq<UserView>, id: Seq<u8>)
    requires
        forall|j: int| 0 <= j < s.len() ==> (#[trigger] s[j]).id != Some(id),
    ensures
        spec_lookup(s, id) is None,
{
    lemma_lookup_skip(s, id, s.len() as int);
    assert(s.skip(s.len() as int).len() == 0);
}

/// The first match, at index `k`, settles the lookup.
pub proof fn lemma_lookup_at(s: Seq<UserView>, id: Seq<u8>, k: int)
    requires
        0 <= k < s.len(),
        s[k].id == Some(id),
        forall|j: int| 0 <= j < k ==> (#[trigger] s[j]).id != Some(id),
    ensures
        spec_lookup(s, id) == Some(s[k]),
{
    lemma_lookup_skip(s, id, k);
    assert(s.skip(k)[0] == s[k]);
}

/// Looking up an identifier just appended to contents that did not carry
/// it returns exactly the appended record.
pub proof fn lemma_lookup_push(s: Seq<UserView>, r: UserView, id: Seq<u8>)
    requires
        r.id == Some(id),
        !contains_id(s, id),
    ensures
        spec_lookup(s.push(r), id) == Some(r),
    decreases s.len(),
{
    if s.len() == 0 {
        assert(s.push(r)[0] == r);
    } else {
        assert(s[0].id != Some(id));
        assert(s.push(r)[0] == s[0]);
        assert(s.push(r).drop_first() =~= s.drop_first().push(r));
        lemma_lookup_push(s.drop_first(), r, id);
    }
}

/// With the first match at index `k`, removal takes out exactly that
/// record.
pub proof fn lemma_remove_at(s: Seq<UserView>, id: Seq<u8>, k: int)
    requires
        0 <= k < s.len(),
        s[k].id == Some(id),
        forall|j: int| 0 <= j < k ==> (#[trigger] s[j]).id != Some(id),
    ensures
        spec_remove(s, id) == s.remove(k),
    decreases k,
{
    if k == 0 {
        assert(spec_remove(s, id) == s.drop_first());
        assert(s.drop_first() =~= s.remove(0));
    } else {
        assert(s[0].id != Some(id));
        let t = s.drop_first();
        assert forall|j: int| 0 <= j < k - 1 implies (#[trigger] t[j]).id != Some(id) by {
            assert(t[j] == s[j + 1]);
        }
        assert(t[k - 1] == s[k]);
        lemma_remove_at(t, id, k - 1);
        assert(seq![s[0]] + t.remove(k - 1) =~= s.remove(k));
    }
}

/// With the first match at index `k`, the update rewrites exactly that
/// record.
pub proof fn lemma_update_at(s: Seq<UserView>, id: Seq<u8>, name: Seq<char>, email: Seq<char>, k: int)
    requires
        0 <= k < s.len(),
        s[k].id == Some(id),
        forall|j: int| 0 <= j < k ==> (#[trigger] s[j]).id != Some(id),
    ensures
        spec_update(s, id, name, email) == s.update(k, spec_updated_record(s[k], name, email)),
    decreases k,
{
    if k == 0 {
        assert(seq![spec_updated_record(s[0], name, email)] + s.drop_first() =~= s.update(
            0,
            spec_updated_record(s[0], name, email),
        ));
    } else {
        assert(s[0].id != Some(id));
        let t = s.drop_first();
        assert forall|j: int| 0 <= j < k - 1 implies (#[trigger] t[j]).id != Some(id) by {
            assert(t[j] == s[j + 1]);
        }
        assert(t[k - 1] == s[k]);
        lemma_update_at(t, id, name, email, k - 1);
        assert(seq![s[0]] + t.update(k - 1, spec_updated_record(s[k], name, email)) =~= s.update(
            k,
            spec_updated_record(s[k], name, email),
        ));
    }
}

/// Numeric value of four big-endian counter bytes.
pub open spec fn counter_val(b: Seq<u8>) -> int {
    b[0] as int * 0x1000000 + b[1] as int * 0x10000 + b[2] as int * 0x100 + b[3] as int
}

/// The counter value embedded in the last four bytes of an identifier.
pub open spec fn id_counter(b: Seq<u8>) -> int {
    counter_val(b.skip(8))
}

/// An in-memory document store holding user records in insertion order.
pub struct MemStore {
    records: Vec<User>,
    counter_bytes: Vec<u8>,
}

impl View for MemStore {
    type V = Seq<UserView>;

    closed spec fn view(&self) -> Seq<UserView> {
        Seq::new(self.records@.len(), |i: int| self.records@[i]@)
    }
}

impl MemStore {
    /// The store's invariant: four counter bytes, well-formed contents,
    /// and every assigned identifier strictly below the counter, so the
    /// next assignment is fresh.
    pub closed spec fn wf(&self) -> bool {
        &&& self.counter_bytes@.len() == 4
        &&& records_ok(self@)
        &&& forall|i: int|
            0 <= i < self@.len() ==> id_counter((#[trigger] self@[i]).id->0) < counter_val(
                self.counter_bytes@,
            )
    }

    /// The identifier space is exhausted: no further record can be
    /// inserted.
    pub closed spec fn at_capacity(&self) -> bool {
        counter_val(self.counter_bytes@) == 0xFFFFFFFF
    }

    /// Well-formed contents are guaranteed by the invariant.
    pub proof fn lemma_wf_records_ok(&self)
        requires
            self.wf(),
        ensures
            records_ok(self@),
    {
    }

    /// An empty store.
    pub fn new() -> (s: MemStore)
        ensures
            s.wf(),
            s@.len() == 0,
            !s.at_capacity(),
    {
        let mut counter_bytes: Vec<u8> = Vec::new();
        counter_bytes.push(0);
        counter_bytes.push(0);
        counter_bytes.push(0);
        counter_bytes.push(0);
        MemStore { records: Vec::new(), counter_bytes }
    }

    /// The identifier the next insertion will assign: eight zero bytes,
    /// then the four counter bytes.
    fn fresh_id(&self) -> (id: UserId)
        requires
            self.counter_bytes@.len() == 4,
        ensures
            id.wf(),
            id_counter(id@) == counter_val(self.counter_bytes@),
    {
        let mut bytes: Vec<u8> = Vec::new();
        let mut i: usize = 0;
        while i < 8
            invariant
                bytes@.len() == i,
                i <= 8,
            decreases 8 - i,
        {
            bytes.push(0);
            i += 1;
        }
        bytes.push(self.counter_bytes[0]);
        bytes.push(self.counter_bytes[1]);
        bytes.push(self.counter_bytes[2]);
        bytes.push(self.counter_bytes[3]);
        proof {
            assert(bytes@.skip(8) =~= self.counter_bytes@);
        }
        match UserId::from_bytes(bytes) {
            Some(id) => id,
            None => vstd::pervasive::unreached(),
        }
    }

    /// Steps the four counter bytes to the next value, carrying between
    /// bytes.
    fn bump_counter(&mut self)
        requires
            old(self).counter_bytes@.len() == 4,
            counter_val(old(self).counter_bytes@) < 0xFFFFFFFF,
        ensures
            final(self).counter_bytes@.len() == 4,
            counter_val(final(self).counter_bytes@) == counter_val(old(self).counter_bytes@) + 1,
            final(self).records == old(self).records,
    {
        let b3 = self.counter_bytes[3];
        if b3 < 255 {
            self.counter_bytes[3] = b3 + 1;
        } else {
            self.counter_bytes[3] = 0;
            let b2 = self.counter_bytes[2];
            if b2 < 255 {
                self.counter_bytes[2] = b2 + 1;
            } else {
                self.counter_bytes[2] = 0;
                let b1 = self.counter_bytes[1];
                if b1 < 255 {
                    self.counter_bytes[1] = b1 + 1;
                } else {
                    self.counter_bytes[1] = 0;
                    let b0 = self.counter_bytes[0];
                    assert(b0 < 255);
                    self.counter_bytes[0] = b0 + 1;
                }
            }
        }
    }

    /// Inserts a record that carries no identifier yet, assigns it a
    /// fresh one, and reports the assigned identifier. The insertion
    /// fails, as a generic store fault that leaves the store unchanged,
    /// exactly when the identifier space is exhausted.
    pub fn insert_one(&mut self, record: User) -> (r: Result<UserId, StoreFault>)
        requires
            old(self).wf(),
            record@.id is None,
        ensures
            final(self).wf(),
            old(self).at_capacity() ==> r is Err && *final(self) == *old(self),
            !old(self).at_capacity() ==> (r matches Ok(id) && id.wf() && !contains_id(
                old(self)@,
                id@,
            ) && final(self)@ == old(self)@.push(stored_view(record@, id@))),
    {
        let full = self.counter_bytes[0] == 255 && self.counter_bytes[1] == 255
            && self.counter_bytes[2] == 255 && self.counter_bytes[3] == 255;
        proof {
            assert(full == self.at_capacity());
        }
        if full {
            return Err(StoreFault);
        }
        let id = self.fresh_id();
        let ghost pre = self@;
        let mut stored = record;
        stored.id = Some(id.duplicate());
        self.records.push(stored);
        proof {
            assert(self@ =~= pre.push(stored_view(record@, id@)));
            assert forall|i: int| 0 <= i < pre.len() implies (#[trigger] pre[i]).id != Some(id@) by {
                assert(id_counter(pre[i].id->0) < id_counter(id@));
            }
            lemma_lookup_none(pre, id@);
        }
        self.bump_counter();
        Ok(id)
    }

    /// Returns a copy of the record carrying the identifier, if any.
    pub fn find_by_id(&self, id: &UserId) -> (r: Option<User>)
        requires
            self.wf(),
        ensures
            match r {
                Some(u) => spec_lookup(self@, id@) == Some(u@),
                None => spec_lookup(self@, id@) is None,
            },
    {
        let mut i: usize = 0;
        while i < self.records.len()
            invariant
                self.wf(),
                i <= self.records@.len(),
                forall|j: int| 0 <= j < i ==> (#[trigger] self@[j]).id != Some(id@),
            decreases self.records@.len() - i,
        {
            let hit = match &self.records[i].id {
                Some(rid) => rid.matches(id),
                None => false,
            };
            if hit {
                proof {
                    lemma_lookup_at(self@, id@, i as int);
                }
                return Some(self.records[i].duplicate());
            }
            i += 1;
        }
        proof {
            lemma_lookup_none(self@, id@);
        }
        None
    }

    /// Returns a copy of every record, in insertion order.
    pub fn find_all(&self) -> (r: Vec<User>)
        ensures
            r@.len() == self@.len(),
            forall|i: int| 0 <= i < self@.len() ==> (#[trigger] r@[i])@ == self@[i],
    {
        let mut out: Vec<User> = Vec::new();
        let mut i: usize = 0;
        while i < self.records.len()
            invariant
                i <= self.records@.len(),
                out@.len() == i,
                forall|j: int| 0 <= j < i ==> (#[trigger] out@[j])@ == self@[j],
            decreases self.records@.len() - i,
        {
            out.push(self.records[i].duplicate());
            i += 1;
        }
        out
    }

    /// Applies the field-level set of the update payload to the record
    /// carrying the identifier and returns a copy of the record after
    /// the update; returns nothing, leaving the store unchanged, when no
    /// record carries the identifier. Never creates a record.
    pub fn find_one_and_update(&mut self, id: &UserId, payload: &UpdateUserRequest) -> (r: Option<
        User,
    >)
        requires
            old(self).wf(),
        ensures
            final(self).wf(),
            contains_id(old(self)@, id@) ==> (r matches Some(u) && u@ == spec_updated_record(
                spec_lookup(old(self)@, id@)->0,
                payload.name@,
                payload.email@,
            ) && final(self)@ == spec_update(old(self)@, id@, payload.name@, payload.email@)),
            !contains_id(old(self)@, id@) ==> r is None && final(self)@ == old(self)@,
    {
        let ghost pre = self@;
        let mut i: usize = 0;
        while i < self.records.len()
            invariant
                self.wf(),
                *self == *old(self),
                pre == self@,
                i <= self.records@.len(),
                forall|j: int| 0 <= j < i ==> (#[trigger] self@[j]).id != Some(id@),
            decreases self.records@.len() - i,
        {
            let hit = match &self.records[i].id {
                Some(rid) => rid.matches(id),
                None => false,
            };
            if hit {
                proof {
                    lemma_lookup_at(pre, id@, i as int);
                    lemma_update_at(pre, id@, payload.name@, payload.email@, i as int);
                }
                apply_update(&mut self.records[i], payload);
                let out = Some(self.records[i].duplicate());
                proof {
                    let post = pre.update(
                        i as int,
                        spec_updated_record(pre[i as int], payload.name@, payload.email@),
                    );
                    assert(self@ =~= post);
                    assert forall|a: int| 0 <= a < post.len() implies (#[trigger] post[a]).id
                        == pre[a].id by {}
                    assert(records_ok(self@));
                }
                return out;
            }
            i += 1;
        }
        proof {
            lemma_lookup_none(pre, id@);
        }
        None
    }

    /// Removes the record carrying the identifier and reports how many
    /// records were removed: one when a record carried it, zero, with
    /// the store unchanged, when none did.
    pub fn delete_one(&mut self, id: &UserId) -> (count: u64)
        requires
            old(self).wf(),
        ensures
            final(self).wf(),
            contains_id(old(self)@, id@) ==> count == 1 && final(self)@ == spec_remove(
                old(self)@,
                id@,
            ) && final(self)@.len() == old(self)@.len() - 1,
            !contains_id(old(self)@, id@) ==> count == 0 && final(self)@ == old(self)@,
    {
        let ghost pre = self@;
        let mut i: usize = 0;
        while i < self.records.len()
            invariant
                self.wf(),
                *self == *old(self),
                pre == self@,
                i <= self.records@.len(),
                forall|j: int| 0 <= j < i ==> (#[trigger] self@[j]).id != Some(id@),
            decreases self.records@.len() - i,
        {
            let hit = match &self.records[i].id {
                Some(rid) => rid.matches(id),
                None => false,
            };
            if hit {
                proof {
                    lemma_lookup_at(pre, id@, i as int);
                    lemma_remove_at(pre, id@, i as int);
                }
                self.records.remove(i);
                proof {
                    let post = pre.remove(i as int);
                    assert(self@ =~= post);
                    assert forall|a: int| 0 <= a < post.len() implies #[trigger] post[a] == (
                    if a < i as int {
                        pre[a]
                    } else {
                        pre[a + 1]
                    }) by {}
                    assert(records_ok(self@));
                }
                return 1;
            }
            i += 1;
        }
        proof {
            lemma_lookup_none(pre, id@);
        }
        0
    }
}

} // verus!
