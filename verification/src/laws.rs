//! Laws of the resource service, stated over the store-contents model
//! that the operations' contracts speak of, and proved for every store
//! state.

use vstd::prelude::*;

verus! {

use crate::object_id::hex_of_id;
use crate::object_id::id_of_hex;
use crate::object_id::lemma_hex_round_trip;
use crate::object_id::valid_hex_id;
use crate::store::contains_id;
use crate::store::lemma_lookup_none;
use crate::store::lemma_lookup_push;
use crate::store::records_ok;
use crate::store::spec_lookup;
use crate::store::spec_remove;
use crate::store::spec_update;
use crate::user::UserView;
use crate::user::spec_updated_record;

/// A record just created is read back unchanged: the assigned
/// identifier's string form is well formed, and looking it up in the
/// store to which the created record was appended returns exactly that
/// record.
pub proof fn law_created_record_read_back(s: Seq<UserView>, r: UserView, id: Seq<u8>)
    requires
        r.id == Some(id),
        id.len() == 12,
        !contains_id(s, id),
    ensures
        valid_hex_id(hex_of_id(id)),
        spec_lookup(s.push(r), id_of_hex(hex_of_id(id))) == Some(r),
{
    lemma_hex_round_trip(id);
    lemma_lookup_push(s, r, id);
}

/// A record is never observable without an identifier: whatever a
/// lookup returns carries exactly the identifier it was looked up by.
pub proof fn law_found_record_carries_its_identifier(s: Seq<UserView>, id: Seq<u8>)
    requires
        contains_id(s, id),
    ensures
        spec_lookup(s, id)->0.id == Some(id),
    decreases s.len(),
{
    if s[0].id == Some(id) {
    } else {
        law_found_record_carries_its_identifier(s.drop_first(), id);
    }
}

/// An update followed by a read of the same identifier shows the new
/// `name` and `email`, while `mobile` and the identifier are unchanged
/// from before the update.
pub proof fn law_update_then_read(s: Seq<UserView>, id: Seq<u8>, name: Seq<char>, email: Seq<char>)
    requires
        contains_id(s, id),
    ensures
        spec_lookup(spec_update(s, id, name, email), id) matches Some(u) && u.name == name
            && u.email == email && u.mobile == spec_lookup(s, id)->0.mobile && u.id == spec_lookup(
            s,
            id,
        )->0.id,
    decreases s.len(),
{
    if s[0].id == Some(id) {
        let t = seq![spec_updated_record(s[0], name, email)] + s.drop_first();
        assert(t[0] == spec_updated_record(s[0], name, email));
    } else {
        let t = seq![s[0]] + spec_update(s.drop_first(), id, name, email);
        assert(t[0] == s[0]);
        assert(t.drop_first() =~= spec_update(s.drop_first(), id, name, email));
        law_update_then_read(s.drop_first(), id, name, email);
    }
}

/// A delete frees its identifier: once the record carrying it is
/// removed from well-formed contents, no record carries it any more, so
/// a second delete (or a read) of the same identifier misses.
pub proof fn law_delete_frees_identifier(s: Seq<UserView>, id: Seq<u8>)
    requires
        records_ok(s),
        contains_id(s, id),
    ensures
        !contains_id(spec_remove(s, id), id),
    decreases s.len(),
{
    if s[0].id == Some(id) {
        let t = s.drop_first();
        assert forall|j: int| 0 <= j < t.len() implies (#[trigger] t[j]).id != Some(id) by {
            assert(t[j] == s[j + 1]);
            assert(s[0].id != s[j + 1].id);
        }
        lemma_lookup_none(t, id);
    } else {
        let t = seq![s[0]] + spec_remove(s.drop_first(), id);
        assert forall|i: int, j: int|
            #![trigger s.drop_first()[i].id, s.drop_first()[j].id]
            0 <= i < j < s.drop_first().len() implies s.drop_first()[i].id != s.drop_first()[j].id by {
            assert(s.drop_first()[i] == s[i + 1]);
            assert(s.drop_first()[j] == s[j + 1]);
        }
        assert forall|i: int| 0 <= i < s.drop_first().len() implies (#[trigger] s.drop_first()[i]).id
            is Some && s.drop_first()[i].id->0.len() == 12 by {
            assert(s.drop_first()[i] == s[i + 1]);
        }
        law_delete_frees_identifier(s.drop_first(), id);
        assert(t[0] == s[0]);
        assert(t.drop_first() =~= spec_remove(s.drop_first(), id));
    }
}

/// One step of store history: a creation appends a record, a deletion
/// removes the record carrying an identifier.
pub enum ModelOp {
    Create(UserView),
    Delete(Seq<u8>),
}

/// The contents after one operation.
pub open spec fn apply_op(s: Seq<UserView>, op: ModelOp) -> Seq<UserView> {
    match op {
        ModelOp::Create(r) => s.push(r),
        ModelOp::Delete(id) => spec_remove(s, id),
    }
}

/// The contents after a run of operations, applied front to back.
pub open spec fn apply_ops(s: Seq<UserView>, ops: Seq<ModelOp>) -> Seq<UserView>
    decreases ops.len(),
{
    if ops.len() == 0 {
        s
    } else {
        apply_ops(apply_op(s, ops[0]), ops.drop_first())
    }
}

/// A run is admissible when every deletion names an identifier that
/// some record carries at that point.
pub open spec fn ops_admissible(s: Seq<UserView>, ops: Seq<ModelOp>) -> bool
    decreases ops.len(),
{
    ops.len() == 0 || ({
        (match ops[0] {
            ModelOp::Create(_) => true,
            ModelOp::Delete(id) => contains_id(s, id),
        }) && ops_admissible(apply_op(s, ops[0]), ops.drop_first())
    })
}

/// How many operations of a run are creations.
pub open spec fn n_creates(ops: Seq<ModelOp>) -> int
    decreases ops.len(),
{
    if ops.len() == 0 {
        0
    } else {
        (if ops[0] matches ModelOp::Create(_) {
            1int
        } else {
            0int
        }) + n_creates(ops.drop_first())
    }
}

/// How many operations of a run are deletions.
pub open spec fn n_deletes(ops: Seq<ModelOp>) -> int
    decreases ops.len(),
{
    if ops.len() == 0 {
        0
    } else {
        (if ops[0] matches ModelOp::Delete(_) {
            1int
        } else {
            0int
        }) + n_deletes(ops.drop_first())
    }
}

/// Removing a carried identifier takes out exactly one record.
pub proof fn lemma_remove_present_len(s: Seq<UserView>, id: Seq<u8>)
    requires
        contains_id(s, id),
    ensures
        spec_remove(s, id).len() == s.len() - 1,
    decreases s.len(),
{
    if s[0].id == Some(id) {
    } else {
        lemma_remove_present_len(s.drop_first(), id);
    }
}

/// The census law: after a run of creations and deletions in which
/// every deletion hits, the store holds exactly the initial number of
/// records, plus one per creation, minus one per deletion.
pub proof fn law_census(s: Seq<UserView>, ops: Seq<ModelOp>)
    requires
        ops_admissible(s, ops),
    ensures
        apply_ops(s, ops).len() == s.len() + n_creates(ops) - n_deletes(ops),
    decreases ops.len(),
{
    if ops.len() > 0 {
        match ops[0] {
            ModelOp::Create(_) => {},
            ModelOp::Delete(id) => {
                lemma_remove_present_len(s, id);
            },
        }
        law_census(apply_op(s, ops[0]), ops.drop_first());
    }
}

} // verus!
