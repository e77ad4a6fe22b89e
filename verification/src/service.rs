//! The user resource service: translates the five operations into
//! document-store calls and maps every store result onto exactly one
//! HTTP-style outcome.
//!
//! The mapping functions take the store's answer as an argument, so any
//! document-store collaborator can drive them; the five operations then
//! compose them with the in-memory store, where the whole
//! request-to-response pipeline is proved end to end.

use vstd::prelude::*;

verus! {

use crate::object_id::UserId;
use crate::object_id::id_of_hex;
use crate::object_id::valid_hex_id;
use crate::outcome::ApiError;
use crate::outcome::StoreFault;
use crate::store::MemStore;
use crate::store::contains_id;
use crate::store::spec_lookup;
use crate::store::spec_remove;
use crate::store::spec_update;
use crate::user::CreateUserRequest;
use crate::user::UpdateUserRequest;
use crate::user::User;
use crate::user::new_user_record;
use crate::user::spec_updated_record;

/// Outcome of an insertion: a store failure is a server error; otherwise
/// the assigned identifier is passed through.
pub fn insert_outcome(inserted: Result<UserId, StoreFault>) -> (r: Result<UserId, ApiError>)
    ensures
        match inserted {
            Ok(id) => r == Ok::<UserId, ApiError>(id),
            Err(_) => r == Err::<UserId, ApiError>(ApiError::ServerError),
        },
{
    match inserted {
        Ok(id) => Ok(id),
        Err(_) => Err(ApiError::ServerError),
    }
}

/// Outcome of a lookup: a found record is returned, a missed lookup is
/// not-found, a store failure is a server error.
pub fn find_outcome(found: Result<Option<User>, StoreFault>) -> (r: Result<User, ApiError>)
    ensures
        match found {
            Ok(Some(u)) => r == Ok::<User, ApiError>(u),
            Ok(None) => r == Err::<User, ApiError>(ApiError::NotFound),
            Err(_) => r == Err::<User, ApiError>(ApiError::ServerError),
        },
{
    match found {
        Ok(Some(u)) => Ok(u),
        Ok(None) => Err(ApiError::NotFound),
        Err(_) => Err(ApiError::ServerError),
    }
}

/// Outcome of the re-fetch that follows a successful insertion: a record
/// that was just inserted but cannot be read back is a server-side
/// fault, never a not-found.
pub fn create_refetch_outcome(found: Result<Option<User>, StoreFault>) -> (r: Result<
    User,
    ApiError,
>)
    ensures
        match found {
            Ok(Some(u)) => r == Ok::<User, ApiError>(u),
            Ok(None) => r == Err::<User, ApiError>(ApiError::ServerError),
            Err(_) => r == Err::<User, ApiError>(ApiError::ServerError),
        },
{
    match found {
        Ok(Some(u)) => Ok(u),
        Ok(None) => Err(ApiError::ServerError),
        Err(_) => Err(ApiError::ServerError),
    }
}

/// Outcome of draining the whole listing: any store failure fails the
/// whole operation as a server error.
pub fn list_outcome(listed: Result<Vec<User>, StoreFault>) -> (r: Result<Vec<User>, ApiError>)
    ensures
        match listed {
            Ok(users) => r == Ok::<Vec<User>, ApiError>(users),
            Err(_) => r == Err::<Vec<User>, ApiError>(ApiError::ServerError),
        },
{
    match listed {
        Ok(users) => Ok(users),
        Err(_) => Err(ApiError::ServerError),
    }
}

/// Outcome of a delete: success exactly when one record was removed, a
/// count of zero (or anything other than one) is not-found, a store
/// failure is a server error.
pub fn delete_outcome(deleted: Result<u64, StoreFault>) -> (r: Result<(), ApiError>)
    ensures
        match deleted {
            Ok(count) => (count == 1 ==> r == Ok::<(), ApiError>(())) && (count != 1 ==> r
                == Err::<(), ApiError>(ApiError::NotFound)),
            Err(_) => r == Err::<(), ApiError>(ApiError::ServerError),
        },
{
    match deleted {
        Ok(count) => {
            if count == 1 {
                Ok(())
            } else {
                Err(ApiError::NotFound)
            }
        },
        Err(_) => Err(ApiError::ServerError),
    }
}

/// Creates a user: builds the record without an identifier, inserts it,
/// then re-fetches the store-assigned identifier and returns the record
/// exactly as the store persisted it. The returned record carries a
/// fresh identifier and the three fields as sent; the store grows by
/// that one record.
pub fn create(store: &mut MemStore, payload: CreateUserRequest) -> (r: Result<User, ApiError>)
    requires
        old(store).wf(),
    ensures
        final(store).wf(),
        old(store).at_capacity() ==> r == Err::<User, ApiError>(ApiError::ServerError) && final(store)@ == old(store)@,
        !old(store).at_capacity() ==> (r matches Ok(u) && u@.id is Some && u@.id->0.len() == 12
            && !contains_id(old(store)@, u@.id->0) && u@.name == payload.name@ && u@.mobile
            == payload.mobile@ && u@.email == payload.email@ && final(store)@ == old(store)@.push(u@)),
{
    let ghost pre = store@;
    let record = new_user_record(payload);
    let ghost record_view = record@;
    let inserted = insert_outcome(store.insert_one(record));
    match inserted {
        Ok(id) => {
            proof {
                crate::store::lemma_lookup_push(
                    pre,
                    crate::store::stored_view(record_view, id@),
                    id@,
                );
            }
            create_refetch_outcome(Ok(store.find_by_id(&id)))
        },
        Err(e) => Err(e),
    }
}

/// Reads one user by its identifier string: a malformed identifier is a
/// client error decided without touching the store, a well-formed one
/// that no record carries is not-found, and otherwise the matching
/// record is returned.
pub fn get_by_id(store: &MemStore, id: &str) -> (r: Result<User, ApiError>)
    requires
        store.wf(),
    ensures
        !valid_hex_id(id@) ==> r == Err::<User, ApiError>(ApiError::ClientError),
        valid_hex_id(id@) && !contains_id(store@, id_of_hex(id@)) ==> r == Err::<User, ApiError>(
            ApiError::NotFound,
        ),
        valid_hex_id(id@) && contains_id(store@, id_of_hex(id@)) ==> (r matches Ok(u) && Some(u@)
            == spec_lookup(store@, id_of_hex(id@))),
{
    match UserId::parse_str(id) {
        Ok(oid) => find_outcome(Ok(store.find_by_id(&oid))),
        Err(e) => Err(e),
    }
}

/// Lists every record, in the store's natural (insertion) order, with
/// no filtering and no pagination.
pub fn list_all(store: &MemStore) -> (r: Result<Vec<User>, ApiError>)
    requires
        store.wf(),
    ensures
        r matches Ok(users) && users@.len() == store@.len() && (forall|i: int|
            0 <= i < store@.len() ==> (#[trigger] users@[i])@ == store@[i]),
{
    list_outcome(Ok(store.find_all()))
}

/// Updates one user by its identifier string, applying the field-level
/// set of exactly `name` and `email`: `mobile` and the identifier are
/// untouched, no record is ever created, and the record returned is the
/// one read back after the update.
pub fn update_by_id(store: &mut MemStore, id: &str, payload: UpdateUserRequest) -> (r: Result<
    User,
    ApiError,
>)
    requires
        old(store).wf(),
    ensures
        final(store).wf(),
        !valid_hex_id(id@) ==> r == Err::<User, ApiError>(ApiError::ClientError) && final(store)@
            == old(store)@,
        valid_hex_id(id@) && !contains_id(old(store)@, id_of_hex(id@)) ==> r == Err::<
            User,
            ApiError,
        >(ApiError::NotFound) && final(store)@ == old(store)@,
        valid_hex_id(id@) && contains_id(old(store)@, id_of_hex(id@)) ==> (r matches Ok(u) && u@
            == spec_updated_record(
            spec_lookup(old(store)@, id_of_hex(id@))->0,
            payload.name@,
            payload.email@,
        ) && final(store)@ == spec_update(
            old(store)@,
            id_of_hex(id@),
            payload.name@,
            payload.email@,
        )),
{
    match UserId::parse_str(id) {
        Ok(oid) => {
            let found = store.find_one_and_update(&oid, &payload);
            find_outcome(Ok(found))
        },
        Err(e) => Err(e),
    }
}

/// Deletes one user by its identifier string: success, with no content,
/// exactly when one record was removed; a well-formed identifier that no
/// record carries is not-found, so a second delete of the same
/// identifier misses.
pub fn delete_by_id(store: &mut MemStore, id: &str) -> (r: Result<(), ApiError>)
    requires
        old(store).wf(),
    ensures
        final(store).wf(),
        !valid_hex_id(id@) ==> r == Err::<(), ApiError>(ApiError::ClientError) && final(store)@
            == old(store)@,
        valid_hex_id(id@) && !contains_id(old(store)@, id_of_hex(id@)) ==> r == Err::<(), ApiError>(
            ApiError::NotFound,
        ) && final(store)@ == old(store)@,
        valid_hex_id(id@) && contains_id(old(store)@, id_of_hex(id@)) ==> r == Ok::<(), ApiError>(
            (),
        ) && final(store)@ == spec_remove(old(store)@, id_of_hex(id@)) && final(store)@.len() == old(store)@.len() - 1,
{
    match UserId::parse_str(id) {
        Ok(oid) => delete_outcome(Ok(store.delete_one(&oid))),
        Err(e) => Err(e),
    }
}

} // verus!
