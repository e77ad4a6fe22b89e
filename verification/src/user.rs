//! The user entity and the two request payloads, with their mathematical
//! views, and the field-level set that an update applies.

use vstd::prelude::*;

verus! {

use crate::object_id::UserId;

/// Mathematical image of a user record: raw identifier bytes (absent
/// before creation) and the three text fields as character sequences.
pub struct UserView {
    pub id: Option<Seq<u8>>,
    pub name: Seq<char>,
    pub mobile: Seq<char>,
    pub email: Seq<char>,
}

/// A person record. The identifier is assigned by the store on creation,
/// absent before it, and immutable afterward.
pub struct User {
    pub id: Option<UserId>,
    pub name: String,
    pub mobile: String,
    pub email: String,
}

impl View for User {
    type V = UserView;

    open spec fn view(&self) -> UserView {
        UserView {
            id: match self.id {
                Some(i) => Some(i@),
                None => None,
            },
            name: self.name@,
            mobile: self.mobile@,
            email: self.email@,
        }
    }
}

impl User {
    /// A fresh record with the same contents.
    pub fn duplicate(&self) -> (r: User)
        ensures
            r@ == self@,
    {
        User {
            id: match &self.id {
                Some(i) => Some(i.duplicate()),
                None => None,
            },
            name: self.name.clone(),
            mobile: self.mobile.clone(),
            email: self.email.clone(),
        }
    }
}

/// Creation payload: all three text fields, never an identifier.
pub struct CreateUserRequest {
    pub name: String,
    pub mobile: String,
    pub email: String,
}

/// Update payload: only `name` and `email`. The update operation never
/// touches `mobile`; that asymmetry is part of the contract.
pub struct UpdateUserRequest {
    pub name: String,
    pub email: String,
}

/// Builds the unsaved record of a creation payload: no identifier yet,
/// all three fields exactly as sent.
pub fn new_user_record(payload: CreateUserRequest) -> (u: User)
    ensures
        u@.id is None,
        u@.name == payload.name@,
        u@.mobile == payload.mobile@,
        u@.email == payload.email@,
{
    User { id: None, name: payload.name, mobile: payload.mobile, email: payload.email }
}

/// The record after the field-level set of an update: exactly `name` and
/// `email` replaced, `id` and `mobile` untouched.
pub open spec fn spec_updated_record(r: UserView, name: Seq<char>, email: Seq<char>) -> UserView {
    UserView { id: r.id, name: name, mobile: r.mobile, email: email }
}

/// Applies the field-level set of an update payload to a record: `name`
/// and `email` are replaced; `id` and `mobile` are left untouched.
pub fn apply_update(u: &mut User, payload: &UpdateUserRequest)
    ensures
        final(u)@ == spec_updated_record(old(u)@, payload.name@, payload.email@),
{
    u.name = payload.name.clone();
    u.email = payload.email.clone();
}

} // verus!
