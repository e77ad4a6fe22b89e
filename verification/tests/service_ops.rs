use user_service::outcome::{error_status, success_status, ApiError, Operation};
use user_service::service::{create, delete_by_id, get_by_id, list_all, update_by_id};
use user_service::store::MemStore;
use user_service::user::{CreateUserRequest, UpdateUserRequest, User};

fn payload(name: &str, mobile: &str, email: &str) -> CreateUserRequest {
    CreateUserRequest {
        name: name.to_string(),
        mobile: mobile.to_string(),
        email: email.to_string(),
    }
}

fn id_of(u: &User) -> String {
    u.id.as_ref().expect("a created user carries an identifier").to_hex()
}

#[test]
fn create_returns_the_sent_fields_and_a_fresh_identifier() {
    let mut store = MemStore::new();
    let u = create(&mut store, payload("Ann", "555", "a@x.com")).unwrap();
    assert_eq!(u.name, "Ann");
    assert_eq!(u.mobile, "555");
    assert_eq!(u.email, "a@x.com");
    assert!(u.id.is_some());
    let v = create(&mut store, payload("Bob", "556", "b@x.com")).unwrap();
    assert_ne!(id_of(&u), id_of(&v));
}

#[test]
fn create_accepts_empty_strings() {
    let mut store = MemStore::new();
    let u = create(&mut store, payload("", "", "")).unwrap();
    assert_eq!(u.name, "");
    assert_eq!(u.mobile, "");
    assert_eq!(u.email, "");
    assert!(u.id.is_some());
}

#[test]
fn created_record_is_read_back_equal() {
    let mut store = MemStore::new();
    let u = create(&mut store, payload("Ann", "555", "a@x.com")).unwrap();
    let got = get_by_id(&store, &id_of(&u)).unwrap();
    assert_eq!(got.name, u.name);
    assert_eq!(got.mobile, u.mobile);
    assert_eq!(got.email, u.email);
    assert_eq!(id_of(&got), id_of(&u));
}

#[test]
fn malformed_identifier_is_a_client_error_never_a_miss() {
    let store = MemStore::new();
    assert_eq!(get_by_id(&store, "nonsense").err(), Some(ApiError::ClientError));
    assert_eq!(
        get_by_id(&store, "00112233445566778899aab").err(),
        Some(ApiError::ClientError)
    );
    assert_eq!(
        get_by_id(&store, "0011223344556677g899aabb").err(),
        Some(ApiError::ClientError)
    );
}

#[test]
fn well_formed_unassigned_identifier_is_not_found() {
    let mut store = MemStore::new();
    let _ = create(&mut store, payload("Ann", "555", "a@x.com")).unwrap();
    assert_eq!(
        get_by_id(&store, "ffffffffffffffffffffffff").err(),
        Some(ApiError::NotFound)
    );
}

// The update payload deliberately has no `mobile` field: the update
// operation's field-level set covers exactly `name` and `email`, and
// `mobile` survives every update unchanged.
#[test]
fn update_replaces_name_and_email_and_keeps_mobile() {
    let mut store = MemStore::new();
    let u = create(&mut store, payload("Ann", "555", "a@x.com")).unwrap();
    let id = id_of(&u);
    let updated = update_by_id(
        &mut store,
        &id,
        UpdateUserRequest { name: "Ann2".to_string(), email: "a2@x.com".to_string() },
    )
    .unwrap();
    assert_eq!(updated.name, "Ann2");
    assert_eq!(updated.email, "a2@x.com");
    assert_eq!(updated.mobile, "555");
    assert_eq!(id_of(&updated), id);
    let got = get_by_id(&store, &id).unwrap();
    assert_eq!(got.name, "Ann2");
    assert_eq!(got.email, "a2@x.com");
    assert_eq!(got.mobile, "555");
}

#[test]
fn update_of_a_missing_identifier_never_creates() {
    let mut store = MemStore::new();
    let r = update_by_id(
        &mut store,
        "ffffffffffffffffffffffff",
        UpdateUserRequest { name: "X".to_string(), email: "x@x.com".to_string() },
    );
    assert_eq!(r.err(), Some(ApiError::NotFound));
    assert_eq!(list_all(&store).unwrap().len(), 0);
}

#[test]
fn update_with_malformed_identifier_is_a_client_error() {
    let mut store = MemStore::new();
    let r = update_by_id(
        &mut store,
        "short",
        UpdateUserRequest { name: "X".to_string(), email: "x@x.com".to_string() },
    );
    assert_eq!(r.err(), Some(ApiError::ClientError));
}

#[test]
fn delete_succeeds_exactly_once_per_identifier() {
    let mut store = MemStore::new();
    let u = create(&mut store, payload("Ann", "555", "a@x.com")).unwrap();
    let id = id_of(&u);
    assert!(delete_by_id(&mut store, &id).is_ok());
    assert_eq!(delete_by_id(&mut store, &id).err(), Some(ApiError::NotFound));
    assert_eq!(get_by_id(&store, &id).err(), Some(ApiError::NotFound));
}

#[test]
fn delete_with_malformed_identifier_is_a_client_error() {
    let mut store = MemStore::new();
    assert_eq!(
        delete_by_id(&mut store, "no-such-id").err(),
        Some(ApiError::ClientError)
    );
}

#[test]
fn listing_after_creations_and_deletions_counts_the_survivors() {
    let mut store = MemStore::new();
    let a = create(&mut store, payload("A", "1", "a@x.com")).unwrap();
    let b = create(&mut store, payload("B", "2", "b@x.com")).unwrap();
    let c = create(&mut store, payload("C", "3", "c@x.com")).unwrap();
    delete_by_id(&mut store, &id_of(&b)).unwrap();
    let listed = list_all(&store).unwrap();
    assert_eq!(listed.len(), 2);
    for u in &listed {
        assert!(get_by_id(&store, &id_of(u)).is_ok());
    }
    assert_eq!(listed[0].name, a.name);
    assert_eq!(listed[1].name, c.name);
}

#[test]
fn listing_an_empty_store_is_empty() {
    let store = MemStore::new();
    assert_eq!(list_all(&store).unwrap().len(), 0);
}

#[test]
fn full_lifecycle_with_status_codes() {
    let mut store = MemStore::new();

    let created = create(&mut store, payload("Ann", "555", "a@x.com")).unwrap();
    assert_eq!(success_status(&Operation::Create), 201);
    let id = id_of(&created);
    assert_eq!(id.len(), 24);

    let got = get_by_id(&store, &id).unwrap();
    assert_eq!(success_status(&Operation::GetById), 200);
    assert_eq!(got.name, "Ann");
    assert_eq!(got.mobile, "555");
    assert_eq!(got.email, "a@x.com");

    let updated = update_by_id(
        &mut store,
        &id,
        UpdateUserRequest { name: "Ann2".to_string(), email: "a2@x.com".to_string() },
    )
    .unwrap();
    assert_eq!(success_status(&Operation::UpdateById), 200);
    assert_eq!(updated.mobile, "555");

    delete_by_id(&mut store, &id).unwrap();
    assert_eq!(success_status(&Operation::DeleteById), 204);

    let after = get_by_id(&store, &id);
    assert_eq!(after.err(), Some(ApiError::NotFound));
    assert_eq!(error_status(&ApiError::NotFound), 404);
}
