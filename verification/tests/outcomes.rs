use user_service::object_id::UserId;
use user_service::outcome::{error_status, success_status, ApiError, Operation, StoreFault};
use user_service::service::{
    create_refetch_outcome, delete_outcome, find_outcome, insert_outcome, list_outcome,
};
use user_service::user::User;

fn some_user() -> User {
    User {
        id: None,
        name: String::from("n"),
        mobile: String::from("m"),
        email: String::from("e"),
    }
}

#[test]
fn status_of_each_failure_kind() {
    assert_eq!(error_status(&ApiError::ClientError), 400);
    assert_eq!(error_status(&ApiError::NotFound), 404);
    assert_eq!(error_status(&ApiError::ServerError), 500);
}

#[test]
fn status_of_each_success() {
    assert_eq!(success_status(&Operation::Create), 201);
    assert_eq!(success_status(&Operation::GetById), 200);
    assert_eq!(success_status(&Operation::ListAll), 200);
    assert_eq!(success_status(&Operation::UpdateById), 200);
    assert_eq!(success_status(&Operation::DeleteById), 204);
}

#[test]
fn insert_fault_is_a_server_error() {
    assert_eq!(insert_outcome(Err(StoreFault)).err(), Some(ApiError::ServerError));
    let id = UserId::parse_str("00112233445566778899aabb").unwrap();
    assert!(insert_outcome(Ok(id)).is_ok());
}

#[test]
fn lookup_outcomes() {
    assert_eq!(
        find_outcome(Ok(Some(some_user()))).unwrap().name,
        "n".to_string()
    );
    assert_eq!(find_outcome(Ok(None)).err(), Some(ApiError::NotFound));
    assert_eq!(find_outcome(Err(StoreFault)).err(), Some(ApiError::ServerError));
}

#[test]
fn unreadable_created_record_is_a_server_fault_not_a_miss() {
    assert_eq!(
        create_refetch_outcome(Ok(None)).err(),
        Some(ApiError::ServerError)
    );
    assert_eq!(
        create_refetch_outcome(Err(StoreFault)).err(),
        Some(ApiError::ServerError)
    );
    assert!(create_refetch_outcome(Ok(Some(some_user()))).is_ok());
}

#[test]
fn listing_fault_fails_the_whole_operation() {
    assert_eq!(list_outcome(Err(StoreFault)).err(), Some(ApiError::ServerError));
    assert_eq!(list_outcome(Ok(vec![some_user()])).unwrap().len(), 1);
}

#[test]
fn delete_counts_other_than_one_are_not_found() {
    assert!(delete_outcome(Ok(1)).is_ok());
    assert_eq!(delete_outcome(Ok(0)).err(), Some(ApiError::NotFound));
    assert_eq!(delete_outcome(Ok(2)).err(), Some(ApiError::NotFound));
    assert_eq!(delete_outcome(Err(StoreFault)).err(), Some(ApiError::ServerError));
}
