//! API-layer checks: request header validation, the identifier precondition
//! on create requests, and the mapping from reconciliation outcomes to HTTP
//! status codes. The HTTP plumbing itself lives outside and hands in plain
//! values.

use vstd::prelude::*;

verus! {

use crate::user::User;
use crate::user_service::DatabaseError;

/// Check a request's Accept header: the caller must accept
/// `application/json`, else the request is rejected before it reaches the
/// reconciliation layer. `header_content` is the header's value, absent when
/// the header is missing or not readable as text.
pub fn check_accept_header_json(header_content: Option<&String>) -> (r: Result<(), ()>)
    ensures
        r is Ok <==> (header_content matches Some(h) && h@ == "application/json"@),
{
    match header_content {
        Some(h) => {
            if *h == "application/json".to_owned() {
                Ok(())
            } else {
                Err(())
            }
        },
        None => Err(()),
    }
}

/// Check a write request's Content-Type header: the body must be declared as
/// `application/json`, else the request is rejected before it reaches the
/// reconciliation layer.
pub fn check_content_type_header_json(header_content: Option<&String>) -> (r: Result<(), ()>)
    ensures
        r is Ok <==> (header_content matches Some(h) && h@ == "application/json"@),
{
    match header_content {
        Some(h) => {
            if *h == "application/json".to_owned() {
                Ok(())
            } else {
                Err(())
            }
        },
        None => Err(()),
    }
}

/// Check the payload of a create request: a new user must not already carry
/// an identifier — the store assigns it.
pub fn check_new_user_has_no_id(user: &User) -> (r: Result<(), ()>)
    ensures
        r is Ok <==> user@.id is None,
{
    match &user.id {
        Some(_) => Err(()),
        None => Ok(()),
    }
}

/// The status code for an outcome of the reconciliation layer: 200 on
/// success, 404 when the record was not found, 500 on any other failure.
pub fn response_status<T>(outcome: &Result<T, DatabaseError>) -> (r: u16)
    ensures
        outcome is Ok ==> r == 200,
        outcome matches Err(DatabaseError::UserNotFound(_)) ==> r == 404,
        outcome matches Err(e) && !(e matches DatabaseError::UserNotFound(_)) ==> r == 500,
{
    match outcome {
        Ok(_) => 200,
        Err(DatabaseError::UserNotFound(_)) => 404,
        Err(_) => 500,
    }
}

} // verus!
