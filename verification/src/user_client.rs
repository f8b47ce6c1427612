//! Directory-client logic: building the endpoint URLs for the external user
//! directory and interpreting its HTTP responses. The transport itself is not
//! here; the caller performs the request and hands back the status code and
//! the decoded body.

use vstd::prelude::*;
use vstd::string::StringExecFns;

verus! {

use crate::user::User;

/// Errors of the directory client.
#[derive(Debug, PartialEq, Eq)]
pub enum UserClientError {
    /// The directory has no record for this identifier.
    UserNotFound(String),
    /// The directory answered with this status code, and it was not 200.
    RestError(u16),
    /// The configured base URL is not a valid absolute URL.
    UrlParseError,
    /// The response body did not decode as the expected record shape.
    SerdeError,
    /// An update was attempted on a record without an identifier.
    NoIdError,
}

/// The result of parsing `base` as an absolute URL and resolving `path`
/// against it: `None` when either step fails, otherwise the serialization of
/// the resolved URL. A fixed function of the two strings.
pub uninterp spec fn url_join(base: Seq<char>, path: Seq<char>) -> Option<Seq<char>>;

/// Relies on url::Url::parse, url::Url::join and From<Url> for String: for a
/// given base and path the outcome is fixed, it succeeds exactly when `base`
/// parses as an absolute URL and `path` resolves against it, and the returned
/// string is the resolved URL's serialization.
#[verifier::external_body]
fn resolve_against_base(base: &str, path: &str) -> (r: Option<String>)
    ensures
        r is Some <==> url_join(base@, path@) is Some,
        r matches Some(s) ==> url_join(base@, path@) == Some(s@),
{
    match url::Url::parse(base) {
        Ok(parsed) => match parsed.join(path) {
            Ok(joined) => Some(String::from(joined)),
            Err(_) => None,
        },
        Err(_) => None,
    }
}

/// The URL under which the directory lists all users: `base` with the path
/// `/users`. Fails with `UrlParseError` exactly when `base` does not parse
/// as an absolute URL or the path does not resolve against it.
pub fn get_users_url(base: &str) -> (r: Result<String, UserClientError>)
    ensures
        r matches Ok(s) ==> url_join(base@, "/users"@) == Some(s@),
        r is Err <==> url_join(base@, "/users"@) is None,
        r matches Err(e) ==> e == UserClientError::UrlParseError,
{
    match resolve_against_base(base, "/users") {
        Some(joined) => Ok(joined),
        None => Err(UserClientError::UrlParseError),
    }
}

/// The URL of a single directory user: `base` with the path `/users/{id}`.
/// Fails with `UrlParseError` exactly when `base` does not parse as an
/// absolute URL or the path does not resolve against it.
pub fn get_user_url(base: &str, id: &str) -> (r: Result<String, UserClientError>)
    ensures
        r matches Ok(s) ==> url_join(base@, "/users/"@ + id@) == Some(s@),
        r is Err <==> url_join(base@, "/users/"@ + id@) is None,
        r matches Err(e) ==> e == UserClientError::UrlParseError,
{
    let mut path = "/users/".to_owned();
    path.append(id);
    match resolve_against_base(base, path.as_str()) {
        Some(joined) => Ok(joined),
        None => Err(UserClientError::UrlParseError),
    }
}

/// Interpret the directory's answer to a list request. `body` is the decoded
/// body of a 200 answer, `None` when decoding failed; for any other status
/// the body is irrelevant and the status itself is the error.
pub fn interpret_users_response(status: u16, body: Option<Vec<User>>) -> (r: Result<
    Vec<User>,
    UserClientError,
>)
    ensures
        status == 200 ==> (match body {
            Some(users) => r matches Ok(rs) && rs == users,
            None => r matches Err(e) && e == UserClientError::SerdeError,
        }),
        status != 200 ==> (r matches Err(e) && e == UserClientError::RestError(status)),
{
    if status != 200 {
        return Err(UserClientError::RestError(status));
    }
    match body {
        Some(users) => Ok(users),
        None => Err(UserClientError::SerdeError),
    }
}

/// Interpret the directory's answer to a get-by-id request. A 404 is the
/// statement that the directory has no such record, surfaced as
/// `UserNotFound(id)`; any other non-200 status is a generic `RestError`.
pub fn interpret_user_response(id: &str, status: u16, body: Option<User>) -> (r: Result<
    User,
    UserClientError,
>)
    ensures
        status == 200 ==> (match body {
            Some(user) => r matches Ok(ru) && ru == user,
            None => r matches Err(e) && e == UserClientError::SerdeError,
        }),
        status == 404 ==> (r matches Err(UserClientError::UserNotFound(s)) && s@ == id@),
        status != 200 && status != 404 ==> (r matches Err(e) && e == UserClientError::RestError(
            status,
        )),
{
    if status == 404 {
        return Err(UserClientError::UserNotFound(id.to_owned()));
    }
    if status != 200 {
        return Err(UserClientError::RestError(status));
    }
    match body {
        Some(user) => Ok(user),
        None => Err(UserClientError::SerdeError),
    }
}

/// Interpret the directory's answer to a create request; the directory echoes
/// the created record, with the identifier it assigned, as the body.
pub fn interpret_create_response(status: u16, body: Option<User>) -> (r: Result<
    User,
    UserClientError,
>)
    ensures
        status == 200 ==> (match body {
            Some(user) => r matches Ok(ru) && ru == user,
            None => r matches Err(e) && e == UserClientError::SerdeError,
        }),
        status != 200 ==> (r matches Err(e) && e == UserClientError::RestError(status)),
{
    if status != 200 {
        return Err(UserClientError::RestError(status));
    }
    match body {
        Some(user) => Ok(user),
        None => Err(UserClientError::SerdeError),
    }
}

/// Interpret the directory's answer to an update request. As with get-by-id,
/// a 404 means the record does not exist: `UserNotFound(id)`.
pub fn interpret_update_response(id: &str, status: u16, body: Option<User>) -> (r: Result<
    User,
    UserClientError,
>)
    ensures
        status == 200 ==> (match body {
            Some(user) => r matches Ok(ru) && ru == user,
            None => r matches Err(e) && e == UserClientError::SerdeError,
        }),
        status == 404 ==> (r matches Err(UserClientError::UserNotFound(s)) && s@ == id@),
        status != 200 && status != 404 ==> (r matches Err(e) && e == UserClientError::RestError(
            status,
        )),
{
    if status == 404 {
        return Err(UserClientError::UserNotFound(id.to_owned()));
    }
    if status != 200 {
        return Err(UserClientError::RestError(status));
    }
    match body {
        Some(user) => Ok(user),
        None => Err(UserClientError::SerdeError),
    }
}

/// The identifier policy of an update: a record can only be updated under an
/// identifier. Returns the identifier, or `NoIdError` exactly when the record
/// has none — in which case no request may be made at all.
pub fn update_user_id(user: &User) -> (r: Result<String, UserClientError>)
    ensures
        r is Err <==> user.id is None,
        r matches Ok(s) ==> user@.id == Some(s@),
        r matches Err(e) ==> e == UserClientError::NoIdError,
{
    match &user.id {
        Some(id) => Ok(id.clone()),
        None => Err(UserClientError::NoIdError),
    }
}

/// The error reported when the transport failed outright: the status code the
/// failure carried, or 500 when it carried none.
pub fn transport_failure(status: Option<u16>) -> (r: UserClientError)
    ensures
        status matches Some(s) ==> r == UserClientError::RestError(s),
        status is None ==> r == UserClientError::RestError(500u16),
{
    match status {
        Some(s) => UserClientError::RestError(s),
        None => UserClientError::RestError(500),
    }
}

} // verus!
