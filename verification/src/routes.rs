//! The HTTP route layer's decision logic. Each route's reading of the
//! request and the store's answers is a pure function here; the HTTP
//! framing, cookies and queries stay with the surrounding runtime.

pub mod catchers;
pub mod connection;
pub mod devices;
pub mod user;

use vstd::prelude::*;
use crate::util::is_duplicated_error;

verus! {

/// The status body of a user lookup answer.
#[derive(Debug)]
pub struct GetUserResponseType {
    /// The response topic.
    pub topic: String,
}

/// The status body of a connection lookup answer.
#[derive(Debug)]
pub struct ConnectionResponseType {
    /// The response topic.
    pub topic: String,
}

/// The status body of a login answer.
pub struct LoginResponseType {
    /// The response topic.
    pub topic: String,
}

/// A login request's credentials.
pub struct LoginRequest {
    /// The claimed username.
    pub username: String,
    /// The claimed password.
    pub password: String,
}

/// The placeholder login route: answers with an empty topic.
pub fn login(credentials: &LoginRequest) -> (r: Result<ConnectionResponseType, u16>)
    ensures
        r matches Ok(c) && c.topic@ == Seq::<char>::empty(),
{
    let _ = credentials;
    Ok(ConnectionResponseType { topic: String::new() })
}

/// The placeholder user route: locked.
pub fn get_user() -> (r: Result<GetUserResponseType, u16>)
    ensures
        r matches Err(status) && status == 423,
{
    Err(423)
}

/// The placeholder connection route: locked.
pub fn get_connection() -> (r: Result<ConnectionResponseType, u16>)
    ensures
        r matches Err(status) && status == 423,
{
    Err(423)
}

/// The status an update that failed with `err` answers with: conflict on a
/// duplicate-key violation, internal error otherwise.
pub fn update_failure_status(err: &sqlx::Error) -> (s: u16)
    ensures
        s == 409 || s == 500,
{
    if is_duplicated_error(err) {
        409
    } else {
        500
    }
}

} // verus!
