//! The account-view route: the record behind the request's access token,
//! with the sensitive columns left out.

use vstd::prelude::*;
use crate::db::DbLookup;
use crate::model::Timestamp;

verus! {

/// A user record with only the exposable columns.
#[derive(Clone, Debug)]
pub struct ExposedUser {
    /// The user's opaque identifier.
    pub id: String,
    /// The chosen name, once registration completes.
    pub username: Option<String>,
    /// The account's address.
    pub email: String,
    /// When the record was created.
    pub created_at: Timestamp,
}

/// The body a successful account view answers with.
#[derive(Debug)]
pub struct GetUserRequestBody {
    /// The requesting user's exposable record.
    pub user_data: ExposedUser,
}

/// The route's decision, given the cookie token and the record the store
/// resolved it to: unauthorized without a token or with an unknown one;
/// internal error when the lookup fails; otherwise exactly the record.
pub fn get(access_token: Option<&String>, user_lookup: DbLookup<ExposedUser>) -> (r: Result<
    GetUserRequestBody,
    u16,
>)
    ensures
        access_token is None ==> (r matches Err(status) && status == 401),
        access_token is Some ==> match user_lookup {
            DbLookup::Fault => r matches Err(status) && status == 500,
            DbLookup::Missing => r matches Err(status) && status == 401,
            DbLookup::Found(u) => r matches Ok(body) && body.user_data == u,
        },
{
    if access_token.is_none() {
        return Err(401);
    }
    match user_lookup {
        DbLookup::Fault => Err(500),
        DbLookup::Missing => Err(401),
        DbLookup::Found(u) => Ok(GetUserRequestBody { user_data: u }),
    }
}

} // verus!
