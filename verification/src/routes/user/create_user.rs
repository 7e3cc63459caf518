//! The credential-setting route: an authenticated user who has not
//! registered credentials yet sets a username and password.

use vstd::prelude::*;
use crate::db::DbLookup;
use crate::model::User;
use crate::util::hash_password;
use crate::util::password_digest_chars;

verus! {

/// The request body: the credentials to set.
pub struct CreateUserRequestType {
    /// The username to register.
    pub username: String,
    /// The password to register.
    pub password: String,
}

/// What the route decided.
pub enum CreateUserStep {
    /// Answer with this status and do nothing.
    Reject {
        /// The HTTP status.
        status: u16,
    },
    /// Store these credentials for the token's user.
    UpdateCredentials {
        /// The username to store.
        username: String,
        /// The digest to store in place of the password.
        hashed_password: String,
    },
}

/// The route's decision, given the cookie token and the user the store
/// resolved it to: unauthorized without a token, with an unknown one, or
/// when credentials are already registered; internal error when the lookup
/// fails; otherwise the exact credentials to store.
pub fn post(
    access_token: Option<&String>,
    user_lookup: DbLookup<User>,
    create_user_data: &CreateUserRequestType,
) -> (r: CreateUserStep)
    ensures
        access_token is None ==> (r matches CreateUserStep::Reject { status } && status == 401),
        access_token is Some ==> match user_lookup {
            DbLookup::Fault => r matches CreateUserStep::Reject { status } && status == 500,
            DbLookup::Missing => r matches CreateUserStep::Reject { status } && status == 401,
            DbLookup::Found(u) => {
                if u.username is Some && u.password is Some {
                    r matches CreateUserStep::Reject { status } && status == 401
                } else {
                    r matches CreateUserStep::UpdateCredentials { username, hashed_password }
                        && username@ == create_user_data.username@ && hashed_password@
                        == password_digest_chars(create_user_data.password@)
                }
            },
        },
{
    if access_token.is_none() {
        return CreateUserStep::Reject { status: 401 };
    }
    match user_lookup {
        DbLookup::Fault => CreateUserStep::Reject { status: 500 },
        DbLookup::Missing => CreateUserStep::Reject { status: 401 },
        DbLookup::Found(u) => {
            if u.username.is_some() && u.password.is_some() {
                CreateUserStep::Reject { status: 401 }
            } else {
                CreateUserStep::UpdateCredentials {
                    username: create_user_data.username.clone(),
                    hashed_password: hash_password(create_user_data.password.as_str()),
                }
            }
        },
    }
}

} // verus!
