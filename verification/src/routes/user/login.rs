//! The login route: credentials in, a fresh access token out.

use vstd::prelude::*;
use crate::db::DbLookup;
use crate::model::User;
use crate::util::generate_token;
use crate::util::hash_password;
use crate::util::is_ascii_letter;
use crate::util::password_digest_chars;

verus! {

/// A login request's credentials.
pub struct LoginRequest {
    /// The claimed username.
    pub username: String,
    /// The claimed password.
    pub password: String,
}

/// What the route decided.
pub enum LoginStep {
    /// Answer with this status and do nothing.
    Reject {
        /// The HTTP status.
        status: u16,
    },
    /// Store this fresh token for the user and set it as a cookie.
    IssueToken {
        /// Whose token to update.
        user_id: String,
        /// The fresh bearer token.
        access_token: String,
    },
}

/// The route's decision, given the credentials and the user the store
/// resolved the username to: not-found for an unknown username or an
/// account without a password; unauthorized when the password's digest
/// differs from the stored one; internal error when the lookup fails;
/// otherwise a fresh twenty-letter token for exactly that user.
pub fn post(credentials: &LoginRequest, user_lookup: DbLookup<User>) -> (r: LoginStep)
    ensures
        user_lookup matches DbLookup::Fault ==> (r matches LoginStep::Reject { status } && status
            == 500),
        user_lookup matches DbLookup::Missing ==> (r matches LoginStep::Reject { status } && status
            == 404),
        user_lookup matches DbLookup::Found(u) ==> match u.password {
            None => r matches LoginStep::Reject { status } && status == 404,
            Some(stored) => {
                if stored@ == password_digest_chars(credentials.password@) {
                    r matches LoginStep::IssueToken { user_id, access_token } && user_id@ == u.id@
                        && access_token@.len() == 20 && (forall|i: int|
                        0 <= i < access_token@.len() ==> is_ascii_letter(
                            #[trigger] access_token@[i],
                        ))
                } else {
                    r matches LoginStep::Reject { status } && status == 401
                }
            },
        },
{
    let u = match user_lookup {
        DbLookup::Fault => {
            return LoginStep::Reject { status: 500 };
        },
        DbLookup::Missing => {
            return LoginStep::Reject { status: 404 };
        },
        DbLookup::Found(u) => u,
    };
    let stored = match u.password {
        None => {
            return LoginStep::Reject { status: 404 };
        },
        Some(stored) => stored,
    };
    let hashed = hash_password(credentials.password.as_str());
    if hashed != stored {
        return LoginStep::Reject { status: 401 };
    }
    LoginStep::IssueToken { user_id: u.id, access_token: generate_token(20) }
}

} // verus!
