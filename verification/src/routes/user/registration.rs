//! The one-step registration route: a verification token plus credentials
//! come in; when the token is known, the credentials and a fresh access
//! token are stored, with its expiry.

use vstd::prelude::*;
use crate::db::DbLookup;
use crate::model::access_token_expire_date;
use crate::model::Timestamp;
use crate::model::User;
use crate::util::generate_token;
use crate::util::hash_password;
use crate::util::is_ascii_letter;
use crate::util::password_digest_chars;

verus! {

/// The request body: the emailed token and the credentials to register.
pub struct RegistrationRequestType {
    /// The token the verification mail carried.
    pub verification_token: String,
    /// The username to register.
    pub username: String,
    /// The password to register.
    pub password: String,
}

/// What the route decided.
pub enum RegistrationStep {
    /// Answer with this status and do nothing.
    Reject {
        /// The HTTP status.
        status: u16,
    },
    /// Store the credentials and the fresh access token for the record the
    /// verification token matched, clearing the verification token.
    CompleteRegistration {
        /// The username to store.
        username: String,
        /// The digest to store in place of the password.
        hashed_password: String,
        /// The fresh bearer token.
        access_token: String,
        /// When the token lapses: midnight of the validity period's last
        /// day.
        access_token_expire: Timestamp,
    },
}

/// The route's decision, given the lookup of the verification token:
/// unauthorized when no record holds the token; internal error when the
/// lookup fails or the clock leaves the expiry unrepresentable; otherwise
/// the exact credentials, a fresh twenty-letter token and its expiry.
pub fn post(registration_data: &RegistrationRequestType, token_lookup: DbLookup<User>) -> (r:
    RegistrationStep)
    ensures
        token_lookup matches DbLookup::Fault ==> (r matches RegistrationStep::Reject { status }
            && status == 500),
        token_lookup matches DbLookup::Missing ==> (r matches RegistrationStep::Reject { status }
            && status == 401),
        token_lookup matches DbLookup::Found(u) ==> match r {
            RegistrationStep::Reject { status } => status == 500,
            RegistrationStep::CompleteRegistration {
                username,
                hashed_password,
                access_token,
                access_token_expire,
            } => {
                &&& username@ == registration_data.username@
                &&& hashed_password@ == password_digest_chars(registration_data.password@)
                &&& access_token@.len() == 20
                &&& forall|i: int|
                    0 <= i < access_token@.len() ==> is_ascii_letter(#[trigger] access_token@[i])
                &&& access_token_expire.wf()
                &&& access_token_expire.hour == 0
                &&& access_token_expire.minute == 0
                &&& access_token_expire.second == 0
            },
        },
{
    match token_lookup {
        DbLookup::Fault => {
            return RegistrationStep::Reject { status: 500 };
        },
        DbLookup::Missing => {
            return RegistrationStep::Reject { status: 401 };
        },
        DbLookup::Found(_) => {},
    }
    let expire = match access_token_expire_date() {
        Some(ts) => ts,
        None => {
            return RegistrationStep::Reject { status: 500 };
        },
    };
    RegistrationStep::CompleteRegistration {
        username: registration_data.username.clone(),
        hashed_password: hash_password(registration_data.password.as_str()),
        access_token: generate_token(20),
        access_token_expire: expire,
    }
}

} // verus!
