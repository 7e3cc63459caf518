//! The first registration step: an email address comes in, a verification
//! token is minted and mailed, and the store is brought to hold it.

use vstd::prelude::*;
use crate::db::DbLookup;
use crate::model::User;
use crate::util::generate_token;
use crate::util::is_ascii_letter;

verus! {

/// The request body: the address to register.
pub struct RegistrationRequestType {
    /// The address the verification token is mailed to.
    pub email: String,
}

/// What the route decided for the store, after the token was mailed.
pub enum RegisterEmailStep {
    /// Answer with this status and do nothing.
    Reject {
        /// The HTTP status.
        status: u16,
    },
    /// The address is known but unverified: store the fresh token for it.
    UpdateVerification {
        /// The fresh verification token.
        verification_token: String,
    },
    /// The address is new: create its record.
    CreateUser {
        /// The fresh record identifier.
        id: String,
        /// The fresh verification token.
        verification_token: String,
    },
}

/// A fresh five-letter verification token (and record identifier).
pub fn make_verification_token() -> (r: String)
    ensures
        r@.len() == 5,
        forall|i: int| 0 <= i < r@.len() ==> is_ascii_letter(#[trigger] r@[i]),
{
    generate_token(5)
}

/// The body of the verification mail for `token`.
pub fn email_verification_body(token: &String) -> (r: String)
    ensures
        r@ == "Here's the token for verification: "@ + token@,
{
    let mut body = String::from_str("Here's the token for verification: ");
    body.append(token.as_str());
    body
}

/// The route's decision, given the lookup of the address: conflict when the
/// address already registered credentials; internal error when the lookup
/// fails; otherwise store the fresh token, under the existing record or a
/// new one.
pub fn post(
    verification_token: String,
    generated_id: String,
    user_lookup: DbLookup<User>,
) -> (r: RegisterEmailStep)
    ensures
        user_lookup matches DbLookup::Fault ==> (r matches RegisterEmailStep::Reject { status }
            && status == 500),
        user_lookup matches DbLookup::Missing ==> r == (RegisterEmailStep::CreateUser {
            id: generated_id,
            verification_token,
        }),
        user_lookup matches DbLookup::Found(u) ==> {
            if u.username is Some {
                r matches RegisterEmailStep::Reject { status } && status == 409
            } else {
                r == (RegisterEmailStep::UpdateVerification { verification_token })
            }
        },
{
    match user_lookup {
        DbLookup::Fault => RegisterEmailStep::Reject { status: 500 },
        DbLookup::Missing => RegisterEmailStep::CreateUser {
            id: generated_id,
            verification_token,
        },
        DbLookup::Found(u) => {
            if u.username.is_some() {
                RegisterEmailStep::Reject { status: 409 }
            } else {
                RegisterEmailStep::UpdateVerification { verification_token }
            }
        },
    }
}

} // verus!
