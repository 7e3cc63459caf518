//! The verification step: the emailed token comes back; when it is known,
//! a fresh access token is issued and the verification token cleared.

use vstd::prelude::*;
use crate::db::DbLookup;
use crate::model::access_token_expire_date;
use crate::model::Timestamp;
use crate::model::User;
use crate::util::generate_token;
use crate::util::is_ascii_letter;

verus! {

/// The request body: the token the verification mail carried.
pub struct RegistrationRequestType {
    /// The emailed verification token.
    pub verification_token: String,
}

/// What the route decided.
pub enum VerifyEmailStep {
    /// Answer with this status and do nothing.
    Reject {
        /// The HTTP status.
        status: u16,
    },
    /// Store the fresh access token for the record the verification token
    /// matched, clearing the verification token.
    IssueToken {
        /// The fresh bearer token.
        access_token: String,
        /// When the token lapses: midnight of the validity period's last
        /// day.
        access_token_expire: Timestamp,
    },
}

/// The route's decision, given the lookup of the verification token:
/// unauthorized when no record holds it; internal error when the lookup
/// fails or the clock leaves the expiry unrepresentable; otherwise a fresh
/// twenty-letter token and its expiry.
pub fn post(token_lookup: DbLookup<User>) -> (r: VerifyEmailStep)
    ensures
        token_lookup matches DbLookup::Fault ==> (r matches VerifyEmailStep::Reject { status }
            && status == 500),
        token_lookup matches DbLookup::Missing ==> (r matches VerifyEmailStep::Reject { status }
            && status == 401),
        token_lookup matches DbLookup::Found(u) ==> match r {
            VerifyEmailStep::Reject { status } => status == 500,
            VerifyEmailStep::IssueToken { access_token, access_token_expire } => {
                &&& access_token@.len() == 20
                &&& forall|i: int|
                    0 <= i < access_token@.len() ==> is_ascii_letter(#[trigger] access_token@[i])
                &&& access_token_expire.wf()
                &&& access_token_expire.hour == 0
                &&& access_token_expire.minute == 0
                &&& access_token_expire.second == 0
            },
        },
{
    match token_lookup {
        DbLookup::Fault => {
            return VerifyEmailStep::Reject { status: 500 };
        },
        DbLookup::Missing => {
            return VerifyEmailStep::Reject { status: 401 };
        },
        DbLookup::Found(_) => {},
    }
    let expire = match access_token_expire_date() {
        Some(ts) => ts,
        None => {
            return VerifyEmailStep::Reject { status: 500 };
        },
    };
    VerifyEmailStep::IssueToken {
        access_token: generate_token(20),
        access_token_expire: expire,
    }
}

} // verus!
