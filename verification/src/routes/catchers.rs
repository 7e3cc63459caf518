//! The error catchers: the fixed bodies unmatched, unauthorized and
//! rate-limited requests are answered with.

use vstd::prelude::*;

verus! {

/// The message body every catcher answers with.
pub struct DefaultReturnType {
    /// The short human-readable message.
    pub message: String,
}

/// The not-found body.
pub fn not_found() -> (r: DefaultReturnType)
    ensures
        r.message@ == "Not found"@,
{
    DefaultReturnType { message: String::from_str("Not found") }
}

/// The unauthorized body.
pub fn unauthorized() -> (r: DefaultReturnType)
    ensures
        r.message@ == "You're not authorized!"@,
{
    DefaultReturnType { message: String::from_str("You're not authorized!") }
}

/// The rate-limited body.
pub fn too_many_requests() -> (r: DefaultReturnType)
    ensures
        r.message@ == "You're limited!"@,
{
    DefaultReturnType { message: String::from_str("You're limited!") }
}

} // verus!
