//! What the persistent store hands the routes: lookup outcomes, and the
//! sample record shape read by name.

use vstd::prelude::*;

verus! {

/// What a store lookup returned to a route.
pub enum DbLookup<T> {
    /// The record the key matched.
    Found(T),
    /// No record matched the key.
    Missing,
    /// The lookup itself failed (store unavailable or query error).
    Fault,
}

/// A user row as the by-username lookup reads it.
#[derive(Clone, Debug)]
pub struct User {
    /// The row's numeric identifier.
    pub id: i32,
    /// The unique username.
    pub username: String,
    /// The account's address.
    pub email: String,
}

} // verus!
