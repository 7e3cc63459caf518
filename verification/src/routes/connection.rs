//! The placeholder connection route.

use vstd::prelude::*;

verus! {

/// The (still empty) body of a connection answer.
#[derive(Debug)]
pub struct ConnectionResponseBody {}

/// The placeholder connection route: locked.
pub fn get() -> (r: Result<ConnectionResponseBody, u16>)
    ensures
        r matches Err(status) && status == 423,
{
    Err(423)
}

} // verus!
