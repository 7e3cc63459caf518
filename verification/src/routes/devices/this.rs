//! The device-listing route: the devices of every room the requesting user
//! observes. The route authorizes the request, then collects the device
//! record of each of the user's room connections, one store lookup each.

use vstd::prelude::*;
use crate::db::DbLookup;
use crate::model::Device;
use crate::model::User;

verus! {

/// The body a successful device listing answers with.
pub struct GetReturnType {
    /// The devices of the user's rooms.
    pub devices: Vec<Device>,
}

/// The authorization decision of the device-listing route: who asks, and
/// may they? Unauthorized without a token or with an unknown one; internal
/// error when the lookup itself fails.
pub fn get(access_token: Option<&String>, user_lookup: DbLookup<User>) -> (r: Result<User, u16>)
    ensures
        access_token is None ==> (r matches Err(status) && status == 401),
        access_token is Some ==> match user_lookup {
            DbLookup::Fault => r matches Err(status) && status == 500,
            DbLookup::Missing => r matches Err(status) && status == 401,
            DbLookup::Found(u) => r == Ok::<User, u16>(u),
        },
{
    if access_token.is_none() {
        return Err(401);
    }
    match user_lookup {
        DbLookup::Fault => Err(500),
        DbLookup::Missing => Err(401),
        DbLookup::Found(u) => Ok(u),
    }
}

/// Folds one room connection's device lookup into the listing: the found
/// device is appended; a store fault answers internal error; a room whose
/// device row vanished mid-walk answers service-unavailable.
pub fn collect_device(devices: &mut Vec<Device>, device_lookup: DbLookup<Device>) -> (r: Option<
    u16,
>)
    ensures
        match device_lookup {
            DbLookup::Found(d) => r is None && final(devices)@ == old(devices)@.push(d),
            DbLookup::Fault => r == Some(500u16) && final(devices)@ == old(devices)@,
            DbLookup::Missing => r == Some(503u16) && final(devices)@ == old(devices)@,
        },
{
    match device_lookup {
        DbLookup::Found(d) => {
            devices.push(d);
            None
        },
        DbLookup::Fault => Some(500),
        DbLookup::Missing => Some(503),
    }
}

} // verus!
