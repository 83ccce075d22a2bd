//! Users of the API, who are identified by their SteamID.

use vstd::prelude::*;

use crate::permissions::Permissions;
use crate::steam_id::{from_u64_result, steam_id_of_u64, InvalidSteamId, SteamId};

verus! {

/// The ID of a user: the user's SteamID.
#[derive(Debug, Clone, Copy, PartialEq, Eq, Structural)]
pub struct UserId(SteamId);

impl View for UserId {
    type V = u64;

    closed spec fn view(&self) -> u64 {
        self.0@
    }
}

/// A user's ID and name.
#[derive(Debug, Clone)]
pub struct UserInfo {
    pub id: UserId,
    pub name: String,
}

/// What a query for users asks for: users holding all of these permissions.
#[derive(Debug, Clone, Copy)]
pub struct GetUsersParams {
    pub permissions: Permissions,
}

/// A user about to be registered.
#[derive(Debug, Clone, Copy)]
pub struct NewUser<'a> {
    pub id: UserId,
    pub name: &'a str,
}

/// The user ID of the SteamID that `from_u64` gives for `value`, or its error.
pub closed spec fn user_id_of_u64(value: u64) -> Result<UserId, InvalidSteamId> {
    match steam_id_of_u64(value) {
        Ok(s) => Ok(UserId(s)),
        Err(e) => Err(e),
    }
}

impl UserId {
    /// The user ID of `steam_id`.
    pub fn new(steam_id: SteamId) -> (r: UserId)
        ensures
            r@ == steam_id@,
    {
        UserId(steam_id)
    }

    /// The SteamID of this user.
    pub fn steam_id(&self) -> (r: SteamId)
        ensures
            r@ == self@,
    {
        self.0
    }

    /// The user ID of the SteamID with the 64-bit value `value`.
    pub fn try_from_u64(value: u64) -> (r: Result<UserId, InvalidSteamId>)
        ensures
            r == user_id_of_u64(value),
            match r {
                Ok(u) => from_u64_result(value) == Ok::<u64, InvalidSteamId>(u@),
                Err(e) => from_u64_result(value) == Err::<u64, InvalidSteamId>(e),
            },
    {
        proof {
            crate::steam_id::lemma_steam_id_of_u64(value);
        }
        match SteamId::try_from(value) {
            Ok(s) => Ok(UserId(s)),
            Err(e) => Err(e),
        }
    }
}

impl std::convert::TryFrom<u64> for UserId {
    type Error = InvalidSteamId;

    fn try_from(value: u64) -> Result<UserId, InvalidSteamId> {
        UserId::try_from_u64(value)
    }
}

impl vstd::std_specs::convert::TryFromSpecImpl<u64> for UserId {
    open spec fn obeys_try_from_spec() -> bool {
        true
    }

    open spec fn try_from_spec(value: u64) -> Result<UserId, InvalidSteamId> {
        user_id_of_u64(value)
    }
}

} // verus!
