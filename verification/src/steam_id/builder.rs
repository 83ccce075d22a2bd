//! A type-state builder for [`SteamId`]s: `build` is only available once the `Y` bit and the
//! account number have been given.

use vstd::prelude::*;

use crate::steam_id::account_number::AccountNumber;
use crate::steam_id::account_type::AccountType;
use crate::steam_id::bits::{lemma_pack_fields, lemma_unpack, pack, raw_account_number, raw_y};
use crate::steam_id::community_id::CommunityId;
use crate::steam_id::instance::Instance;
use crate::steam_id::universe::Universe;
use crate::steam_id::{valid_raw, SteamId};

verus! {

/// Collects the parts of a [`SteamId`].
#[derive(Debug)]
pub struct Builder<Y, N, I, T, U> {
    y: Y,
    account_number: N,
    instance: I,
    account_type: T,
    universe: U,
}

impl<Y, N, I, T, U> Builder<Y, N, I, T, U> {
    pub closed spec fn y_value(self) -> Y {
        self.y
    }

    pub closed spec fn account_number_value(self) -> N {
        self.account_number
    }

    pub closed spec fn instance_value(self) -> I {
        self.instance
    }

    pub closed spec fn account_type_value(self) -> T {
        self.account_type
    }

    pub closed spec fn universe_value(self) -> U {
        self.universe
    }
}

impl Builder<(), (), Instance, AccountType, Universe> {
    /// A builder for an individual account in the public universe with the default instance.
    pub fn new() -> (r: Builder<(), (), Instance, AccountType, Universe>)
        ensures
            r.instance_value()@ == 1,
            r.account_type_value() == AccountType::Individual,
            r.universe_value() == Universe::Public,
    {
        Builder {
            y: (),
            account_number: (),
            instance: Instance::default(),
            account_type: AccountType::Individual,
            universe: Universe::Public,
        }
    }
}

impl<Y: Copy, N: Copy, I: Copy, T: Copy, U: Copy> Builder<Y, N, I, T, U> {
    pub fn y(self, y_bit_set: bool) -> (r: Builder<bool, N, I, T, U>)
        ensures
            r.y_value() == y_bit_set,
            r.account_number_value() == self.account_number_value(),
            r.instance_value() == self.instance_value(),
            r.account_type_value() == self.account_type_value(),
            r.universe_value() == self.universe_value(),
    {
        Builder {
            y: y_bit_set,
            account_number: self.account_number,
            instance: self.instance,
            account_type: self.account_type,
            universe: self.universe,
        }
    }

    pub fn account_number(self, account_number: AccountNumber) -> (r: Builder<
        Y,
        AccountNumber,
        I,
        T,
        U,
    >)
        ensures
            r.y_value() == self.y_value(),
            r.account_number_value() == account_number,
            r.instance_value() == self.instance_value(),
            r.account_type_value() == self.account_type_value(),
            r.universe_value() == self.universe_value(),
    {
        Builder {
            y: self.y,
            account_number,
            instance: self.instance,
            account_type: self.account_type,
            universe: self.universe,
        }
    }

    pub fn instance(self, instance: Instance) -> (r: Builder<Y, N, Instance, T, U>)
        ensures
            r.y_value() == self.y_value(),
            r.account_number_value() == self.account_number_value(),
            r.instance_value() == instance,
            r.account_type_value() == self.account_type_value(),
            r.universe_value() == self.universe_value(),
    {
        Builder {
            y: self.y,
            account_number: self.account_number,
            instance,
            account_type: self.account_type,
            universe: self.universe,
        }
    }

    pub fn account_type(self, account_type: AccountType) -> (r: Builder<Y, N, I, AccountType, U>)
        ensures
            r.y_value() == self.y_value(),
            r.account_number_value() == self.account_number_value(),
            r.instance_value() == self.instance_value(),
            r.account_type_value() == account_type,
            r.universe_value() == self.universe_value(),
    {
        Builder {
            y: self.y,
            account_number: self.account_number,
            instance: self.instance,
            account_type,
            universe: self.universe,
        }
    }

    pub fn universe(self, universe: Universe) -> (r: Builder<Y, N, I, T, Universe>)
        ensures
            r.y_value() == self.y_value(),
            r.account_number_value() == self.account_number_value(),
            r.instance_value() == self.instance_value(),
            r.account_type_value() == self.account_type_value(),
            r.universe_value() == universe,
    {
        Builder {
            y: self.y,
            account_number: self.account_number,
            instance: self.instance,
            account_type: self.account_type,
            universe,
        }
    }
}

/// The 64-bit value that a complete builder produces.
pub open spec fn built_value(b: Builder<bool, AccountNumber, Instance, AccountType, Universe>) -> u64 {
    pack(
        b.universe_value().code(),
        b.account_type_value().code(),
        b.instance_value()@ as u64,
        b.account_number_value()@ as u64,
        if b.y_value() { 1 } else { 0 },
    )
}

impl Builder<bool, AccountNumber, Instance, AccountType, Universe> {
    /// A builder holding every part of `steam_id`.
    pub fn from_steam_id(steam_id: SteamId) -> (r: Builder<
        bool,
        AccountNumber,
        Instance,
        AccountType,
        Universe,
    >)
        ensures
            built_value(r) == steam_id@,
    {
        let r = Builder {
            y: steam_id.y_bit() == 1,
            account_number: steam_id.account_number(),
            instance: steam_id.instance(),
            account_type: steam_id.account_type(),
            universe: steam_id.universe(),
        };
        proof {
            lemma_unpack(steam_id@);
        }
        r
    }

    /// A builder for an individual account in the public universe holding the `Y` bit and the
    /// account number of `community_id`.
    pub fn from_community_id(community_id: CommunityId) -> (r: Builder<
        bool,
        AccountNumber,
        Instance,
        AccountType,
        Universe,
    >)
        ensures
            r.y_value() == ((community_id@ & 1u32) == 1u32),
            r.account_number_value()@ == community_id@ / 2,
            r.instance_value()@ == 1,
            r.account_type_value() == AccountType::Individual,
            r.universe_value() == Universe::Public,
    {
        Builder::new().y(community_id.y_bit() == 1).account_number(community_id.account_number())
    }

    /// The SteamID made of the collected parts.
    pub fn build(self) -> (r: SteamId)
        ensures
            r@ == built_value(self),
    {
        let u = self.universe.as_u8() as u64;
        let t = self.account_type.as_u8() as u64;
        let i = self.instance.get() as u64;
        let a = self.account_number.get() as u64;
        let y: u64 = if self.y { 1 } else { 0 };
        let raw = (u << 56) | (t << 52) | (i << 32) | (a << 1) | y;
        proof {
            lemma_pack_fields(u, t, i, a, y);
        }
        SteamId::from_raw(raw)
    }
}

} // verus!
