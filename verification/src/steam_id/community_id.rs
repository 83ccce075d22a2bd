use vstd::prelude::*;

use crate::steam_id::account_number::{AccountNumber, MAX_ACCOUNT_NUMBER};
use crate::steam_id::bits::{raw_account_number, raw_y};
use crate::steam_id::SteamId;
use crate::text::{chars_of, parse_unsigned, parse_unsigned_range, IntErrorKind, ParseIntError};

verus! {

/// The 32-bit "community" form of a SteamID.
#[derive(Debug, Clone, Copy, PartialEq, Eq, Hash, PartialOrd, Ord, Structural)]
pub struct CommunityId(u32);

/// A string could not be read as a community ID.
#[derive(Debug, Clone, Copy, PartialEq, Eq)]
pub struct ParseCommunityIdError {
    reason: ParseCommunityIdErrorReason,
}

/// Why a string could not be read as a community ID.
#[derive(Debug, Clone, Copy, PartialEq, Eq)]
pub enum ParseCommunityIdErrorReason {
    /// The string is not a 32-bit unsigned integer.
    ParseInt(ParseIntError),
    /// The value is too large for a community ID.
    TooBig,
}

impl View for CommunityId {
    type V = u32;

    closed spec fn view(&self) -> u32 {
        self.0
    }
}

impl View for ParseCommunityIdError {
    type V = ParseCommunityIdErrorReason;

    closed spec fn view(&self) -> ParseCommunityIdErrorReason {
        self.reason
    }
}

/// What reading `s` as a community ID gives: the decimal value, or why there is none.
pub open spec fn community_id_of(s: Seq<char>) -> Result<u32, ParseCommunityIdErrorReason> {
    match parse_unsigned(s, u32::MAX as int) {
        Err(kind) => Err(ParseCommunityIdErrorReason::ParseInt(ParseIntError { kind })),
        Ok(v) => Ok(v as u32),
    }
}

impl CommunityId {
    /// The community ID `value`; every `u32` is one, so this never fails.
    pub fn new(value: u32) -> (r: Option<CommunityId>)
        ensures
            r matches Some(c) && c@ == value,
    {
        Some(CommunityId(value))
    }

    pub fn get(&self) -> (r: u32)
        ensures
            r == self@,
    {
        self.0
    }

    /// The lowest bit of the stored value.
    pub fn y_bit(&self) -> (r: u64)
        ensures
            r == (self@ & 1u32) as u64,
            r < 2,
    {
        let v = self.0;
        assert(v & 1u32 < 2) by (bit_vector);
        (v & 1) as u64
    }

    /// The account number held by the upper 31 bits of the stored value.
    pub fn account_number(&self) -> (r: AccountNumber)
        ensures
            r@ == self@ / 2,
    {
        let half = self.0 / 2;
        match AccountNumber::new(half) {
            Some(a) => a,
            None => {
                assert(false);
                AccountNumber::from_u64(0)
            },
        }
    }

    /// The community ID of a SteamID: twice its account number plus its `Y` bit.
    pub(crate) fn from_steam_id(steam_id: SteamId) -> (r: CommunityId)
        ensures
            r@ == raw_account_number(steam_id@) * 2 + raw_y(steam_id@),
    {
        let a = steam_id.account_number().get();
        let y = steam_id.y_bit();
        CommunityId(a * 2 + (y as u32))
    }

    /// Reads a community ID from `cs[lo..hi]`.
    pub(crate) fn from_chars(cs: &Vec<char>, lo: usize, hi: usize) -> (r: Result<
        CommunityId,
        ParseCommunityIdError,
    >)
        requires
            lo <= hi <= cs@.len(),
        ensures
            match r {
                Ok(c) => community_id_of(cs@.subrange(lo as int, hi as int)) == Ok::<
                    u32,
                    ParseCommunityIdErrorReason,
                >(c@),
                Err(e) => community_id_of(cs@.subrange(lo as int, hi as int)) == Err::<
                    u32,
                    ParseCommunityIdErrorReason,
                >(e@),
            },
    {
        match parse_unsigned_range(cs, lo, hi, u32::MAX as u64) {
            Err(e) => Err(ParseCommunityIdError { reason: ParseCommunityIdErrorReason::ParseInt(e) }),
            Ok(v) => match CommunityId::new(v as u32) {
                Some(c) => Ok(c),
                None => Err(ParseCommunityIdError { reason: ParseCommunityIdErrorReason::TooBig }),
            },
        }
    }

    /// Parses a community ID written in decimal.
    pub fn parse(value: &str) -> (r: Result<CommunityId, ParseCommunityIdError>)
        ensures
            match r {
                Ok(c) => community_id_of(value@) == Ok::<u32, ParseCommunityIdErrorReason>(c@),
                Err(e) => community_id_of(value@) == Err::<u32, ParseCommunityIdErrorReason>(e@),
            },
    {
        let cs = chars_of(value);
        assert(cs@.subrange(0, cs@.len() as int) =~= value@);
        CommunityId::from_chars(&cs, 0, cs.len())
    }
}

impl ParseCommunityIdError {
    /// Why the string could not be read.
    pub fn reason(&self) -> (r: ParseCommunityIdErrorReason)
        ensures
            r == self@,
    {
        self.reason
    }
}

impl std::str::FromStr for CommunityId {
    type Err = ParseCommunityIdError;

    fn from_str(value: &str) -> (r: Result<CommunityId, ParseCommunityIdError>)
        ensures
            match r {
                Ok(c) => community_id_of(value@) == Ok::<u32, ParseCommunityIdErrorReason>(c@),
                Err(e) => community_id_of(value@) == Err::<u32, ParseCommunityIdErrorReason>(e@),
            },
    {
        CommunityId::parse(value)
    }
}

} // verus!
