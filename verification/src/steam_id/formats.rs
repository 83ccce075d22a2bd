//! The wire formats of SteamIDs and community IDs: the values each format writes, and the
//! decisions taken when a value of unknown format is read back.

use vstd::prelude::*;

use crate::steam_id::bits::{
    lemma_pack_fields, pack, raw_account_number, raw_account_type, raw_instance, raw_universe,
    raw_y,
};
use crate::steam_id::community_id::CommunityId;
use crate::steam_id::{
    community_model, from_u64_result, standard_model, standard_string, CommunityFailure,
    InvalidSteamId, ParseCommunityError, ParseStandardError, StandardFailure, SteamId,
};
use crate::text::{
    chars_of, decimal_string, lemma_parse_decimal_string, parse_unsigned, parse_unsigned_range,
    push_decimal, push_str,
    string_of,
};

verus! {

/// Reads 64-bit SteamIDs.
#[derive(Debug, Default)]
pub struct VisitU64 {
    _priv: (),
}

/// Reads community IDs.
#[derive(Debug, Default)]
pub struct VisitCommunityId {
    _priv: (),
}

/// Reads SteamIDs in the `STEAM_X:Y:Z` format.
#[derive(Debug, Default)]
pub struct VisitStandardFormat {
    _priv: (),
}

/// Reads SteamIDs in any known format.
#[derive(Debug, Default)]
pub struct VisitEverything {
    visit_u64: VisitU64,
    visit_community_id: VisitCommunityId,
    visit_standard: VisitStandardFormat,
}

/// Why a value could not be read as a SteamID or a community ID.
#[derive(Debug)]
pub enum VisitError<'a> {
    /// The 64-bit value is not a valid SteamID.
    Invalid(InvalidSteamId),
    /// The string is not a 64-bit integer.
    InvalidStr(&'a str),
    /// The integer is not a community ID.
    InvalidUnsigned(u64),
    /// The string is not in the community format.
    Community(ParseCommunityError<'a>),
    /// The string is not in the standard format.
    Standard(ParseStandardError<'a>),
}

/// The 64-bit SteamID of an individual account in the public universe with the `Y` bit and
/// the account number of the community ID `c`.
pub open spec fn steam_id_of_community(c: u32) -> u64 {
    pack(1, 1, 1, (c / 2) as u64, (c % 2) as u64)
}

/// The community ID stored for the string `s`: a 32-bit integer, else the community format.
pub open spec fn community_str_model(s: Seq<char>) -> Option<u32> {
    match parse_unsigned(s, u32::MAX as int) {
        Ok(n) => Some(n as u32),
        Err(_) => match community_model(s) {
            Ok(v) => Some((raw_account_number(v) * 2 + raw_y(v)) as u32),
            Err(_) => None,
        },
    }
}

/// What reading the integer `v` as a SteamID of unknown format gives: values that fit in 32
/// bits are community IDs, larger ones 64-bit SteamIDs.
pub open spec fn everything_u64_model(v: u64) -> Result<u64, InvalidSteamId> {
    if v <= u32::MAX {
        Ok(steam_id_of_community(v as u32))
    } else {
        from_u64_result(v)
    }
}

/// What reading the string `s` as a SteamID of unknown format gives: a 64-bit integer, else
/// a community ID, else the standard format.
pub open spec fn everything_str_model(s: Seq<char>) -> Option<u64> {
    match parse_unsigned(s, u64::MAX as int) {
        Ok(n) => match everything_u64_model(n as u64) {
            Ok(v) => Some(v),
            Err(_) => None,
        },
        Err(_) => match community_str_model(s) {
            Some(c) => Some(steam_id_of_community(c)),
            None => match standard_model(s) {
                Ok(v) => Some(v),
                Err(_) => None,
            },
        },
    }
}

impl VisitU64 {
    pub fn new() -> VisitU64 {
        VisitU64 { _priv: () }
    }

    pub fn visit_u64<'a>(&self, value: u64) -> (r: Result<SteamId, VisitError<'a>>)
        ensures
            match r {
                Ok(s) => from_u64_result(value) == Ok::<u64, InvalidSteamId>(s@),
                Err(e) => e matches VisitError::Invalid(x) && from_u64_result(value) == Err::<
                    u64,
                    InvalidSteamId,
                >(x),
            },
    {
        match SteamId::from_u64(value) {
            Ok(s) => Ok(s),
            Err(e) => Err(VisitError::Invalid(e)),
        }
    }

    pub fn visit_str<'a>(&self, value: &'a str) -> (r: Result<SteamId, VisitError<'a>>)
        ensures
            match parse_unsigned(value@, u64::MAX as int) {
                Err(_) => r matches Err(VisitError::InvalidStr(v)) && v == value,
                Ok(n) => match r {
                    Ok(s) => from_u64_result(n as u64) == Ok::<u64, InvalidSteamId>(s@),
                    Err(e) => e matches VisitError::Invalid(x) && from_u64_result(n as u64) == Err::<
                        u64,
                        InvalidSteamId,
                    >(x),
                },
            },
    {
        let cs = chars_of(value);
        assert(cs@.subrange(0, cs@.len() as int) =~= value@);
        match parse_unsigned_range(&cs, 0, cs.len(), u64::MAX) {
            Ok(n) => self.visit_u64(n),
            Err(_) => Err(VisitError::InvalidStr(value)),
        }
    }
}

impl VisitCommunityId {
    pub fn new() -> VisitCommunityId {
        VisitCommunityId { _priv: () }
    }

    pub fn visit_u32<'a>(&self, value: u32) -> (r: Result<CommunityId, VisitError<'a>>)
        ensures
            r matches Ok(c) && c@ == value,
    {
        match CommunityId::new(value) {
            Some(c) => Ok(c),
            None => Err(VisitError::InvalidUnsigned(value as u64)),
        }
    }

    pub fn visit_str<'a>(&self, value: &'a str) -> (r: Result<CommunityId, VisitError<'a>>)
        ensures
            match community_str_model(value@) {
                Some(c) => r matches Ok(x) && x@ == c,
                None => r matches Err(VisitError::Community(e)) && community_model(value@) == Err::<
                    u64,
                    CommunityFailure,
                >(e@),
            },
    {
        let cs = chars_of(value);
        assert(cs@.subrange(0, cs@.len() as int) =~= value@);
        if let Ok(n) = parse_unsigned_range(&cs, 0, cs.len(), u32::MAX as u64) {
            return self.visit_u32(n as u32);
        }
        match SteamId::parse_community(value) {
            Ok(s) => Ok(s.as_community_id()),
            Err(e) => Err(VisitError::Community(e)),
        }
    }
}

impl VisitStandardFormat {
    pub fn new() -> VisitStandardFormat {
        VisitStandardFormat { _priv: () }
    }

    pub fn visit_str<'a>(&self, value: &'a str) -> (r: Result<SteamId, VisitError<'a>>)
        ensures
            match standard_model(value@) {
                Ok(v) => r matches Ok(s) && s@ == v,
                Err(f) => r matches Err(VisitError::Standard(e)) && e@ == f,
            },
    {
        match SteamId::parse_standard(value) {
            Ok(s) => Ok(s),
            Err(e) => Err(VisitError::Standard(e)),
        }
    }
}

impl VisitEverything {
    pub fn new() -> VisitEverything {
        VisitEverything {
            visit_u64: VisitU64::new(),
            visit_community_id: VisitCommunityId::new(),
            visit_standard: VisitStandardFormat::new(),
        }
    }

    pub fn visit_u32<'a>(&self, value: u32) -> (r: Result<SteamId, VisitError<'a>>)
        ensures
            r matches Ok(s) && s@ == steam_id_of_community(value),
    {
        match self.visit_community_id.visit_u32(value) {
            Ok(c) => Ok(SteamId::from_community_id(c)),
            Err(e) => Err(e),
        }
    }

    pub fn visit_u64<'a>(&self, value: u64) -> (r: Result<SteamId, VisitError<'a>>)
        ensures
            match everything_u64_model(value) {
                Ok(v) => r matches Ok(s) && s@ == v,
                Err(x) => r matches Err(VisitError::Invalid(y)) && x == y,
            },
    {
        if value <= u32::MAX as u64 {
            return self.visit_u32(value as u32);
        }
        self.visit_u64.visit_u64(value)
    }

    pub fn visit_str<'a>(&self, value: &'a str) -> (r: Result<SteamId, VisitError<'a>>)
        ensures
            match everything_str_model(value@) {
                Some(v) => r matches Ok(s) && s@ == v,
                None => r is Err,
            },
    {
        let cs = chars_of(value);
        assert(cs@.subrange(0, cs@.len() as int) =~= value@);
        if let Ok(n) = parse_unsigned_range(&cs, 0, cs.len(), u64::MAX) {
            return self.visit_u64(n);
        }
        if let Ok(c) = self.visit_community_id.visit_str(value) {
            return Ok(SteamId::from_community_id(c));
        }
        self.visit_standard.visit_str(value)
    }
}

/// The community rendering of the community ID `c`, with or without brackets.
pub open spec fn individual_community_string(c: u32, brackets: bool) -> Seq<char> {
    if brackets {
        "[U:1:"@ + decimal_string(c as nat) + "]"@
    } else {
        "U:1:"@ + decimal_string(c as nat)
    }
}

impl SteamId {
    /// The value written by the 64-bit integer format.
    pub fn serialize_u64(&self) -> (r: u64)
        ensures
            r == self@,
    {
        self.as_u64()
    }

    /// The string written by the stringified 64-bit integer format.
    pub fn serialize_u64_stringified(&self) -> (r: String)
        ensures
            r@ == decimal_string(self@ as nat),
    {
        crate::text::decimal(self.as_u64())
    }

    /// The string written by the standard format.
    pub fn serialize_standard(&self) -> (r: String)
        ensures
            r@ == standard_string(self@),
    {
        self.display_standard()
    }

    /// The value written by the community ID format.
    pub fn serialize_as_community_id(&self) -> (r: u32)
        ensures
            r == raw_account_number(self@) * 2 + raw_y(self@),
    {
        self.as_community_id().get()
    }

    /// The string written by the bracketed community format.
    pub fn serialize_as_community_id_with_brackets(&self) -> (r: String)
        ensures
            r@ == individual_community_string(
                (raw_account_number(self@) * 2 + raw_y(self@)) as u32,
                true,
            ),
    {
        self.as_community_id().serialize_with_brackets()
    }

    /// The string written by the community format without brackets.
    pub fn serialize_as_community_id_without_brackets(&self) -> (r: String)
        ensures
            r@ == individual_community_string(
                (raw_account_number(self@) * 2 + raw_y(self@)) as u32,
                false,
            ),
    {
        self.as_community_id().serialize_without_brackets()
    }

    /// Reads the 64-bit integer format.
    pub fn deserialize_u64<'a>(value: u64) -> (r: Result<SteamId, VisitError<'a>>)
        ensures
            match r {
                Ok(s) => from_u64_result(value) == Ok::<u64, InvalidSteamId>(s@),
                Err(e) => e matches VisitError::Invalid(x) && from_u64_result(value) == Err::<
                    u64,
                    InvalidSteamId,
                >(x),
            },
    {
        VisitU64::new().visit_u64(value)
    }

    /// Reads the standard format.
    pub fn deserialize_standard<'a>(value: &'a str) -> (r: Result<SteamId, VisitError<'a>>)
        ensures
            match standard_model(value@) {
                Ok(v) => r matches Ok(s) && s@ == v,
                Err(f) => r matches Err(VisitError::Standard(e)) && e@ == f,
            },
    {
        VisitStandardFormat::new().visit_str(value)
    }

    /// Reads the community format (or a 32-bit integer) as the SteamID of that community ID.
    pub fn deserialize_community<'a>(value: &'a str) -> (r: Result<SteamId, VisitError<'a>>)
        ensures
            match community_str_model(value@) {
                Some(c) => r matches Ok(s) && s@ == steam_id_of_community(c),
                None => r matches Err(VisitError::Community(e)) && community_model(value@) == Err::<
                    u64,
                    CommunityFailure,
                >(e@),
            },
    {
        match VisitCommunityId::new().visit_str(value) {
            Ok(c) => Ok(SteamId::from_community_id(c)),
            Err(e) => Err(e),
        }
    }
}

impl CommunityId {
    /// The string `[U:1:N]`, with `N` this community ID.
    pub fn serialize_with_brackets(&self) -> (r: String)
        ensures
            r@ == individual_community_string(self@, true),
    {
        let mut s = string_of("[U:1:");
        push_decimal(&mut s, self.get() as u64);
        push_str(&mut s, "]");
        s
    }

    /// The string `U:1:N`, with `N` this community ID.
    pub fn serialize_without_brackets(&self) -> (r: String)
        ensures
            r@ == individual_community_string(self@, false),
    {
        let mut s = string_of("U:1:");
        push_decimal(&mut s, self.get() as u64);
        s
    }

    /// Reads a community ID from a 32-bit integer.
    pub fn deserialize_u32<'a>(value: u32) -> (r: Result<CommunityId, VisitError<'a>>)
        ensures
            r matches Ok(c) && c@ == value,
    {
        match CommunityId::new(value) {
            Some(c) => Ok(c),
            None => Err(VisitError::InvalidUnsigned(value as u64)),
        }
    }
}

/// A value of unknown format that fits in 32 bits is a community ID, whether it comes as an
/// integer or as decimal text: it is read as the individual SteamID in the public universe with
/// the default instance whose community ID it is, as `visit_u32` reads it.
pub proof fn law_everything_reads_small_values_as_community_ids(c: u32)
    ensures
        everything_u64_model(c as u64) == Ok::<u64, InvalidSteamId>(steam_id_of_community(c)),
        everything_str_model(decimal_string(c as nat)) == Some(steam_id_of_community(c)),
        raw_universe(steam_id_of_community(c)) == 1,
        raw_account_type(steam_id_of_community(c)) == 1,
        raw_instance(steam_id_of_community(c)) == 1,
        raw_account_number(steam_id_of_community(c)) * 2 + raw_y(steam_id_of_community(c)) == c,
{
    lemma_pack_fields(1, 1, 1, (c / 2) as u64, (c % 2) as u64);
    lemma_parse_decimal_string(c as nat, u64::MAX as int);
}

} // verus!
