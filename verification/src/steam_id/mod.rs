//! Valve's SteamID: a 64-bit value packing a universe, an account type, an instance, an
//! account number and a `Y` bit.

pub mod bits;
pub mod universe;
pub mod account_type;
pub mod instance;
pub mod account_number;
pub mod community_id;
pub mod builder;
pub mod laws;
pub mod formats;

use vstd::prelude::*;

use self::account_number::{account_number_of, AccountNumber, ParseAccountNumberError, ParseAccountNumberErrorReason};
use self::account_type::{account_type_of_code, account_type_of_name, AccountType, ParseAccountTypeError};
use self::bits::{
    lemma_pack_fields, lemma_unpack, pack, raw_account_number, raw_account_type, raw_instance,
    raw_universe, raw_y,
};
use self::builder::Builder;
use self::community_id::{community_id_of, CommunityId, ParseCommunityIdError, ParseCommunityIdErrorReason};
use self::instance::Instance;
use self::universe::{universe_of_code, universe_of_name, ParseUniverseError, Universe};
use crate::text::{
    chars_of, decimal_string, parse_unsigned, parse_unsigned_range, push_char, push_decimal,
    push_str, range_eq, splitn3, splitn3_range, spans_in, spans_seqs, starts_with, strip_prefix_len, Spans,
};

verus! {

/// A SteamID.
#[derive(Debug, Clone, Copy, PartialEq, Eq, PartialOrd, Ord, Hash, Structural)]
pub struct SteamId(u64);

/// A 64-bit value is a SteamID when its account type and universe bits name an account type
/// and a universe.
pub open spec fn valid_raw(v: u64) -> bool {
    raw_account_type(v) <= 10 && raw_universe(v) <= 5
}

/// A 64-bit value that is not a valid SteamID.
#[derive(Debug, Clone, Copy, PartialEq, Eq, Structural)]
pub enum InvalidSteamId {
    /// Bits 52..=55 name no account type.
    InvalidAccountType,
    /// The top byte names no universe.
    InvalidUniverse,
}

/// A string is not a SteamID in the `STEAM_X:Y:Z` format.
#[derive(Debug)]
pub struct ParseStandardError<'a> {
    reason: ParseStandardErrorReason<'a>,
}

/// Why a string is not a SteamID in the `STEAM_X:Y:Z` format.
#[derive(Debug)]
pub enum ParseStandardErrorReason<'a> {
    MissingPrefix,
    MissingUniverse,
    InvalidUniverse(ParseUniverseError),
    MissingY,
    InvalidY { actual: &'a str },
    MissingAccountNumber,
    InvalidAccountNumber(ParseAccountNumberError),
}

/// A string is not a SteamID in the community format `[U:1:XXXXXXXXXX]`.
#[derive(Debug)]
pub struct ParseCommunityError<'a> {
    reason: ParseCommunityErrorReason<'a>,
}

/// Why a string is not a SteamID in the community format.
#[derive(Debug)]
pub enum ParseCommunityErrorReason<'a> {
    InconsistentBrackets,
    MissingAccountType,
    InvalidAccountType(ParseAccountTypeError),
    MissingOne,
    SecondSegmentNotOne { actual: &'a str },
    MissingId,
    InvalidId(ParseCommunityIdError),
    InvalidAccountNumber,
}

/// A string is not a SteamID in any known format.
#[derive(Debug, Clone, Copy, PartialEq, Eq)]
pub struct ParseSteamIdError {
    raw_error: Option<InvalidSteamId>,
}

/// What failed when reading the `STEAM_X:Y:Z` format; the model of [`ParseStandardErrorReason`].
pub enum StandardFailure {
    MissingPrefix,
    MissingUniverse,
    InvalidUniverse,
    MissingY,
    InvalidY(Seq<char>),
    MissingAccountNumber,
    InvalidAccountNumber(ParseAccountNumberErrorReason),
}

/// What failed when reading the community format; the model of [`ParseCommunityErrorReason`].
pub enum CommunityFailure {
    InconsistentBrackets,
    MissingAccountType,
    InvalidAccountType,
    MissingOne,
    SecondSegmentNotOne(Seq<char>),
    MissingId,
    InvalidId(ParseCommunityIdErrorReason),
    InvalidAccountNumber,
}

impl<'a> View for ParseStandardErrorReason<'a> {
    type V = StandardFailure;

    open spec fn view(&self) -> StandardFailure {
        match self {
            ParseStandardErrorReason::MissingPrefix => StandardFailure::MissingPrefix,
            ParseStandardErrorReason::MissingUniverse => StandardFailure::MissingUniverse,
            ParseStandardErrorReason::InvalidUniverse(_) => StandardFailure::InvalidUniverse,
            ParseStandardErrorReason::MissingY => StandardFailure::MissingY,
            ParseStandardErrorReason::InvalidY { actual } => StandardFailure::InvalidY(actual@),
            ParseStandardErrorReason::MissingAccountNumber => StandardFailure::MissingAccountNumber,
            ParseStandardErrorReason::InvalidAccountNumber(e) => StandardFailure::InvalidAccountNumber(
                e@,
            ),
        }
    }
}

impl<'a> View for ParseStandardError<'a> {
    type V = StandardFailure;

    closed spec fn view(&self) -> StandardFailure {
        self.reason@
    }
}

impl<'a> View for ParseCommunityErrorReason<'a> {
    type V = CommunityFailure;

    open spec fn view(&self) -> CommunityFailure {
        match self {
            ParseCommunityErrorReason::InconsistentBrackets => CommunityFailure::InconsistentBrackets,
            ParseCommunityErrorReason::MissingAccountType => CommunityFailure::MissingAccountType,
            ParseCommunityErrorReason::InvalidAccountType(_) => CommunityFailure::InvalidAccountType,
            ParseCommunityErrorReason::MissingOne => CommunityFailure::MissingOne,
            ParseCommunityErrorReason::SecondSegmentNotOne { actual } =>
                CommunityFailure::SecondSegmentNotOne(actual@),
            ParseCommunityErrorReason::MissingId => CommunityFailure::MissingId,
            ParseCommunityErrorReason::InvalidId(e) => CommunityFailure::InvalidId(e@),
            ParseCommunityErrorReason::InvalidAccountNumber => CommunityFailure::InvalidAccountNumber,
        }
    }
}

impl<'a> View for ParseCommunityError<'a> {
    type V = CommunityFailure;

    closed spec fn view(&self) -> CommunityFailure {
        self.reason@
    }
}

impl View for SteamId {
    type V = u64;

    closed spec fn view(&self) -> u64 {
        self.0
    }
}

impl View for ParseSteamIdError {
    type V = Option<InvalidSteamId>;

    closed spec fn view(&self) -> Option<InvalidSteamId> {
        self.raw_error
    }
}

/// What `SteamId::from_u64` gives for `v`.
pub open spec fn from_u64_result(v: u64) -> Result<u64, InvalidSteamId> {
    if raw_account_type(v) > 10 {
        Err(InvalidSteamId::InvalidAccountType)
    } else if raw_universe(v) > 5 {
        Err(InvalidSteamId::InvalidUniverse)
    } else {
        Ok(v)
    }
}

/// The `Y` bit that the second segment of the standard format gives.
pub open spec fn standard_y(b: Option<Seq<char>>) -> Result<u64, StandardFailure> {
    match b {
        None => Err(StandardFailure::MissingY),
        Some(x) => if x == "0"@ {
            Ok(0)
        } else if x == "1"@ {
            Ok(1)
        } else if x.len() == 0 {
            Err(StandardFailure::MissingY)
        } else {
            Err(StandardFailure::InvalidY(x))
        },
    }
}

/// What reading `s` in the `STEAM_X:Y:Z` format gives: the 64-bit SteamID (an individual
/// account with the default instance), or what failed.
pub open spec fn standard_model(s: Seq<char>) -> Result<u64, StandardFailure> {
    if !starts_with(s, "STEAM_"@) {
        Err(StandardFailure::MissingPrefix)
    } else {
        let body = s.subrange("STEAM_"@.len() as int, s.len() as int);
        let (x, y, z) = splitn3(body, ':');
        match universe_of_name(x) {
            None => Err(StandardFailure::InvalidUniverse),
            Some(u) => match standard_y(y) {
                Err(f) => Err(f),
                Ok(yb) => match z {
                    None => Err(StandardFailure::MissingAccountNumber),
                    Some(z) => match account_number_of(z) {
                        Err(e) => Err(StandardFailure::InvalidAccountNumber(e)),
                        Ok(n) => Ok(pack(u.code(), 1, 1, n as u64, yb)),
                    },
                },
            },
        }
    }
}

/// The part of a community-format string inside its optional brackets.
pub open spec fn community_inner(s: Seq<char>) -> Option<Seq<char>> {
    let open = s.len() > 0 && s[0] == '[';
    let close = s.len() > 0 && s.last() == ']';
    if open && close {
        Some(s.subrange(1, s.len() - 1))
    } else if !open && !close {
        Some(s)
    } else {
        None
    }
}

/// What the pieces `(T, one, N)` of a community-format string give: the 64-bit SteamID in
/// the public universe with the default instance, the account type `T`, and the `Y` bit and
/// account number of the community ID read from `N`, or what failed.
pub open spec fn community_parts_model(
    parts: (Seq<char>, Option<Seq<char>>, Option<Seq<char>>),
) -> Result<u64, CommunityFailure> {
    match account_type_of_name(parts.0) {
        None => Err(CommunityFailure::InvalidAccountType),
        Some(t) => if parts.1 is None || parts.1 == Some(Seq::<char>::empty()) {
            Err(CommunityFailure::MissingOne)
        } else if parts.1 != Some("1"@) {
            Err(CommunityFailure::SecondSegmentNotOne(parts.1->0))
        } else {
            match parts.2 {
                None => Err(CommunityFailure::MissingId),
                Some(id) => match community_id_of(id) {
                    Err(e) => Err(CommunityFailure::InvalidId(e)),
                    Ok(c) => Ok(pack(1, t.code(), 1, (c / 2) as u64, (c % 2) as u64)),
                },
            }
        },
    }
}

/// What reading `s` in the community format `[T:1:N]` gives (see [`community_parts_model`]).
pub open spec fn community_model(s: Seq<char>) -> Result<u64, CommunityFailure> {
    match community_inner(s) {
        None => Err(CommunityFailure::InconsistentBrackets),
        Some(inner) => community_parts_model(splitn3(inner, ':')),
    }
}

/// What parsing `s` as a SteamID of any known format gives: a 64-bit integer, else the
/// standard format, else the community format.
pub open spec fn parse_model(s: Seq<char>) -> Result<u64, Option<InvalidSteamId>> {
    match parse_unsigned(s, u64::MAX as int) {
        Ok(v) => match from_u64_result(v as u64) {
            Ok(v) => Ok(v),
            Err(e) => Err(Some(e)),
        },
        Err(_) => match standard_model(s) {
            Ok(v) => Ok(v),
            Err(_) => match community_model(s) {
                Ok(v) => Ok(v),
                Err(_) => Err(None),
            },
        },
    }
}

/// The `STEAM_X:Y:Z` rendering of the SteamID `v`.
pub open spec fn standard_string(v: u64) -> Seq<char> {
    "STEAM_"@ + decimal_string(raw_universe(v) as nat) + seq![':'] + decimal_string(raw_y(v) as nat)
        + seq![':'] + decimal_string(raw_account_number(v) as nat)
}

/// The community rendering `[T:1:N]` of the SteamID `v`, with `T` its account type letter and
/// `N` its community ID.
pub open spec fn community_string(v: u64) -> Seq<char> {
    seq!['['] + seq![account_type_of_code(raw_account_type(v))->0.letter()] + ":1:"@
        + decimal_string((raw_account_number(v) * 2 + raw_y(v)) as nat) + seq![']']
}

impl SteamId {
    #[verifier::type_invariant]
    spec fn valid(self) -> bool {
        valid_raw(self.0)
    }

    /// Wraps a value known to be a valid SteamID.
    pub(crate) fn from_raw(v: u64) -> (r: SteamId)
        requires
            valid_raw(v),
        ensures
            r@ == v,
    {
        SteamId(v)
    }

    pub fn as_u64(&self) -> (r: u64)
        ensures
            r == self@,
            valid_raw(r),
    {
        proof {
            use_type_invariant(self);
        }
        self.0
    }

    /// The universe (`X`).
    pub fn universe(&self) -> (r: Universe)
        ensures
            r.code() == raw_universe(self@),
    {
        proof {
            use_type_invariant(self);
        }
        Universe::from_u64(self.0).unwrap()
    }

    pub fn y_bit(&self) -> (r: u64)
        ensures
            r == raw_y(self@),
            r < 2,
    {
        proof {
            lemma_unpack(self.0);
        }
        self.0 & 1
    }

    /// The account number (`Z`).
    pub fn account_number(&self) -> (r: AccountNumber)
        ensures
            r@ == raw_account_number(self@),
    {
        AccountNumber::from_u64(self.0)
    }

    pub fn instance(&self) -> (r: Instance)
        ensures
            r@ == raw_instance(self@),
    {
        Instance::from_u64(self.0)
    }

    pub fn account_type(&self) -> (r: AccountType)
        ensures
            r.code() == raw_account_type(self@),
    {
        proof {
            use_type_invariant(self);
        }
        AccountType::from_u64(self.0).unwrap()
    }

    pub fn as_community_id(self) -> (r: CommunityId)
        ensures
            r@ == raw_account_number(self@) * 2 + raw_y(self@),
    {
        CommunityId::from_steam_id(self)
    }

    /// Accepts `value` if its account type and universe bits are valid.
    pub fn from_u64(value: u64) -> (r: Result<SteamId, InvalidSteamId>)
        ensures
            match r {
                Ok(s) => from_u64_result(value) == Ok::<u64, InvalidSteamId>(s@),
                Err(e) => from_u64_result(value) == Err::<u64, InvalidSteamId>(e),
            },
    {
        let y = value & 1 == 1;
        let account_number = AccountNumber::from_u64(value);
        let instance = Instance::from_u64(value);
        let account_type = match AccountType::from_u64(value) {
            Some(t) => t,
            None => {
                return Err(InvalidSteamId::InvalidAccountType);
            },
        };
        let universe = match Universe::from_u64(value) {
            Some(u) => u,
            None => {
                return Err(InvalidSteamId::InvalidUniverse);
            },
        };
        proof {
            lemma_unpack(value);
            assert(value & 1u64 < 2) by (bit_vector);
        }
        Ok(
            Builder::new().y(y).account_number(account_number).instance(instance).account_type(
                account_type,
            ).universe(universe).build(),
        )
    }

    /// The SteamID of an individual account in the public universe with the `Y` bit and the
    /// account number of `community_id`.
    pub fn from_community_id(community_id: CommunityId) -> (r: SteamId)
        ensures
            r@ == pack(1, 1, 1, (community_id@ / 2) as u64, (community_id@ % 2) as u64),
    {
        let ghost c = community_id@;
        assert((c & 1u32) == (c % 2)) by (bit_vector);
        SteamId::builder().y(community_id.y_bit() == 1).account_number(
            community_id.account_number(),
        ).build()
    }

    /// Parses the standard `STEAM_X:Y:Z` format.
    pub fn parse_standard<'a>(value: &'a str) -> (r: Result<SteamId, ParseStandardError<'a>>)
        ensures
            match r {
                Ok(s) => standard_model(value@) == Ok::<u64, StandardFailure>(s@),
                Err(e) => standard_model(value@) == Err::<u64, StandardFailure>(e@),
            },
    {
        let cs = chars_of(value);
        let n = cs.len();
        assert(cs@.subrange(0, n as int) =~= value@);
        let k = match strip_prefix_len(&cs, 0, n, "STEAM_") {
            Some(k) => k,
            None => {
                return Err(ParseStandardError { reason: ParseStandardErrorReason::MissingPrefix });
            },
        };
        let sp = splitn3_range(&cs, k, n, ':');
        let universe = match Universe::from_chars(&cs, sp.first.0, sp.first.1) {
            Some(u) => u,
            None => {
                return Err(
                    ParseStandardError {
                        reason: ParseStandardErrorReason::InvalidUniverse(ParseUniverseError::new()),
                    },
                );
            },
        };
        let y: u64 = match sp.second {
            None => {
                return Err(ParseStandardError { reason: ParseStandardErrorReason::MissingY });
            },
            Some((a, b)) => {
                if range_eq(&cs, a, b, "0") {
                    0
                } else if range_eq(&cs, a, b, "1") {
                    1
                } else if a == b {
                    return Err(ParseStandardError { reason: ParseStandardErrorReason::MissingY });
                } else {
                    let actual = value.substring_char(a, b);
                    return Err(
                        ParseStandardError { reason: ParseStandardErrorReason::InvalidY { actual } },
                    );
                }
            },
        };
        let account_number = match sp.third {
            None => {
                return Err(
                    ParseStandardError { reason: ParseStandardErrorReason::MissingAccountNumber },
                );
            },
            Some((a, b)) => match AccountNumber::from_chars(&cs, a, b) {
                Ok(n) => n,
                Err(e) => {
                    return Err(
                        ParseStandardError {
                            reason: ParseStandardErrorReason::InvalidAccountNumber(e),
                        },
                    );
                },
            },
        };
        let r = SteamId::builder().y(y == 1).account_number(account_number).universe(universe).build();
        Ok(r)
    }

    /// Parses the community format `[T:1:N]`; the brackets are optional, but if one of them is
    /// present the other must be too.
    #[verifier::spinoff_prover]
    #[verifier::rlimit(40)]
    pub fn parse_community<'a>(value: &'a str) -> (r: Result<SteamId, ParseCommunityError<'a>>)
        ensures
            match r {
                Ok(s) => community_model(value@) == Ok::<u64, CommunityFailure>(s@),
                Err(e) => community_model(value@) == Err::<u64, CommunityFailure>(e@),
            },
    {
        let cs = chars_of(value);
        let n = cs.len();
        assert(cs@.subrange(0, n as int) =~= value@);
        let open = n > 0 && cs[0] == '[';
        let close = n > 0 && cs[n - 1] == ']';
        let (lo, hi) = if open && close {
            assert(n >= 2);
            (1, n - 1)
        } else if !open && !close {
            (0, n)
        } else {
            return Err(ParseCommunityError { reason: ParseCommunityErrorReason::InconsistentBrackets });
        };
        assert(community_inner(value@) == Some(cs@.subrange(lo as int, hi as int)));
        let sp = splitn3_range(&cs, lo, hi, ':');
        let ghost parts = spans_seqs(cs@, sp);
        assert(community_model(value@) == community_parts_model(parts));
        let r = SteamId::parse_community_parts(value, &cs, sp);
        r
    }

    /// The community-format reading of the pieces `sp` of `cs`, the characters of `value`.
    #[verifier::spinoff_prover]
    fn parse_community_parts<'a>(value: &'a str, cs: &Vec<char>, sp: Spans) -> (r: Result<
        SteamId,
        ParseCommunityError<'a>,
    >)
        requires
            cs@ == value@,
            spans_in(sp, 0, cs.len()),
        ensures
            match r {
                Ok(s) => community_parts_model(spans_seqs(cs@, sp)) == Ok::<u64, CommunityFailure>(
                    s@,
                ),
                Err(e) => community_parts_model(spans_seqs(cs@, sp)) == Err::<u64, CommunityFailure>(
                    e@,
                ),
            },
    {
        let ghost parts = spans_seqs(cs@, sp);
        proof {
            reveal_strlit("1");
        }
        let account_type = match AccountType::from_chars(cs, sp.first.0, sp.first.1) {
            Some(t) => t,
            None => {
                return Err(
                    ParseCommunityError {
                        reason: ParseCommunityErrorReason::InvalidAccountType(ParseAccountTypeError::new()),
                    },
                );
            },
        };
        match sp.second {
            None => {
                return Err(ParseCommunityError { reason: ParseCommunityErrorReason::MissingOne });
            },
            Some((a, b)) => {
                if a == b {
                    assert(cs@.subrange(a as int, b as int) =~= Seq::<char>::empty());
                    return Err(ParseCommunityError { reason: ParseCommunityErrorReason::MissingOne });
                } else if !range_eq(cs, a, b, "1") {
                    let actual = value.substring_char(a, b);
                    assert(cs@.subrange(a as int, b as int).len() > 0);
                    assert(parts.1 != Some(Seq::<char>::empty()));
                    return Err(
                        ParseCommunityError {
                            reason: ParseCommunityErrorReason::SecondSegmentNotOne { actual },
                        },
                    );
                }
            },
        }
        let community_id = match sp.third {
            None => {
                return Err(ParseCommunityError { reason: ParseCommunityErrorReason::MissingId });
            },
            Some((a, b)) => match CommunityId::from_chars(cs, a, b) {
                Ok(c) => c,
                Err(e) => {
                    return Err(ParseCommunityError { reason: ParseCommunityErrorReason::InvalidId(e) });
                },
            },
        };
        let ghost c = community_id@;
        assert((c & 1u32) == (c % 2)) by (bit_vector);
        let b = Builder::from_community_id(community_id).account_type(account_type);
        let r = b.build();
        assert(r@ == pack(1, account_type.code(), 1, (c / 2) as u64, (c % 2) as u64));
        Ok(r)
    }

    /// Parses a SteamID of any known format: a 64-bit integer, the standard format, or the
    /// community format, tried in that order.
    pub fn parse(value: &str) -> (r: Result<SteamId, ParseSteamIdError>)
        ensures
            match r {
                Ok(s) => parse_model(value@) == Ok::<u64, Option<InvalidSteamId>>(s@),
                Err(e) => parse_model(value@) == Err::<u64, Option<InvalidSteamId>>(e@),
            },
    {
        let cs = chars_of(value);
        let n = cs.len();
        assert(cs@.subrange(0, n as int) =~= value@);
        match parse_unsigned_range(&cs, 0, n, u64::MAX) {
            Ok(raw) => match SteamId::from_u64(raw) {
                Ok(s) => Ok(s),
                Err(e) => Err(ParseSteamIdError { raw_error: Some(e) }),
            },
            Err(_) => match SteamId::parse_standard(value) {
                Ok(s) => Ok(s),
                Err(_) => match SteamId::parse_community(value) {
                    Ok(s) => Ok(s),
                    Err(_) => Err(ParseSteamIdError { raw_error: None }),
                },
            },
        }
    }

    /// The standard rendering `STEAM_X:Y:Z`.
    pub fn display_standard(&self) -> (s: String)
        ensures
            s@ == standard_string(self@),
    {
        let mut s = crate::text::string_of("STEAM_");
        push_decimal(&mut s, self.universe().as_u8() as u64);
        push_char(&mut s, ':');
        push_decimal(&mut s, self.y_bit());
        push_char(&mut s, ':');
        push_decimal(&mut s, self.account_number().get() as u64);
        assert(s@ =~= standard_string(self@));
        s
    }

    /// The community rendering `[T:1:N]`.
    pub fn display_community(&self) -> (s: String)
        ensures
            s@ == community_string(self@),
    {
        proof {
            use_type_invariant(self);
        }
        let mut s = crate::text::string_of("[");
        push_char(&mut s, self.account_type().as_char());
        push_str(&mut s, ":1:");
        push_decimal(&mut s, self.as_community_id().get() as u64);
        push_char(&mut s, ']');
        proof {
            crate::text::lemma_strlit_single_char();
        }
        assert(s@ =~= community_string(self@));
        s
    }

    pub fn builder() -> (r: Builder<(), (), Instance, AccountType, Universe>)
        ensures
            r.instance_value()@ == 1,
            r.account_type_value() == AccountType::Individual,
            r.universe_value() == Universe::Public,
    {
        Builder::new()
    }
}

/// The SteamId that `from_u64` gives for `value`, or its error.
pub closed spec fn steam_id_of_u64(value: u64) -> Result<SteamId, InvalidSteamId> {
    match from_u64_result(value) {
        Ok(v) => Ok(SteamId(v)),
        Err(e) => Err(e),
    }
}

impl std::convert::TryFrom<u64> for SteamId {
    type Error = InvalidSteamId;

    fn try_from(value: u64) -> Result<SteamId, InvalidSteamId> {
        SteamId::from_u64(value)
    }
}

impl vstd::std_specs::convert::TryFromSpecImpl<u64> for SteamId {
    open spec fn obeys_try_from_spec() -> bool {
        true
    }

    open spec fn try_from_spec(value: u64) -> Result<SteamId, InvalidSteamId> {
        steam_id_of_u64(value)
    }
}

/// What `steam_id_of_u64` gives is described by `from_u64_result`.
pub proof fn lemma_steam_id_of_u64(value: u64)
    ensures
        match steam_id_of_u64(value) {
            Ok(s) => from_u64_result(value) == Ok::<u64, InvalidSteamId>(s@),
            Err(e) => from_u64_result(value) == Err::<u64, InvalidSteamId>(e),
        },
{
}

impl std::str::FromStr for SteamId {
    type Err = ParseSteamIdError;

    fn from_str(value: &str) -> (r: Result<SteamId, ParseSteamIdError>)
        ensures
            match r {
                Ok(s) => parse_model(value@) == Ok::<u64, Option<InvalidSteamId>>(s@),
                Err(e) => parse_model(value@) == Err::<u64, Option<InvalidSteamId>>(e@),
            },
    {
        SteamId::parse(value)
    }
}

} // verus!
