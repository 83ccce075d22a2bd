//! SteamIDs of individual accounts in the public universe, as a 64-bit integer in the range
//! `SteamID::MIN..=SteamID::MAX`, with the `STEAM_X:Y:Z`, Steam3ID and 32-bit forms.

use vstd::prelude::*;

use crate::text::{
    index_of, chars_of, decimal_string, is_digit, lemma_decimal_string, lemma_digits_index_of,
    lemma_parse_decimal_string, lemma_scan_first_non_digit, lemma_split_three, parse_unsigned,
    parse_unsigned_range, push_char, push_decimal, range_eq, split3, split3_range, spans_in,
    spans_seqs, starts_with, string_of, trim_end_char, trim_end_char_range, trim_start_char,
    trim_start_char_range, trim_start_matches, trim_start_matches_range, strip_prefix_len,
    IntErrorKind, ParseIntError, Spans,
};

verus! {

/// The smallest valid SteamID value.
pub const MIN_VALUE: u64 = 76561197960265729u64;

/// The largest valid SteamID value.
pub const MAX_VALUE: u64 = 76561202255233023u64;

/// The 64-bit value whose 32-bit form would be 0; `MIN_VALUE - 1`.
pub const MAGIC_OFFSET: u64 = 76561197960265728u64;

/// A SteamID whose value lies in `MIN_VALUE..=MAX_VALUE`.
#[derive(Debug, Clone, Copy, PartialEq, Eq, PartialOrd, Ord, Hash, Structural)]
pub struct SteamID {
    value: u64,
}

/// Why a string is not a SteamID in the `STEAM_X:Y:Z` format.
#[derive(Debug, Clone, Copy, PartialEq, Eq)]
pub enum ParseSteamIDError {
    /// Every SteamID starts with `STEAM_`.
    MissingPrefix,
    /// The SteamID ended after the `STEAM_` prefix.
    MissingX,
    /// The `X` segment was something other than 0 or 1.
    InvalidX,
    /// The SteamID was missing the `Y` segment.
    MissingY,
    /// The `Y` segment was something other than 0 or 1.
    InvalidY(Option<ParseIntError>),
    /// The SteamID was missing the `Z` segment.
    MissingZ,
    /// The `Z` segment was not a valid `u64`.
    InvalidZ(ParseIntError),
    /// SteamIDs can't have a value of 0.
    IsZero,
    /// SteamID value was otherwise out of bounds.
    OutOfRange,
}

/// Why a string is not a Steam3ID (`U:1:N`, optionally enclosed in `[]`).
#[derive(Debug, Clone, Copy, PartialEq, Eq)]
pub enum ParseSteam3IDError {
    /// Exactly one of the brackets is present.
    InconsistentBrackets,
    /// The first segment is not the account type `U`.
    MissingAccountType,
    /// The second segment is not `1`.
    MissingOne,
    /// There is no third segment.
    MissingID,
    /// The third segment is not a valid `u32`.
    InvalidID(ParseIntError),
    /// The 32-bit value is out of range for a SteamID.
    OutOfRange,
}

/// Converting to a [`SteamID`] failed, because the value was out of range for a valid
/// `SteamID`.
#[derive(Debug, Clone, Copy, PartialEq, Eq)]
pub struct SteamIDOutOfRange;

/// Parsing a [`SteamID`] from a string failed.
#[derive(Debug, Clone, Copy, PartialEq, Eq)]
pub enum InvalidSteamID {
    /// The string is an integer, but the integer is not a SteamID.
    InvalidU64(SteamIDOutOfRange),
    /// The string is in no known format.
    UnrecognizedSteamIDFormat,
}

/// Reading a stringified 64-bit SteamID failed.
#[derive(Debug, Clone, Copy, PartialEq, Eq)]
pub enum ParseStringifiedError {
    /// The string is not a `u64`.
    ParseInt(ParseIntError),
    /// The integer is not a SteamID.
    OutOfRange(SteamIDOutOfRange),
}

impl View for SteamID {
    type V = u64;

    closed spec fn view(&self) -> u64 {
        self.value
    }
}

pub open spec fn in_range(v: int) -> bool {
    MIN_VALUE <= v <= MAX_VALUE
}

/// The `Y` segment of the SteamID `v`.
pub open spec fn y_of(v: u64) -> u64 {
    v & 1u64
}

/// The `Z` segment of the SteamID `v`.
pub open spec fn z_of(v: u64) -> int {
    (v - MAGIC_OFFSET - y_of(v)) / 2
}

/// What `SteamID::from_u64` gives: the value if it is in range.
pub open spec fn from_u64_model(v: int) -> Option<u64> {
    if in_range(v) {
        Some(v as u64)
    } else {
        None
    }
}

/// What `SteamID::try_from(u64)` gives: 32-bit values are read as 32-bit SteamIDs.
pub open spec fn try_from_u64_model(v: u64) -> Option<u64> {
    if v <= u32::MAX {
        from_u64_model(v + MAGIC_OFFSET)
    } else {
        from_u64_model(v as int)
    }
}

/// The 64-bit SteamID that the standard-format segments `Y` and `Z` stand for: its 32-bit
/// form is `2 * Z + Y`.
pub open spec fn combine(y: u64, z: u64) -> u64 {
    (MAGIC_OFFSET + 2 * z + y) as u64
}

/// What reading the `Y` segment gives.
pub open spec fn standard_y_model(t: Option<Seq<char>>) -> Result<u64, ParseSteamIDError> {
    match t {
        None => Err(ParseSteamIDError::MissingY),
        Some(t) => match parse_unsigned(t, u64::MAX as int) {
            Err(kind) => Err(ParseSteamIDError::InvalidY(Some(ParseIntError { kind }))),
            Ok(y) => if y > 1 {
                Err(ParseSteamIDError::InvalidY(None))
            } else {
                Ok(y as u64)
            },
        },
    }
}

/// What reading the segments `X`, `Y` and `Z` of the standard format gives.
pub open spec fn standard_parts_model(
    parts: (Seq<char>, Option<Seq<char>>, Option<Seq<char>>),
) -> Result<u64, ParseSteamIDError> {
    if !(parts.0 == "0"@ || parts.0 == "1"@) {
        Err(ParseSteamIDError::InvalidX)
    } else {
        match standard_y_model(parts.1) {
            Err(e) => Err(e),
            Ok(y) => match parts.2 {
                None => Err(ParseSteamIDError::MissingZ),
                Some(t) => match parse_unsigned(t, u64::MAX as int) {
                    Err(kind) => Err(ParseSteamIDError::InvalidZ(ParseIntError { kind })),
                    Ok(z) => if y == 0 && z == 0 {
                        Err(ParseSteamIDError::IsZero)
                    } else if 2 * z + y > u32::MAX {
                        Err(ParseSteamIDError::OutOfRange)
                    } else {
                        Ok(combine(y, z as u64))
                    },
                },
            },
        }
    }
}

/// What reading `s` in the `STEAM_X:Y:Z` format gives. Every leading `STEAM_` is removed;
/// the segments are the first three items of splitting at `:`.
pub open spec fn standard_model(s: Seq<char>) -> Result<u64, ParseSteamIDError> {
    if !starts_with(s, "STEAM_"@) {
        Err(ParseSteamIDError::MissingPrefix)
    } else {
        standard_parts_model(split3(trim_start_matches(s, "STEAM_"@), ':'))
    }
}

/// The part of a Steam3ID inside its optional brackets: with both brackets present, every
/// leading `[` and trailing `]` is removed.
pub open spec fn id3_inner(s: Seq<char>) -> Option<Seq<char>> {
    let open = s.len() > 0 && s[0] == '[';
    let close = s.len() > 0 && s.last() == ']';
    if open && close {
        Some(trim_end_char(trim_start_char(s, '['), ']'))
    } else if !open && !close {
        Some(s)
    } else {
        None
    }
}

/// What reading the segments of a Steam3ID gives.
pub open spec fn id3_parts_model(parts: (Seq<char>, Option<Seq<char>>, Option<Seq<char>>)) -> Result<
    u64,
    ParseSteam3IDError,
> {
    if parts.0 != "U"@ {
        Err(ParseSteam3IDError::MissingAccountType)
    } else if parts.1 != Some("1"@) {
        Err(ParseSteam3IDError::MissingOne)
    } else {
        match parts.2 {
            None => Err(ParseSteam3IDError::MissingID),
            Some(t) => match parse_unsigned(t, u32::MAX as int) {
                Err(kind) => Err(ParseSteam3IDError::InvalidID(ParseIntError { kind })),
                Ok(id) => match from_u64_model(id + MAGIC_OFFSET) {
                    Some(v) => Ok(v),
                    None => Err(ParseSteam3IDError::OutOfRange),
                },
            },
        }
    }
}

/// What reading `s` as a Steam3ID gives.
pub open spec fn id3_model(s: Seq<char>) -> Result<u64, ParseSteam3IDError> {
    match id3_inner(s) {
        None => Err(ParseSteam3IDError::InconsistentBrackets),
        Some(inner) => id3_parts_model(split3(inner, ':')),
    }
}

/// What parsing `s` as a SteamID of any known format gives: an integer, else the standard
/// format, else a Steam3ID.
pub open spec fn parse_model(s: Seq<char>) -> Result<u64, InvalidSteamID> {
    match parse_unsigned(s, u64::MAX as int) {
        Ok(n) => match try_from_u64_model(n as u64) {
            Some(v) => Ok(v),
            None => Err(InvalidSteamID::InvalidU64(SteamIDOutOfRange)),
        },
        Err(_) => match standard_model(s) {
            Ok(v) => Ok(v),
            Err(_) => match id3_model(s) {
                Ok(v) => Ok(v),
                Err(_) => Err(InvalidSteamID::UnrecognizedSteamIDFormat),
            },
        },
    }
}

/// The `STEAM_X:Y:Z` rendering of the SteamID `v`.
pub open spec fn standard_string(v: u64) -> Seq<char> {
    "STEAM_"@ + decimal_string((v >> 56u64) as nat) + seq![':'] + decimal_string(y_of(v) as nat)
        + seq![':'] + decimal_string(z_of(v) as nat)
}

/// The Steam3ID rendering `U:1:N` of the SteamID `v`.
pub open spec fn id3_string(v: u64) -> Seq<char> {
    "U:1:"@ + decimal_string((v - MAGIC_OFFSET) as nat)
}

/// Facts about the values in range: their top byte is 1, and their low 32 bits and `Y` bit
/// are those of their offset from `MAGIC_OFFSET`.
pub proof fn lemma_in_range(v: u64)
    requires
        in_range(v as int),
    ensures
        v >> 56u64 == 1,
        0 < v - MAGIC_OFFSET <= u32::MAX,
        y_of(v) == (v - MAGIC_OFFSET) % 2,
        y_of(v) < 2,
        z_of(v) * 2 + y_of(v) == v - MAGIC_OFFSET,
        0 <= z_of(v) < 0x8000_0000,
{
    assert(v >> 56u64 == 1) by (bit_vector)
        requires
            76561197960265729u64 <= v <= 76561202255233023u64,
    ;
    assert((v & 1u64) == (v - 76561197960265728u64) % 2) by (bit_vector)
        requires
            76561197960265729u64 <= v <= 76561202255233023u64,
    ;
    assert(v & 1u64 < 2) by (bit_vector);
}

impl SteamID {
    #[verifier::type_invariant]
    spec fn valid(self) -> bool {
        in_range(self.value as int)
    }

    /// A SteamID with the value `value`, which the caller guarantees to be in range.
    pub fn new_unchecked(value: u64) -> (r: SteamID)
        requires
            in_range(value as int),
        ensures
            r@ == value,
    {
        SteamID { value }
    }

    /// The smallest valid SteamID.
    pub fn min() -> (r: SteamID)
        ensures
            r@ == MIN_VALUE,
    {
        SteamID { value: MIN_VALUE }
    }

    /// The largest valid SteamID.
    pub fn max() -> (r: SteamID)
        ensures
            r@ == MAX_VALUE,
    {
        SteamID { value: MAX_VALUE }
    }

    /// The underlying 64-bit integer (never 0).
    pub fn value(&self) -> (r: u64)
        ensures
            r == self@,
            in_range(r as int),
    {
        proof {
            use_type_invariant(self);
        }
        self.value
    }

    /// The `X` segment in `STEAM_X:Y:Z`; always 1.
    pub fn x(&self) -> (r: u64)
        ensures
            r == self@ >> 56u64,
            r == 1,
    {
        proof {
            use_type_invariant(self);
            lemma_in_range(self.value);
        }
        self.value >> 56
    }

    /// The `Y` segment in `STEAM_X:Y:Z`; 0 or 1.
    pub fn y(&self) -> (r: u64)
        ensures
            r == y_of(self@),
            r < 2,
    {
        proof {
            use_type_invariant(self);
            lemma_in_range(self.value);
        }
        self.value & 1
    }

    /// The `Z` segment in `STEAM_X:Y:Z`.
    pub fn z(&self) -> (r: u64)
        ensures
            r == z_of(self@),
    {
        proof {
            use_type_invariant(self);
            lemma_in_range(self.value);
        }
        (self.value - MAGIC_OFFSET - self.y()) / 2
    }

    /// The 64-bit representation.
    pub fn as_u64(&self) -> (r: u64)
        ensures
            r == self@,
    {
        self.value
    }

    /// The 32-bit representation: the offset from `MAGIC_OFFSET`, never 0.
    pub fn as_u32(&self) -> (r: u32)
        ensures
            r == self@ - MAGIC_OFFSET,
            r > 0,
    {
        proof {
            use_type_invariant(self);
            lemma_in_range(self.value);
        }
        let value = ((self.z() + self.y()) * 2) - self.y();
        value as u32
    }

    /// The Steam3ID representation `U:1:N`.
    pub fn as_id3(&self) -> (r: String)
        ensures
            r@ == id3_string(self@),
    {
        let mut s = string_of("U:1:");
        push_decimal(&mut s, self.as_u32() as u64);
        s
    }

    /// The standard representation `STEAM_X:Y:Z`.
    pub fn to_standard_string(&self) -> (r: String)
        ensures
            r@ == standard_string(self@),
    {
        let mut s = string_of("STEAM_");
        push_decimal(&mut s, self.x());
        push_char(&mut s, ':');
        push_decimal(&mut s, self.y());
        push_char(&mut s, ':');
        push_decimal(&mut s, self.z());
        assert(s@ =~= standard_string(self@));
        s
    }

    /// A SteamID, if `value` is in range.
    pub fn from_u64(value: u64) -> (r: Option<SteamID>)
        ensures
            match from_u64_model(value as int) {
                Some(v) => r matches Some(s) && s@ == v,
                None => r is None,
            },
    {
        if MIN_VALUE <= value && value <= MAX_VALUE {
            Some(SteamID { value })
        } else {
            None
        }
    }

    /// A SteamID with the 32-bit representation `value`, if that is in range (not 0).
    pub fn from_u32(value: u32) -> (r: Option<SteamID>)
        ensures
            match from_u64_model(value + MAGIC_OFFSET) {
                Some(v) => r matches Some(s) && s@ == v,
                None => r is None,
            },
    {
        SteamID::from_u64((value as u64) + MAGIC_OFFSET)
    }

    /// The standard-format reading of the segments `sp` of `cs`.
    #[verifier::spinoff_prover]
    fn from_standard_parts(cs: &Vec<char>, sp: Spans) -> (r: Result<SteamID, ParseSteamIDError>)
        requires
            spans_in(sp, 0, cs.len()),
        ensures
            match r {
                Ok(s) => standard_parts_model(spans_seqs(cs@, sp)) == Ok::<u64, ParseSteamIDError>(
                    s@,
                ),
                Err(e) => standard_parts_model(spans_seqs(cs@, sp)) == Err::<u64, ParseSteamIDError>(
                    e,
                ),
            },
    {
        if !(range_eq(cs, sp.first.0, sp.first.1, "0") || range_eq(cs, sp.first.0, sp.first.1, "1")) {
            return Err(ParseSteamIDError::InvalidX);
        }
        let y = match sp.second {
            None => {
                return Err(ParseSteamIDError::MissingY);
            },
            Some((a, b)) => match parse_unsigned_range(cs, a, b, u64::MAX) {
                Err(e) => {
                    return Err(ParseSteamIDError::InvalidY(Some(e)));
                },
                Ok(y) => y,
            },
        };
        if y > 1 {
            return Err(ParseSteamIDError::InvalidY(None));
        }
        let z = match sp.third {
            None => {
                return Err(ParseSteamIDError::MissingZ);
            },
            Some((a, b)) => match parse_unsigned_range(cs, a, b, u64::MAX) {
                Err(e) => {
                    return Err(ParseSteamIDError::InvalidZ(e));
                },
                Ok(z) => z,
            },
        };
        if y == 0 && z == 0 {
            return Err(ParseSteamIDError::IsZero);
        }
        if z > 0x7FFF_FFFF {
            return Err(ParseSteamIDError::OutOfRange);
        }
        let value = MAGIC_OFFSET + 2 * z + y;
        match SteamID::from_u64(value) {
            Some(s) => Ok(s),
            None => Err(ParseSteamIDError::OutOfRange),
        }
    }

    /// Parses the standard format `STEAM_X:Y:Z`.
    pub fn from_standard(value: &str) -> (r: Result<SteamID, ParseSteamIDError>)
        ensures
            match r {
                Ok(s) => standard_model(value@) == Ok::<u64, ParseSteamIDError>(s@),
                Err(e) => standard_model(value@) == Err::<u64, ParseSteamIDError>(e),
            },
    {
        let cs = chars_of(value);
        let n = cs.len();
        assert(cs@.subrange(0, n as int) =~= value@);
        if strip_prefix_len(&cs, 0, n, "STEAM_").is_none() {
            return Err(ParseSteamIDError::MissingPrefix);
        }
        let lo = trim_start_matches_range(&cs, 0, n, "STEAM_");
        let sp = split3_range(&cs, lo, n, ':');
        SteamID::from_standard_parts(&cs, sp)
    }

    /// The Steam3ID reading of the segments `sp` of `cs`.
    #[verifier::spinoff_prover]
    fn from_id3_parts(cs: &Vec<char>, sp: Spans) -> (r: Result<SteamID, ParseSteam3IDError>)
        requires
            spans_in(sp, 0, cs.len()),
        ensures
            match r {
                Ok(s) => id3_parts_model(spans_seqs(cs@, sp)) == Ok::<u64, ParseSteam3IDError>(s@),
                Err(e) => id3_parts_model(spans_seqs(cs@, sp)) == Err::<u64, ParseSteam3IDError>(e),
            },
    {
        if !range_eq(cs, sp.first.0, sp.first.1, "U") {
            return Err(ParseSteam3IDError::MissingAccountType);
        }
        match sp.second {
            None => {
                return Err(ParseSteam3IDError::MissingOne);
            },
            Some((a, b)) => {
                if !range_eq(cs, a, b, "1") {
                    return Err(ParseSteam3IDError::MissingOne);
                }
            },
        }
        let id = match sp.third {
            None => {
                return Err(ParseSteam3IDError::MissingID);
            },
            Some((a, b)) => match parse_unsigned_range(cs, a, b, u32::MAX as u64) {
                Err(e) => {
                    return Err(ParseSteam3IDError::InvalidID(e));
                },
                Ok(id) => id,
            },
        };
        match SteamID::from_u32(id as u32) {
            Some(s) => Ok(s),
            None => Err(ParseSteam3IDError::OutOfRange),
        }
    }

    /// Parses a Steam3ID `U:1:N`, optionally enclosed in `[]`.
    pub fn from_id3(value: &str) -> (r: Result<SteamID, ParseSteam3IDError>)
        ensures
            match r {
                Ok(s) => id3_model(value@) == Ok::<u64, ParseSteam3IDError>(s@),
                Err(e) => id3_model(value@) == Err::<u64, ParseSteam3IDError>(e),
            },
    {
        let cs = chars_of(value);
        let n = cs.len();
        assert(cs@.subrange(0, n as int) =~= value@);
        let open = n > 0 && cs[0] == '[';
        let close = n > 0 && cs[n - 1] == ']';
        let (lo, hi) = if open && close {
            let lo = trim_start_char_range(&cs, 0, n, '[');
            let hi = trim_end_char_range(&cs, lo, n, ']');
            (lo, hi)
        } else if !open && !close {
            (0, n)
        } else {
            return Err(ParseSteam3IDError::InconsistentBrackets);
        };
        assert(id3_inner(value@) == Some(cs@.subrange(lo as int, hi as int)));
        let sp = split3_range(&cs, lo, hi, ':');
        SteamID::from_id3_parts(&cs, sp)
    }

    /// Parses a SteamID of any known format: an integer (32-bit values are 32-bit SteamIDs),
    /// the standard format, or a Steam3ID, tried in that order.
    pub fn parse(value: &str) -> (r: Result<SteamID, InvalidSteamID>)
        ensures
            match r {
                Ok(s) => parse_model(value@) == Ok::<u64, InvalidSteamID>(s@),
                Err(e) => parse_model(value@) == Err::<u64, InvalidSteamID>(e),
            },
    {
        let cs = chars_of(value);
        let n = cs.len();
        assert(cs@.subrange(0, n as int) =~= value@);
        if let Ok(raw) = parse_unsigned_range(&cs, 0, n, u64::MAX) {
            return match SteamID::try_from_u64(raw) {
                Ok(s) => Ok(s),
                Err(e) => Err(InvalidSteamID::InvalidU64(e)),
            };
        }
        if let Ok(s) = SteamID::from_standard(value) {
            return Ok(s);
        }
        if let Ok(s) = SteamID::from_id3(value) {
            return Ok(s);
        }
        Err(InvalidSteamID::UnrecognizedSteamIDFormat)
    }

    /// `SteamID::try_from(u64)`: 32-bit values are read as 32-bit SteamIDs.
    pub fn try_from_u64(value: u64) -> (r: Result<SteamID, SteamIDOutOfRange>)
        ensures
            match try_from_u64_model(value) {
                Some(v) => r matches Ok(s) && s@ == v,
                None => r is Err,
            },
    {
        if value <= u32::MAX as u64 {
            SteamID::try_from_u32(value as u32)
        } else {
            match SteamID::from_u64(value) {
                Some(s) => Ok(s),
                None => Err(SteamIDOutOfRange),
            }
        }
    }

    /// `SteamID::try_from(u32)`.
    pub fn try_from_u32(value: u32) -> (r: Result<SteamID, SteamIDOutOfRange>)
        ensures
            match from_u64_model(value + MAGIC_OFFSET) {
                Some(v) => r matches Ok(s) && s@ == v,
                None => r is Err,
            },
    {
        match SteamID::from_u32(value) {
            Some(s) => Ok(s),
            None => Err(SteamIDOutOfRange),
        }
    }
}

impl SteamID {
    /// The string written by the standard format.
    pub fn serialize_standard(&self) -> (r: String)
        ensures
            r@ == standard_string(self@),
    {
        self.to_standard_string()
    }

    /// The string written by the Steam3ID format.
    pub fn serialize_id3(&self) -> (r: String)
        ensures
            r@ == id3_string(self@),
    {
        self.as_id3()
    }

    /// The value written by the 64-bit integer format.
    pub fn serialize_u64(&self) -> (r: u64)
        ensures
            r == self@,
    {
        self.as_u64()
    }

    /// The string written by the stringified 64-bit integer format.
    pub fn serialize_u64_stringified(&self) -> (r: String)
        ensures
            r@ == decimal_string(self@ as nat),
    {
        crate::text::decimal(self.as_u64())
    }

    /// The value written by the 32-bit integer format.
    pub fn serialize_u32(&self) -> (r: u32)
        ensures
            r == self@ - MAGIC_OFFSET,
    {
        self.as_u32()
    }

    /// Reads the standard format.
    pub fn deserialize_standard(value: &str) -> (r: Result<SteamID, ParseSteamIDError>)
        ensures
            match r {
                Ok(s) => standard_model(value@) == Ok::<u64, ParseSteamIDError>(s@),
                Err(e) => standard_model(value@) == Err::<u64, ParseSteamIDError>(e),
            },
    {
        SteamID::from_standard(value)
    }

    /// Reads the Steam3ID format.
    pub fn deserialize_id3(value: &str) -> (r: Result<SteamID, ParseSteam3IDError>)
        ensures
            match r {
                Ok(s) => id3_model(value@) == Ok::<u64, ParseSteam3IDError>(s@),
                Err(e) => id3_model(value@) == Err::<u64, ParseSteam3IDError>(e),
            },
    {
        SteamID::from_id3(value)
    }

    /// Reads the 64-bit integer format (32-bit values are read as 32-bit SteamIDs).
    pub fn deserialize_u64(value: u64) -> (r: Result<SteamID, SteamIDOutOfRange>)
        ensures
            match try_from_u64_model(value) {
                Some(v) => r matches Ok(s) && s@ == v,
                None => r is Err,
            },
    {
        SteamID::try_from_u64(value)
    }

    /// Reads the stringified 64-bit integer format.
    pub fn deserialize_u64_stringified(value: &str) -> (r: Result<SteamID, ParseStringifiedError>)
        ensures
            match parse_unsigned(value@, u64::MAX as int) {
                Err(kind) => r == Err::<SteamID, ParseStringifiedError>(
                    ParseStringifiedError::ParseInt(ParseIntError { kind }),
                ),
                Ok(n) => match try_from_u64_model(n as u64) {
                    Some(v) => r matches Ok(s) && s@ == v,
                    None => r == Err::<SteamID, ParseStringifiedError>(
                        ParseStringifiedError::OutOfRange(SteamIDOutOfRange),
                    ),
                },
            },
    {
        let cs = chars_of(value);
        let n = cs.len();
        assert(cs@.subrange(0, n as int) =~= value@);
        match parse_unsigned_range(&cs, 0, n, u64::MAX) {
            Err(e) => Err(ParseStringifiedError::ParseInt(e)),
            Ok(raw) => match SteamID::try_from_u64(raw) {
                Ok(s) => Ok(s),
                Err(e) => Err(ParseStringifiedError::OutOfRange(e)),
            },
        }
    }

    /// Reads the 32-bit integer format.
    pub fn deserialize_u32(value: u32) -> (r: Result<SteamID, SteamIDOutOfRange>)
        ensures
            match from_u64_model(value + MAGIC_OFFSET) {
                Some(v) => r matches Ok(s) && s@ == v,
                None => r is Err,
            },
    {
        SteamID::try_from_u32(value)
    }
}

/// Every SteamID in range is rendered as `STEAM_1:Y:Z`, which the standard parser reads back
/// as that SteamID.
pub proof fn law_from_standard_of_display(v: u64)
    requires
        in_range(v as int),
    ensures
        standard_model(standard_string(v)) == Ok::<u64, ParseSteamIDError>(v),
        parse_model(standard_string(v)) == Ok::<u64, InvalidSteamID>(v),
{
    lemma_in_range(v);
    let y = y_of(v);
    let z = z_of(v);
    let d1 = decimal_string(1);
    let dy = decimal_string(y as nat);
    let dz = decimal_string(z as nat);
    lemma_decimal_string(1, 1);
    lemma_decimal_string(y as nat, 1);
    lemma_decimal_string(z as nat, u64::MAX as int);
    lemma_parse_decimal_string(y as nat, u64::MAX as int);
    lemma_parse_decimal_string(z as nat, u64::MAX as int);
    assert(!is_digit(':'));
    lemma_digits_index_of(d1, ':');
    lemma_digits_index_of(dy, ':');
    lemma_digits_index_of(dz, ':');
    reveal_strlit("STEAM_");
    reveal_strlit("0");
    reveal_strlit("1");
    let s = standard_string(v);
    let rest = d1 + seq![':'] + dy + seq![':'] + dz;
    assert(s =~= "STEAM_"@ + rest);
    assert(s.subrange(0, 6) =~= "STEAM_"@);
    assert(s.subrange(6, s.len() as int) =~= rest);
    assert(d1 =~= seq!['1']);
    assert(!starts_with(rest, "STEAM_"@)) by {
        assert(rest[0] == '1');
        if starts_with(rest, "STEAM_"@) {
            assert(rest.subrange(0, 6)[0] == 'S');
        }
    }
    assert(trim_start_matches(rest, "STEAM_"@) == rest);
    assert(trim_start_matches(s, "STEAM_"@) == rest);
    lemma_split_three(d1, dy, dz, ':');
    assert(d1 =~= "1"@);
    assert(s[0] == 'S');
    lemma_scan_first_non_digit(s, u64::MAX as int);
}

/// `STEAM_X:Y:Z` written in decimal, with `X` and `Y` each 0 or 1 and `Y` and `Z` not both 0,
/// reads as the SteamID whose 32-bit form is `2 * Z + Y` when that fits in 32 bits (its `Y` and
/// `Z` segments are then `Y` and `Z`), and as `OutOfRange` when it does not.
pub proof fn law_from_standard_segments(x: u64, y: u64, z: u64)
    requires
        x <= 1,
        y <= 1,
        !(y == 0 && z == 0),
    ensures
        ({
            let s = "STEAM_"@ + decimal_string(x as nat) + seq![':'] + decimal_string(y as nat)
                + seq![':'] + decimal_string(z as nat);
            let v = (MAGIC_OFFSET + 2 * z + y) as u64;
            &&& 2 * z + y <= u32::MAX ==> standard_model(s) == Ok::<u64, ParseSteamIDError>(v)
                && in_range(v as int) && y_of(v) == y && z_of(v) == z
            &&& 2 * z + y > u32::MAX ==> standard_model(s) == Err::<u64, ParseSteamIDError>(
                ParseSteamIDError::OutOfRange,
            )
        }),
{
    let dx = decimal_string(x as nat);
    let dy = decimal_string(y as nat);
    let dz = decimal_string(z as nat);
    lemma_decimal_string(x as nat, 1);
    lemma_decimal_string(y as nat, 1);
    lemma_decimal_string(z as nat, u64::MAX as int);
    lemma_parse_decimal_string(y as nat, u64::MAX as int);
    lemma_parse_decimal_string(z as nat, u64::MAX as int);
    assert(!is_digit(':'));
    lemma_digits_index_of(dx, ':');
    lemma_digits_index_of(dy, ':');
    lemma_digits_index_of(dz, ':');
    reveal_strlit("STEAM_");
    reveal_strlit("0");
    reveal_strlit("1");
    let s = "STEAM_"@ + dx + seq![':'] + dy + seq![':'] + dz;
    let rest = dx + seq![':'] + dy + seq![':'] + dz;
    assert(s =~= "STEAM_"@ + rest);
    assert(s.subrange(0, 6) =~= "STEAM_"@);
    assert(s.subrange(6, s.len() as int) =~= rest);
    if x == 0 {
        assert(dx =~= "0"@);
    } else {
        assert(dx =~= "1"@);
    }
    assert(!starts_with(rest, "STEAM_"@)) by {
        assert(is_digit(rest[0]));
        if starts_with(rest, "STEAM_"@) {
            assert(rest.subrange(0, 6)[0] == 'S');
        }
    }
    assert(trim_start_matches(rest, "STEAM_"@) == rest);
    assert(trim_start_matches(s, "STEAM_"@) == rest);
    lemma_split_three(dx, dy, dz, ':');
    if 2 * z + y <= u32::MAX {
        let v = (MAGIC_OFFSET + 2 * z + y) as u64;
        assert(in_range(v as int));
        lemma_in_range(v);
    }
}

/// Every SteamID in range is rendered as the Steam3ID `U:1:N`, which the Steam3ID parser
/// reads back as that SteamID.
pub proof fn law_from_id3_of_as_id3(v: u64)
    requires
        in_range(v as int),
    ensures
        id3_model(id3_string(v)) == Ok::<u64, ParseSteam3IDError>(v),
        parse_model(id3_string(v)) == Ok::<u64, InvalidSteamID>(v),
{
    lemma_in_range(v);
    let n = (v - MAGIC_OFFSET) as nat;
    let dn = decimal_string(n);
    lemma_decimal_string(n, u32::MAX as int);
    lemma_parse_decimal_string(n, u32::MAX as int);
    assert(!is_digit(':'));
    lemma_digits_index_of(dn, ':');
    reveal_strlit("U:1:");
    reveal_strlit("U");
    reveal_strlit("1");
    reveal_strlit("STEAM_");
    let s = id3_string(v);
    assert(s =~= "U"@ + seq![':'] + "1"@ + seq![':'] + dn);
    assert(index_of("U"@, ':') is None) by {
        assert("U"@.drop_first() =~= Seq::<char>::empty());
        assert(index_of("U"@.drop_first(), ':') is None);
        assert("U"@[0] != ':');
    }
    assert(index_of("1"@, ':') is None) by {
        assert("1"@.drop_first() =~= Seq::<char>::empty());
        assert(index_of("1"@.drop_first(), ':') is None);
        assert("1"@[0] != ':');
    }
    lemma_split_three("U"@, "1"@, dn, ':');
    assert(s[0] == 'U');
    assert(s.last() == dn.last());
    assert(is_digit(dn[dn.len() - 1]));
    assert(id3_inner(s) == Some(s));
    lemma_scan_first_non_digit(s, u64::MAX as int);
    assert(!starts_with(s, "STEAM_"@)) by {
        if starts_with(s, "STEAM_"@) {
            assert(s.subrange(0, 6)[0] == 'S');
        }
    }
}

/// A SteamID is recovered from its 32-bit and its 64-bit representations.
pub proof fn law_representations_round_trip(v: u64)
    requires
        in_range(v as int),
    ensures
        from_u64_model((v - MAGIC_OFFSET) + MAGIC_OFFSET) == Some(v),
        from_u64_model(v as int) == Some(v),
        try_from_u64_model(v) == Some(v),
{
    lemma_in_range(v);
}

impl std::str::FromStr for SteamID {
    type Err = InvalidSteamID;

    fn from_str(value: &str) -> (r: Result<SteamID, InvalidSteamID>)
        ensures
            match r {
                Ok(s) => parse_model(value@) == Ok::<u64, InvalidSteamID>(s@),
                Err(e) => parse_model(value@) == Err::<u64, InvalidSteamID>(e),
            },
    {
        SteamID::parse(value)
    }
}

} // verus!
