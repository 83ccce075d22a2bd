//! Ranked status of KZ course filters.
//!
//! Every global map is made up of one or more courses, each course has four filters, and each
//! filter has its own ranked status, which decides whether players gain points from it.

use vstd::prelude::*;

use crate::text::{chars_of, lemma_parse_bounds, parse_signed, parse_signed_range, str_eq};

verus! {

/// The ranked status of a course filter.
#[derive(Debug, Clone, Copy, PartialEq, Eq, PartialOrd, Ord, Hash, Structural)]
pub enum RankedStatus {
    /// The filter will never be ranked, because the mapper asked for it or the map approval
    /// team decided so.
    Never,
    /// The filter is not ranked at the moment, most likely because it did not meet the
    /// requirements.
    Unranked,
    /// The filter is ranked.
    Ranked,
}

/// The error for a value that names no ranked status.
#[derive(Debug, Clone, Copy, PartialEq, Eq, Structural)]
pub struct InvalidRankedStatus;

/// The integer that stands for `status`.
pub open spec fn status_code(status: RankedStatus) -> i8 {
    match status {
        RankedStatus::Never => -1i8,
        RankedStatus::Unranked => 0i8,
        RankedStatus::Ranked => 1i8,
    }
}

/// The status that the integer `v` stands for.
pub open spec fn status_of_code(v: int) -> Option<RankedStatus> {
    if v == -1 {
        Some(RankedStatus::Never)
    } else if v == 0 {
        Some(RankedStatus::Unranked)
    } else if v == 1 {
        Some(RankedStatus::Ranked)
    } else {
        None
    }
}

/// The name of `status` in the API.
pub open spec fn status_api_name(status: RankedStatus) -> Seq<char> {
    match status {
        RankedStatus::Never => "never"@,
        RankedStatus::Unranked => "unranked"@,
        RankedStatus::Ranked => "ranked"@,
    }
}

/// The status whose API name is `s`.
pub open spec fn status_of_api_name(s: Seq<char>) -> Option<RankedStatus> {
    if s == "never"@ {
        Some(RankedStatus::Never)
    } else if s == "unranked"@ {
        Some(RankedStatus::Unranked)
    } else if s == "ranked"@ {
        Some(RankedStatus::Ranked)
    } else {
        None
    }
}

/// What parsing `s` gives: an `i8` is read as a status code, anything else as an API name.
pub open spec fn status_parse_model(s: Seq<char>) -> Option<RankedStatus> {
    match parse_signed(s, -128, 127) {
        Ok(v) => status_of_code(v),
        Err(_) => status_of_api_name(s),
    }
}

/// The result that carries `o`, failing with [`InvalidRankedStatus`] on `None`.
pub open spec fn status_result(o: Option<RankedStatus>) -> Result<RankedStatus, InvalidRankedStatus> {
    match o {
        Some(s) => Ok(s),
        None => Err(InvalidRankedStatus),
    }
}

impl RankedStatus {
    /// The name of this status in the API.
    pub fn api(&self) -> (r: &'static str)
        ensures
            r@ == status_api_name(*self),
    {
        match self {
            RankedStatus::Never => "never",
            RankedStatus::Unranked => "unranked",
            RankedStatus::Ranked => "ranked",
        }
    }

    /// The name of this status for display: the variant's name.
    pub fn display_name(&self) -> (r: &'static str)
        ensures
            r@ == (match *self {
                RankedStatus::Never => "Never"@,
                RankedStatus::Unranked => "Unranked"@,
                RankedStatus::Ranked => "Ranked"@,
            }),
    {
        match self {
            RankedStatus::Never => "Never",
            RankedStatus::Unranked => "Unranked",
            RankedStatus::Ranked => "Ranked",
        }
    }

    /// The integer that stands for this status.
    pub fn as_i8(&self) -> (r: i8)
        ensures
            r == status_code(*self),
    {
        match self {
            RankedStatus::Never => -1,
            RankedStatus::Unranked => 0,
            RankedStatus::Ranked => 1,
        }
    }

    /// The status that the integer `value` stands for.
    pub fn try_from_i8(value: i8) -> (r: Result<RankedStatus, InvalidRankedStatus>)
        ensures
            r == status_result(status_of_code(value as int)),
    {
        if value == -1 {
            Ok(RankedStatus::Never)
        } else if value == 0 {
            Ok(RankedStatus::Unranked)
        } else if value == 1 {
            Ok(RankedStatus::Ranked)
        } else {
            Err(InvalidRankedStatus)
        }
    }

    /// The status with the API name `value`.
    fn from_api_name(value: &str) -> (r: Result<RankedStatus, InvalidRankedStatus>)
        ensures
            r == status_result(status_of_api_name(value@)),
    {
        if str_eq(value, "never") {
            Ok(RankedStatus::Never)
        } else if str_eq(value, "unranked") {
            Ok(RankedStatus::Unranked)
        } else if str_eq(value, "ranked") {
            Ok(RankedStatus::Ranked)
        } else {
            Err(InvalidRankedStatus)
        }
    }

    /// Reads a status from a string: an `i8` is taken as the status's integer, anything else
    /// as its API name.
    pub fn parse(value: &str) -> (r: Result<RankedStatus, InvalidRankedStatus>)
        ensures
            r == status_result(status_parse_model(value@)),
    {
        let cs = chars_of(value);
        let n = cs.len();
        assert(cs@.subrange(0, n as int) =~= value@);
        match parse_signed_range(&cs, 0, n, -128, 127) {
            Ok(v) => {
                proof {
                    lemma_parse_bounds(value@, -128, 127);
                }
                RankedStatus::try_from_i8(v as i8)
            },
            Err(_) => RankedStatus::from_api_name(value),
        }
    }

    /// The value written by the API format: the status's API name.
    pub fn serialize_api(&self) -> (r: &'static str)
        ensures
            r@ == status_api_name(*self),
    {
        self.api()
    }

    /// The value written by the integer format.
    pub fn serialize_int(&self) -> (r: i8)
        ensures
            r == status_code(*self),
    {
        self.as_i8()
    }

    /// Reads the API format: only the API names are accepted.
    pub fn deserialize_api(value: &str) -> (r: Result<RankedStatus, InvalidRankedStatus>)
        ensures
            r == status_result(status_of_api_name(value@)),
    {
        RankedStatus::from_api_name(value)
    }

    /// Reads the integer format.
    pub fn deserialize_int(value: i8) -> (r: Result<RankedStatus, InvalidRankedStatus>)
        ensures
            r == status_result(status_of_code(value as int)),
    {
        RankedStatus::try_from_i8(value)
    }
}

/// A status's integer stands for that status, and its API name names it; both are read back by
/// the parser.
pub proof fn law_ranked_status_round_trip(status: RankedStatus)
    ensures
        status_of_code(status_code(status) as int) == Some(status),
        status_of_api_name(status_api_name(status)) == Some(status),
        status_parse_model(status_api_name(status)) == Some(status),
{
    reveal_strlit("never");
    reveal_strlit("unranked");
    reveal_strlit("ranked");
    let name = status_api_name(status);
    assert(name[0] != '+' && name[0] != '-');
    assert(name.len() > 1);
    assert(!crate::text::is_digit(name.last()));
    crate::text::lemma_scan_first_non_digit(name, 127);
}

/// The text of a status's integer (`-1`, `0` or `1`) parses back to that status.
pub proof fn law_ranked_status_of_integer_text(status: RankedStatus)
    ensures
        status_parse_model(integer_text(status_code(status) as int)) == Some(status),
{
    match status {
        RankedStatus::Never => {
            let t = integer_text(-1);
            crate::text::lemma_decimal_string(1, 1);
            assert(crate::text::decimal_string(1) =~= seq!['1']);
            assert(t =~= seq!['-', '1']);
            assert(t.drop_first() =~= seq!['1']);
            assert(seq!['1'].drop_last() =~= Seq::<char>::empty());
            assert(crate::text::is_digit('1'));
            assert(crate::text::digit_value('1') == 1);
            assert(crate::text::scan_negative(Seq::<char>::empty(), -128) == Ok::<
                int,
                crate::text::IntErrorKind,
            >(0));
            assert(crate::text::scan_negative(seq!['1'], -128) == Ok::<int, crate::text::IntErrorKind>(-1));
            assert(crate::text::parse_signed(t, -128, 127) == Ok::<int, crate::text::IntErrorKind>(-1));
        },
        _ => {
            crate::text::lemma_parse_decimal_string(status_code(status) as nat, 127);
            assert(crate::text::decimal_string(status_code(status) as nat)[0] != '-') by {
                crate::text::lemma_decimal_string(status_code(status) as nat, 127);
            }
        },
    }
}

/// The decimal text of an integer, with a leading `-` when it is negative.
pub open spec fn integer_text(v: int) -> Seq<char> {
    if v < 0 {
        seq!['-'] + crate::text::decimal_string((-v) as nat)
    } else {
        crate::text::decimal_string(v as nat)
    }
}

impl std::convert::From<RankedStatus> for i8 {
    fn from(status: RankedStatus) -> i8 {
        status.as_i8()
    }
}

impl vstd::std_specs::convert::FromSpecImpl<RankedStatus> for i8 {
    open spec fn obeys_from_spec() -> bool {
        true
    }

    open spec fn from_spec(status: RankedStatus) -> i8 {
        status_code(status)
    }
}

impl std::convert::TryFrom<i8> for RankedStatus {
    type Error = InvalidRankedStatus;

    fn try_from(value: i8) -> Result<RankedStatus, InvalidRankedStatus> {
        RankedStatus::try_from_i8(value)
    }
}

impl vstd::std_specs::convert::TryFromSpecImpl<i8> for RankedStatus {
    open spec fn obeys_try_from_spec() -> bool {
        true
    }

    open spec fn try_from_spec(value: i8) -> Result<RankedStatus, InvalidRankedStatus> {
        status_result(status_of_code(value as int))
    }
}

impl std::str::FromStr for RankedStatus {
    type Err = InvalidRankedStatus;

    fn from_str(value: &str) -> (r: Result<RankedStatus, InvalidRankedStatus>)
        ensures
            r == status_result(status_parse_model(value@)),
    {
        RankedStatus::parse(value)
    }
}

} // verus!
