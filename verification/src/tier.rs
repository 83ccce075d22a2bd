//! Difficulty tiers of CS2KZ courses.
//!
//! Of the ten tiers only the first eight are considered humanly possible: `Unfeasible` is
//! possible in theory but not in practice, and `Impossible` is impossible.

use vstd::prelude::*;

use crate::text::{
    chars_of, decimal_string, lemma_parse_bounds, lemma_parse_decimal_string, parse_unsigned,
    parse_unsigned_range, str_eq,
};

verus! {

/// The difficulty tier of a KZ course.
#[derive(Debug, Clone, Copy, PartialEq, Eq, PartialOrd, Ord, Hash, Structural)]
pub enum Tier {
    /// The lowest tier: someone who has never played KZ before should be able to complete it.
    VeryEasy,
    /// Requires some prior KZ knowledge, such as air strafing and bunnyhopping.
    Easy,
    /// Players who have the KZ basics down should be able to complete it.
    Medium,
    /// For players who have played KZ for a while and are learning advanced techniques such as ladders and surfs.
    Advanced,
    /// Like `Advanced`, but harder.
    Hard,
    /// Like `Hard`, but very.
    VeryHard,
    /// For experienced players who want to challenge themselves; a top time requires mastering KZ.
    Extreme,
    /// The hardest tier in the game: only very good players complete these at all.
    Death,
    /// Technically possible, but not for humans: reserved for TAS runs, and human runs are reviewed for cheats.
    Unfeasible,
    /// Technically impossible, even with perfect inputs.
    Impossible,
}

/// The error for a value that names no tier.
#[derive(Debug, Clone, Copy, PartialEq, Eq, Structural)]
pub struct InvalidTier;

/// The integer that stands for `tier`, from 1 to 10.
pub open spec fn tier_code(tier: Tier) -> u8 {
    match tier {
        Tier::VeryEasy => 1u8,
        Tier::Easy => 2u8,
        Tier::Medium => 3u8,
        Tier::Advanced => 4u8,
        Tier::Hard => 5u8,
        Tier::VeryHard => 6u8,
        Tier::Extreme => 7u8,
        Tier::Death => 8u8,
        Tier::Unfeasible => 9u8,
        Tier::Impossible => 10u8,
    }
}

/// The tier that the integer `v` stands for.
pub open spec fn tier_of_code(v: int) -> Option<Tier> {
    if v == 1 {
        Some(Tier::VeryEasy)
    } else if v == 2 {
        Some(Tier::Easy)
    } else if v == 3 {
        Some(Tier::Medium)
    } else if v == 4 {
        Some(Tier::Advanced)
    } else if v == 5 {
        Some(Tier::Hard)
    } else if v == 6 {
        Some(Tier::VeryHard)
    } else if v == 7 {
        Some(Tier::Extreme)
    } else if v == 8 {
        Some(Tier::Death)
    } else if v == 9 {
        Some(Tier::Unfeasible)
    } else if v == 10 {
        Some(Tier::Impossible)
    } else {
        None
    }
}

/// The name of `tier` in the API.
pub open spec fn tier_api_name(tier: Tier) -> Seq<char> {
    match tier {
        Tier::VeryEasy => "very_easy"@,
        Tier::Easy => "easy"@,
        Tier::Medium => "medium"@,
        Tier::Advanced => "advanced"@,
        Tier::Hard => "hard"@,
        Tier::VeryHard => "very_hard"@,
        Tier::Extreme => "extreme"@,
        Tier::Death => "death"@,
        Tier::Unfeasible => "unfeasible"@,
        Tier::Impossible => "impossible"@,
    }
}

/// The name of `tier` for display.
pub open spec fn tier_display_name(tier: Tier) -> Seq<char> {
    match tier {
        Tier::VeryEasy => "Very Easy"@,
        Tier::Easy => "Easy"@,
        Tier::Medium => "Medium"@,
        Tier::Advanced => "Advanced"@,
        Tier::Hard => "Hard"@,
        Tier::VeryHard => "Very Hard"@,
        Tier::Extreme => "Extreme"@,
        Tier::Death => "Death"@,
        Tier::Unfeasible => "Unfeasible"@,
        Tier::Impossible => "Impossible"@,
    }
}

/// The tier named `s`: its API name, or for the two "very" tiers also the name with a space.
pub open spec fn tier_of_name(s: Seq<char>) -> Option<Tier> {
    if s == "very easy"@ || s == "very_easy"@ {
        Some(Tier::VeryEasy)
    } else if s == "easy"@ {
        Some(Tier::Easy)
    } else if s == "medium"@ {
        Some(Tier::Medium)
    } else if s == "advanced"@ {
        Some(Tier::Advanced)
    } else if s == "hard"@ {
        Some(Tier::Hard)
    } else if s == "very hard"@ || s == "very_hard"@ {
        Some(Tier::VeryHard)
    } else if s == "extreme"@ {
        Some(Tier::Extreme)
    } else if s == "death"@ {
        Some(Tier::Death)
    } else if s == "unfeasible"@ {
        Some(Tier::Unfeasible)
    } else if s == "impossible"@ {
        Some(Tier::Impossible)
    } else {
        None
    }
}

/// What parsing `s` gives: a `u8` is read as a tier's integer, anything else as a name.
pub open spec fn tier_parse_model(s: Seq<char>) -> Option<Tier> {
    match parse_unsigned(s, 255) {
        Ok(v) => tier_of_code(v),
        Err(_) => tier_of_name(s),
    }
}

/// The result that carries `o`, failing with [`InvalidTier`] on `None`.
pub open spec fn tier_result(o: Option<Tier>) -> Result<Tier, InvalidTier> {
    match o {
        Some(t) => Ok(t),
        None => Err(InvalidTier),
    }
}

impl Tier {
    /// The name of this tier in the API.
    pub fn api(&self) -> (r: &'static str)
        ensures
            r@ == tier_api_name(*self),
    {
        match self {
            Tier::VeryEasy => "very_easy",
            Tier::Easy => "easy",
            Tier::Medium => "medium",
            Tier::Advanced => "advanced",
            Tier::Hard => "hard",
            Tier::VeryHard => "very_hard",
            Tier::Extreme => "extreme",
            Tier::Death => "death",
            Tier::Unfeasible => "unfeasible",
            Tier::Impossible => "impossible",
        }
    }

    /// The name of this tier for display.
    pub fn display_name(&self) -> (r: &'static str)
        ensures
            r@ == tier_display_name(*self),
    {
        match self {
            Tier::VeryEasy => "Very Easy",
            Tier::Easy => "Easy",
            Tier::Medium => "Medium",
            Tier::Advanced => "Advanced",
            Tier::Hard => "Hard",
            Tier::VeryHard => "Very Hard",
            Tier::Extreme => "Extreme",
            Tier::Death => "Death",
            Tier::Unfeasible => "Unfeasible",
            Tier::Impossible => "Impossible",
        }
    }

    /// The integer that stands for this tier.
    pub fn as_u8(&self) -> (r: u8)
        ensures
            r == tier_code(*self),
    {
        match self {
            Tier::VeryEasy => 1,
            Tier::Easy => 2,
            Tier::Medium => 3,
            Tier::Advanced => 4,
            Tier::Hard => 5,
            Tier::VeryHard => 6,
            Tier::Extreme => 7,
            Tier::Death => 8,
            Tier::Unfeasible => 9,
            Tier::Impossible => 10,
        }
    }

    /// The tier that the integer `value` stands for.
    pub fn try_from_u8(value: u8) -> (r: Result<Tier, InvalidTier>)
        ensures
            r == tier_result(tier_of_code(value as int)),
    {
        match value {
            1 => Ok(Tier::VeryEasy),
            2 => Ok(Tier::Easy),
            3 => Ok(Tier::Medium),
            4 => Ok(Tier::Advanced),
            5 => Ok(Tier::Hard),
            6 => Ok(Tier::VeryHard),
            7 => Ok(Tier::Extreme),
            8 => Ok(Tier::Death),
            9 => Ok(Tier::Unfeasible),
            10 => Ok(Tier::Impossible),
            _ => Err(InvalidTier),
        }
    }

    /// The tier named `value`.
    fn from_name(value: &str) -> (r: Result<Tier, InvalidTier>)
        ensures
            r == tier_result(tier_of_name(value@)),
    {
        if str_eq(value, "very easy") || str_eq(value, "very_easy") {
            Ok(Tier::VeryEasy)
        } else if str_eq(value, "easy") {
            Ok(Tier::Easy)
        } else if str_eq(value, "medium") {
            Ok(Tier::Medium)
        } else if str_eq(value, "advanced") {
            Ok(Tier::Advanced)
        } else if str_eq(value, "hard") {
            Ok(Tier::Hard)
        } else if str_eq(value, "very hard") || str_eq(value, "very_hard") {
            Ok(Tier::VeryHard)
        } else if str_eq(value, "extreme") {
            Ok(Tier::Extreme)
        } else if str_eq(value, "death") {
            Ok(Tier::Death)
        } else if str_eq(value, "unfeasible") {
            Ok(Tier::Unfeasible)
        } else if str_eq(value, "impossible") {
            Ok(Tier::Impossible)
        } else {
            Err(InvalidTier)
        }
    }

    /// Reads a tier from a string: a `u8` is taken as the tier's integer, anything else as its
    /// name.
    pub fn parse(value: &str) -> (r: Result<Tier, InvalidTier>)
        ensures
            r == tier_result(tier_parse_model(value@)),
    {
        let cs = chars_of(value);
        let n = cs.len();
        assert(cs@.subrange(0, n as int) =~= value@);
        match parse_unsigned_range(&cs, 0, n, 255) {
            Ok(v) => {
                proof {
                    lemma_parse_bounds(value@, 0, 255);
                }
                Tier::try_from_u8(v as u8)
            },
            Err(_) => Tier::from_name(value),
        }
    }

    /// The value written by the API format: the tier's API name.
    pub fn serialize_api(&self) -> (r: &'static str)
        ensures
            r@ == tier_api_name(*self),
    {
        self.api()
    }

    /// The value written by the integer format.
    pub fn serialize_int(&self) -> (r: u8)
        ensures
            r == tier_code(*self),
    {
        self.as_u8()
    }

    /// Reads the API format: the names, integers not included.
    pub fn deserialize_api(value: &str) -> (r: Result<Tier, InvalidTier>)
        ensures
            r == tier_result(tier_of_name(value@)),
    {
        Tier::from_name(value)
    }

    /// Reads the integer format.
    pub fn deserialize_int(value: u8) -> (r: Result<Tier, InvalidTier>)
        ensures
            r == tier_result(tier_of_code(value as int)),
    {
        Tier::try_from_u8(value)
    }
}

/// A tier's integer stands for that tier, and its API name names it; both are read back by the
/// parser.
pub proof fn law_tier_round_trip(tier: Tier)
    ensures
        tier_of_code(tier_code(tier) as int) == Some(tier),
        tier_of_name(tier_api_name(tier)) == Some(tier),
        tier_parse_model(tier_api_name(tier)) == Some(tier),
{
    reveal_strlit("very_easy");
    reveal_strlit("very easy");
    reveal_strlit("easy");
    reveal_strlit("medium");
    reveal_strlit("advanced");
    reveal_strlit("hard");
    reveal_strlit("very_hard");
    reveal_strlit("very hard");
    reveal_strlit("extreme");
    reveal_strlit("death");
    reveal_strlit("unfeasible");
    reveal_strlit("impossible");
    let name = tier_api_name(tier);
    assert(name[0] != '+' && !crate::text::is_digit(name[0]));
    crate::text::lemma_scan_first_non_digit(name, 255);
}

/// The decimal text of a tier's integer parses back to that tier, and an integer from 1 to 10
/// parses as the tier whose integer it is; no other integer names a tier.
pub proof fn law_tier_of_decimal(t: Tier, n: u8)
    ensures
        tier_parse_model(decimal_string(tier_code(t) as nat)) == Some(t),
        tier_parse_model(decimal_string(n as nat)) matches Some(u) ==> tier_code(u) == n,
        1 <= n <= 10 ==> tier_parse_model(decimal_string(n as nat)) is Some,
{
    lemma_parse_decimal_string(tier_code(t) as nat, 255);
    lemma_parse_decimal_string(n as nat, 255);
}

impl std::convert::From<Tier> for u8 {
    fn from(tier: Tier) -> u8 {
        tier.as_u8()
    }
}

impl vstd::std_specs::convert::FromSpecImpl<Tier> for u8 {
    open spec fn obeys_from_spec() -> bool {
        true
    }

    open spec fn from_spec(tier: Tier) -> u8 {
        tier_code(tier)
    }
}

impl std::convert::TryFrom<u8> for Tier {
    type Error = InvalidTier;

    fn try_from(value: u8) -> Result<Tier, InvalidTier> {
        Tier::try_from_u8(value)
    }
}

impl vstd::std_specs::convert::TryFromSpecImpl<u8> for Tier {
    open spec fn obeys_try_from_spec() -> bool {
        true
    }

    open spec fn try_from_spec(value: u8) -> Result<Tier, InvalidTier> {
        tier_result(tier_of_code(value as int))
    }
}

impl std::str::FromStr for Tier {
    type Err = InvalidTier;

    fn from_str(value: &str) -> (r: Result<Tier, InvalidTier>)
        ensures
            r == tier_result(tier_parse_model(value@)),
    {
        Tier::parse(value)
    }
}

} // verus!
