use vstd::prelude::*;

use crate::text::{chars_of, decimal_string, digit_char, range_eq};

verus! {

/// The universe a SteamID belongs to (its `X` segment).
#[derive(Debug, Clone, Copy, PartialEq, Eq, Hash, PartialOrd, Ord, Structural)]
pub enum Universe {
    Individual,
    Public,
    Beta,
    Internal,
    Dev,
    RC,
}

/// A string did not name a universe.
#[derive(Debug, Clone, Copy, PartialEq, Eq)]
pub struct ParseUniverseError {
    _priv: (),
}

impl ParseUniverseError {
    pub(crate) fn new() -> ParseUniverseError {
        ParseUniverseError { _priv: () }
    }
}

impl Universe {
    /// The numeric code of this universe.
    pub open spec fn code(self) -> u64 {
        match self {
            Universe::Individual => 0,
            Universe::Public => 1,
            Universe::Beta => 2,
            Universe::Internal => 3,
            Universe::Dev => 4,
            Universe::RC => 5,
        }
    }

    /// The numeric code of this universe.
    pub fn as_u8(&self) -> (r: u8)
        ensures
            r as u64 == self.code(),
    {
        match self {
            Universe::Individual => 0,
            Universe::Public => 1,
            Universe::Beta => 2,
            Universe::Internal => 3,
            Universe::Dev => 4,
            Universe::RC => 5,
        }
    }

    /// Reads the universe from the top byte of a 64-bit SteamID.
    pub(crate) fn from_u64(value: u64) -> (r: Option<Universe>)
        ensures
            r == universe_of_code(value >> 56),
    {
        match value >> 56 {
            0 => Some(Universe::Individual),
            1 => Some(Universe::Public),
            2 => Some(Universe::Beta),
            3 => Some(Universe::Internal),
            4 => Some(Universe::Dev),
            5 => Some(Universe::RC),
            _ => None,
        }
    }

    /// Reads a universe from `cs[lo..hi]`.
    pub(crate) fn from_chars(cs: &Vec<char>, lo: usize, hi: usize) -> (r: Option<Universe>)
        requires
            lo <= hi <= cs@.len(),
        ensures
            r == universe_of_name(cs@.subrange(lo as int, hi as int)),
    {
        reveal(universe_of_name);
        if range_eq(cs, lo, hi, "0") || range_eq(cs, lo, hi, "individual") || range_eq(
            cs,
            lo,
            hi,
            "Individual",
        ) {
            Some(Universe::Individual)
        } else if range_eq(cs, lo, hi, "1") || range_eq(cs, lo, hi, "Public") || range_eq(
            cs,
            lo,
            hi,
            "public",
        ) {
            Some(Universe::Public)
        } else if range_eq(cs, lo, hi, "2") || range_eq(cs, lo, hi, "Beta") || range_eq(
            cs,
            lo,
            hi,
            "beta",
        ) {
            Some(Universe::Beta)
        } else if range_eq(cs, lo, hi, "3") || range_eq(cs, lo, hi, "Internal") || range_eq(
            cs,
            lo,
            hi,
            "internal",
        ) {
            Some(Universe::Internal)
        } else if range_eq(cs, lo, hi, "4") || range_eq(cs, lo, hi, "Dev") || range_eq(
            cs,
            lo,
            hi,
            "dev",
        ) {
            Some(Universe::Dev)
        } else if range_eq(cs, lo, hi, "5") || range_eq(cs, lo, hi, "RC") || range_eq(
            cs,
            lo,
            hi,
            "rc",
        ) {
            Some(Universe::RC)
        } else {
            None
        }
    }

    /// Parses a universe from its number or its name.
    pub fn parse(value: &str) -> (r: Result<Universe, ParseUniverseError>)
        ensures
            match universe_of_name(value@) {
                Some(u) => r == Ok::<Universe, ParseUniverseError>(u),
                None => r is Err,
            },
    {
        let cs = chars_of(value);
        assert(cs@.subrange(0, cs@.len() as int) =~= value@);
        match Universe::from_chars(&cs, 0, cs.len()) {
            Some(u) => Ok(u),
            None => Err(ParseUniverseError { _priv: () }),
        }
    }
}

/// The universe with the numeric code `c`.
pub open spec fn universe_of_code(c: u64) -> Option<Universe> {
    if c == 0 {
        Some(Universe::Individual)
    } else if c == 1 {
        Some(Universe::Public)
    } else if c == 2 {
        Some(Universe::Beta)
    } else if c == 3 {
        Some(Universe::Internal)
    } else if c == 4 {
        Some(Universe::Dev)
    } else if c == 5 {
        Some(Universe::RC)
    } else {
        None
    }
}

/// The universe that the string `s` names, by number or by name.
#[verifier::opaque]
pub open spec fn universe_of_name(s: Seq<char>) -> Option<Universe> {
    if s == "0"@ || s == "individual"@ || s == "Individual"@ {
        Some(Universe::Individual)
    } else if s == "1"@ || s == "Public"@ || s == "public"@ {
        Some(Universe::Public)
    } else if s == "2"@ || s == "Beta"@ || s == "beta"@ {
        Some(Universe::Beta)
    } else if s == "3"@ || s == "Internal"@ || s == "internal"@ {
        Some(Universe::Internal)
    } else if s == "4"@ || s == "Dev"@ || s == "dev"@ {
        Some(Universe::Dev)
    } else if s == "5"@ || s == "RC"@ || s == "rc"@ {
        Some(Universe::RC)
    } else {
        None
    }
}

/// A universe code written in decimal names that universe.
pub proof fn lemma_name_of_code(c: u64)
    requires
        c <= 5,
    ensures
        universe_of_name(decimal_string(c as nat)) == universe_of_code(c),
{
    reveal(universe_of_name);
    reveal_strlit("0");
    reveal_strlit("1");
    reveal_strlit("2");
    reveal_strlit("3");
    reveal_strlit("4");
    reveal_strlit("5");
    reveal_strlit("individual");
    reveal_strlit("Individual");
    reveal_strlit("Public");
    reveal_strlit("public");
    reveal_strlit("Beta");
    reveal_strlit("beta");
    reveal_strlit("Internal");
    reveal_strlit("internal");
    reveal_strlit("Dev");
    reveal_strlit("dev");
    reveal_strlit("RC");
    reveal_strlit("rc");
    let d = decimal_string(c as nat);
    assert(d =~= seq![digit_char(c as int)]);
    assert(digit_char(c as int) == ((c + 48) as char));
    if c == 0 {
        assert(d =~= "0"@);
    } else if c == 1 {
        assert(d =~= "1"@);
        assert(d[0] != "0"@[0]);
        assert(d.len() != "individual"@.len());
        assert(d.len() != "Individual"@.len());
    } else if c == 2 {
        assert(d =~= "2"@);
        assert(d[0] != "0"@[0]);
        assert(d.len() != "individual"@.len());
        assert(d.len() != "Individual"@.len());
        assert(d[0] != "1"@[0]);
        assert(d.len() != "Public"@.len());
        assert(d.len() != "public"@.len());
    } else if c == 3 {
        assert(d =~= "3"@);
        assert(d[0] != "0"@[0]);
        assert(d.len() != "individual"@.len());
        assert(d.len() != "Individual"@.len());
        assert(d[0] != "1"@[0]);
        assert(d.len() != "Public"@.len());
        assert(d.len() != "public"@.len());
        assert(d[0] != "2"@[0]);
        assert(d.len() != "Beta"@.len());
        assert(d.len() != "beta"@.len());
    } else if c == 4 {
        assert(d =~= "4"@);
        assert(d[0] != "0"@[0]);
        assert(d.len() != "individual"@.len());
        assert(d.len() != "Individual"@.len());
        assert(d[0] != "1"@[0]);
        assert(d.len() != "Public"@.len());
        assert(d.len() != "public"@.len());
        assert(d[0] != "2"@[0]);
        assert(d.len() != "Beta"@.len());
        assert(d.len() != "beta"@.len());
        assert(d[0] != "3"@[0]);
        assert(d.len() != "Internal"@.len());
        assert(d.len() != "internal"@.len());
    } else if c == 5 {
        assert(d =~= "5"@);
        assert(d[0] != "0"@[0]);
        assert(d.len() != "individual"@.len());
        assert(d.len() != "Individual"@.len());
        assert(d[0] != "1"@[0]);
        assert(d.len() != "Public"@.len());
        assert(d.len() != "public"@.len());
        assert(d[0] != "2"@[0]);
        assert(d.len() != "Beta"@.len());
        assert(d.len() != "beta"@.len());
        assert(d[0] != "3"@[0]);
        assert(d.len() != "Internal"@.len());
        assert(d.len() != "internal"@.len());
        assert(d[0] != "4"@[0]);
        assert(d.len() != "Dev"@.len());
        assert(d.len() != "dev"@.len());
    }
}

impl std::str::FromStr for Universe {
    type Err = ParseUniverseError;

    fn from_str(value: &str) -> (r: Result<Universe, ParseUniverseError>)
        ensures
            match universe_of_name(value@) {
                Some(u) => r == Ok::<Universe, ParseUniverseError>(u),
                None => r is Err,
            },
    {
        Universe::parse(value)
    }
}

} // verus!
