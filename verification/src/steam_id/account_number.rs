use vstd::prelude::*;

use crate::steam_id::bits::{raw_account_number, ACCOUNT_NUMBER_MASK};
use crate::text::{chars_of, parse_unsigned, parse_unsigned_range, IntErrorKind, ParseIntError};

verus! {

/// The largest account number (31 bits).
pub const MAX_ACCOUNT_NUMBER: u32 = 0x7FFF_FFFFu32;

/// The account number of a SteamID (its `Z` segment, bits 1..=31).
#[derive(Debug, Clone, Copy, PartialEq, Eq, Hash, PartialOrd, Ord, Structural)]
pub struct AccountNumber(u32);

/// A string could not be read as an account number.
#[derive(Debug, Clone, Copy, PartialEq, Eq)]
pub struct ParseAccountNumberError {
    reason: ParseAccountNumberErrorReason,
}

/// Why a string could not be read as an account number.
#[derive(Debug, Clone, Copy, PartialEq, Eq)]
pub enum ParseAccountNumberErrorReason {
    /// The string is not a 32-bit unsigned integer.
    ParseInt(ParseIntError),
    /// The value does not fit in 31 bits.
    TooBig,
}

impl View for AccountNumber {
    type V = u32;

    closed spec fn view(&self) -> u32 {
        self.0
    }
}

impl View for ParseAccountNumberError {
    type V = ParseAccountNumberErrorReason;

    closed spec fn view(&self) -> ParseAccountNumberErrorReason {
        self.reason
    }
}

/// What reading `s` as an account number gives: its value, or why it is none.
pub open spec fn account_number_of(s: Seq<char>) -> Result<u32, ParseAccountNumberErrorReason> {
    match parse_unsigned(s, u32::MAX as int) {
        Err(kind) => Err(ParseAccountNumberErrorReason::ParseInt(ParseIntError { kind })),
        Ok(v) => if v <= MAX_ACCOUNT_NUMBER {
            Ok(v as u32)
        } else {
            Err(ParseAccountNumberErrorReason::TooBig)
        },
    }
}

impl AccountNumber {
    #[verifier::type_invariant]
    spec fn fits(self) -> bool {
        self.0 <= MAX_ACCOUNT_NUMBER
    }

    /// Accepts `value` if it fits in 31 bits.
    pub fn new(value: u32) -> (r: Option<AccountNumber>)
        ensures
            value <= MAX_ACCOUNT_NUMBER ==> (r matches Some(a) && a@ == value),
            value > MAX_ACCOUNT_NUMBER ==> r is None,
    {
        assert(u32::MAX >> 1u32 == 0x7FFF_FFFFu32) by (bit_vector);
        if value <= (u32::MAX >> 1) {
            Some(AccountNumber(value))
        } else {
            None
        }
    }

    pub fn get(&self) -> (r: u32)
        ensures
            r == self@,
            r <= MAX_ACCOUNT_NUMBER,
    {
        proof {
            use_type_invariant(self);
        }
        self.0
    }

    /// Reads the account number from bits 1..=31 of a 64-bit SteamID.
    pub(crate) fn from_u64(value: u64) -> (r: AccountNumber)
        ensures
            r@ == raw_account_number(value),
    {
        let v = (value & ACCOUNT_NUMBER_MASK) >> 1;
        assert(v <= 0x7FFF_FFFF) by (bit_vector)
            requires
                v == (value & 0x0000_0000_FFFF_FFFEu64) >> 1u64,
        ;
        AccountNumber(v as u32)
    }

    /// Reads an account number from `cs[lo..hi]`.
    pub(crate) fn from_chars(cs: &Vec<char>, lo: usize, hi: usize) -> (r: Result<
        AccountNumber,
        ParseAccountNumberError,
    >)
        requires
            lo <= hi <= cs@.len(),
        ensures
            match r {
                Ok(a) => account_number_of(cs@.subrange(lo as int, hi as int)) == Ok::<
                    u32,
                    ParseAccountNumberErrorReason,
                >(a@),
                Err(e) => account_number_of(cs@.subrange(lo as int, hi as int)) == Err::<
                    u32,
                    ParseAccountNumberErrorReason,
                >(e@),
            },
    {
        match parse_unsigned_range(cs, lo, hi, u32::MAX as u64) {
            Err(e) => Err(ParseAccountNumberError { reason: ParseAccountNumberErrorReason::ParseInt(e) }),
            Ok(v) => {
                if v <= 0x7FFF_FFFF {
                    Ok(AccountNumber(v as u32))
                } else {
                    Err(ParseAccountNumberError { reason: ParseAccountNumberErrorReason::TooBig })
                }
            },
        }
    }

    /// Parses an account number written in decimal.
    pub fn parse(value: &str) -> (r: Result<AccountNumber, ParseAccountNumberError>)
        ensures
            match r {
                Ok(a) => account_number_of(value@) == Ok::<u32, ParseAccountNumberErrorReason>(a@),
                Err(e) => account_number_of(value@) == Err::<u32, ParseAccountNumberErrorReason>(e@),
            },
    {
        let cs = chars_of(value);
        assert(cs@.subrange(0, cs@.len() as int) =~= value@);
        AccountNumber::from_chars(&cs, 0, cs.len())
    }
}

impl ParseAccountNumberError {
    /// Why the string could not be read.
    pub fn reason(&self) -> (r: ParseAccountNumberErrorReason)
        ensures
            r == self@,
    {
        self.reason
    }
}

impl std::str::FromStr for AccountNumber {
    type Err = ParseAccountNumberError;

    fn from_str(value: &str) -> (r: Result<AccountNumber, ParseAccountNumberError>)
        ensures
            match r {
                Ok(a) => account_number_of(value@) == Ok::<u32, ParseAccountNumberErrorReason>(a@),
                Err(e) => account_number_of(value@) == Err::<u32, ParseAccountNumberErrorReason>(e@),
            },
    {
        AccountNumber::parse(value)
    }
}

} // verus!
