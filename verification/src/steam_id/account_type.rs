use vstd::prelude::*;

use crate::steam_id::bits::{raw_account_type, ACCOUNT_TYPE_MASK};
use crate::text::{chars_of, range_eq};

verus! {

/// The kind of account a SteamID belongs to.
#[derive(Debug, Clone, Copy, PartialEq, Eq, Hash, PartialOrd, Ord, Structural)]
pub enum AccountType {
    Invalid,
    Individual,
    Multiseat,
    GameServer,
    AnonGameServer,
    Pending,
    ContentServer,
    Clan,
    Chat,
    P2PSuperSeeder,
    AnonUser,
}

/// A string did not name an account type.
#[derive(Debug, Clone, Copy, PartialEq, Eq)]
pub struct ParseAccountTypeError {
    _priv: (),
}

/// The account type with the numeric code `c`.
pub open spec fn account_type_of_code(c: u64) -> Option<AccountType> {
    if c == 0 {
        Some(AccountType::Invalid)
    } else if c == 1 {
        Some(AccountType::Individual)
    } else if c == 2 {
        Some(AccountType::Multiseat)
    } else if c == 3 {
        Some(AccountType::GameServer)
    } else if c == 4 {
        Some(AccountType::AnonGameServer)
    } else if c == 5 {
        Some(AccountType::Pending)
    } else if c == 6 {
        Some(AccountType::ContentServer)
    } else if c == 7 {
        Some(AccountType::Clan)
    } else if c == 8 {
        Some(AccountType::Chat)
    } else if c == 9 {
        Some(AccountType::P2PSuperSeeder)
    } else if c == 10 {
        Some(AccountType::AnonUser)
    } else {
        None
    }
}

/// The account type that `s` names, by number, name or letter.
#[verifier::opaque]
pub open spec fn account_type_of_name(s: Seq<char>) -> Option<AccountType> {
    if s == "0"@ || s == "Invalid"@ || s == "invalid"@ || s == "I"@ || s == "i"@ {
        Some(AccountType::Invalid)
    } else if s == "1"@ || s == "Individual"@ || s == "individual"@ || s == "U"@ {
        Some(AccountType::Individual)
    } else if s == "2"@ || s == "Multiseat"@ || s == "multiseat"@ || s == "M"@ {
        Some(AccountType::Multiseat)
    } else if s == "3"@ || s == "GameServer"@ || s == "gameserver"@ || s == "G"@ {
        Some(AccountType::GameServer)
    } else if s == "4"@ || s == "AnonGameServer"@ || s == "anongameserver"@ || s == "A"@ {
        Some(AccountType::AnonGameServer)
    } else if s == "5"@ || s == "Pending"@ || s == "pending"@ || s == "P"@ {
        Some(AccountType::Pending)
    } else if s == "6"@ || s == "ContentServer"@ || s == "contentserver"@ || s == "C"@ {
        Some(AccountType::ContentServer)
    } else if s == "7"@ || s == "Clan"@ || s == "clan"@ || s == "g"@ {
        Some(AccountType::Clan)
    } else if s == "8"@ || s == "Chat"@ || s == "chat"@ || s == "T"@ || s == "L"@ || s == "c"@ {
        Some(AccountType::Chat)
    } else if s == "9"@ || s == "P2PSuperSeeder"@ || s == "p2psuperseeder"@ {
        Some(AccountType::P2PSuperSeeder)
    } else if s == "10"@ || s == "AnonUser"@ || s == "anonuser"@ || s == "a"@ {
        Some(AccountType::AnonUser)
    } else {
        None
    }
}

impl ParseAccountTypeError {
    pub(crate) fn new() -> ParseAccountTypeError {
        ParseAccountTypeError { _priv: () }
    }
}

impl AccountType {
    /// The numeric code of this account type.
    pub open spec fn code(self) -> u64 {
        match self {
            AccountType::Invalid => 0,
            AccountType::Individual => 1,
            AccountType::Multiseat => 2,
            AccountType::GameServer => 3,
            AccountType::AnonGameServer => 4,
            AccountType::Pending => 5,
            AccountType::ContentServer => 6,
            AccountType::Clan => 7,
            AccountType::Chat => 8,
            AccountType::P2PSuperSeeder => 9,
            AccountType::AnonUser => 10,
        }
    }

    /// The letter used for this account type in the community ID format.
    pub open spec fn letter(self) -> char {
        match self {
            AccountType::Invalid => 'I',
            AccountType::Individual => 'U',
            AccountType::Multiseat => 'M',
            AccountType::GameServer => 'G',
            AccountType::AnonGameServer => 'A',
            AccountType::Pending => 'P',
            AccountType::ContentServer => 'C',
            AccountType::Clan => 'g',
            AccountType::Chat => 'T',
            AccountType::P2PSuperSeeder => '\0',
            AccountType::AnonUser => 'a',
        }
    }

    /// The numeric code of this account type.
    pub fn as_u8(&self) -> (r: u8)
        ensures
            r as u64 == self.code(),
    {
        match self {
            AccountType::Invalid => 0,
            AccountType::Individual => 1,
            AccountType::Multiseat => 2,
            AccountType::GameServer => 3,
            AccountType::AnonGameServer => 4,
            AccountType::Pending => 5,
            AccountType::ContentServer => 6,
            AccountType::Clan => 7,
            AccountType::Chat => 8,
            AccountType::P2PSuperSeeder => 9,
            AccountType::AnonUser => 10,
        }
    }

    /// The fixed high bits that individual and clan SteamIDs carry.
    pub fn identifier(&self) -> (r: Option<u64>)
        ensures
            r == (match self {
                AccountType::Individual => Some(0x0110_0001_0000_0000u64),
                AccountType::Clan => Some(0x0170_0000_0000_0000u64),
                _ => None::<u64>,
            }),
    {
        match self {
            AccountType::Individual => Some(0x0110_0001_0000_0000u64),
            AccountType::Clan => Some(0x0170_0000_0000_0000u64),
            _ => None,
        }
    }

    /// The letter used for this account type in the community ID format.
    pub fn as_char(&self) -> (c: char)
        ensures
            c == self.letter(),
    {
        match self {
            AccountType::Invalid => 'I',
            AccountType::Individual => 'U',
            AccountType::Multiseat => 'M',
            AccountType::GameServer => 'G',
            AccountType::AnonGameServer => 'A',
            AccountType::Pending => 'P',
            AccountType::ContentServer => 'C',
            AccountType::Clan => 'g',
            AccountType::Chat => 'T',
            AccountType::P2PSuperSeeder => '\0',
            AccountType::AnonUser => 'a',
        }
    }

    /// Reads the account type from bits 52..=55 of a 64-bit SteamID.
    pub(crate) fn from_u64(value: u64) -> (r: Option<AccountType>)
        ensures
            r == account_type_of_code(raw_account_type(value)),
    {
        match (value & ACCOUNT_TYPE_MASK) >> 52 {
            0 => Some(AccountType::Invalid),
            1 => Some(AccountType::Individual),
            2 => Some(AccountType::Multiseat),
            3 => Some(AccountType::GameServer),
            4 => Some(AccountType::AnonGameServer),
            5 => Some(AccountType::Pending),
            6 => Some(AccountType::ContentServer),
            7 => Some(AccountType::Clan),
            8 => Some(AccountType::Chat),
            9 => Some(AccountType::P2PSuperSeeder),
            10 => Some(AccountType::AnonUser),
            _ => None,
        }
    }

    /// Reads an account type from `cs[lo..hi]`.
    pub(crate) fn from_chars(cs: &Vec<char>, lo: usize, hi: usize) -> (r: Option<AccountType>)
        requires
            lo <= hi <= cs@.len(),
        ensures
            r == account_type_of_name(cs@.subrange(lo as int, hi as int)),
    {
        reveal(account_type_of_name);
        if range_eq(cs, lo, hi, "0") || range_eq(cs, lo, hi, "Invalid") || range_eq(cs, lo, hi, "invalid")
            || range_eq(cs, lo, hi, "I") || range_eq(cs, lo, hi, "i") {
            Some(AccountType::Invalid)
        } else if range_eq(cs, lo, hi, "1") || range_eq(cs, lo, hi, "Individual") || range_eq(cs, lo, hi, "individual")
            || range_eq(cs, lo, hi, "U") {
            Some(AccountType::Individual)
        } else if range_eq(cs, lo, hi, "2") || range_eq(cs, lo, hi, "Multiseat") || range_eq(cs, lo, hi, "multiseat")
            || range_eq(cs, lo, hi, "M") {
            Some(AccountType::Multiseat)
        } else if range_eq(cs, lo, hi, "3") || range_eq(cs, lo, hi, "GameServer") || range_eq(cs, lo, hi, "gameserver")
            || range_eq(cs, lo, hi, "G") {
            Some(AccountType::GameServer)
        } else if range_eq(cs, lo, hi, "4") || range_eq(cs, lo, hi, "AnonGameServer") || range_eq(
            cs,
            lo,
            hi,
            "anongameserver",
        ) || range_eq(cs, lo, hi, "A") {
            Some(AccountType::AnonGameServer)
        } else if range_eq(cs, lo, hi, "5") || range_eq(cs, lo, hi, "Pending") || range_eq(cs, lo, hi, "pending")
            || range_eq(cs, lo, hi, "P") {
            Some(AccountType::Pending)
        } else if range_eq(cs, lo, hi, "6") || range_eq(cs, lo, hi, "ContentServer") || range_eq(
            cs,
            lo,
            hi,
            "contentserver",
        ) || range_eq(cs, lo, hi, "C") {
            Some(AccountType::ContentServer)
        } else if range_eq(cs, lo, hi, "7") || range_eq(cs, lo, hi, "Clan") || range_eq(cs, lo, hi, "clan")
            || range_eq(cs, lo, hi, "g") {
            Some(AccountType::Clan)
        } else if range_eq(cs, lo, hi, "8") || range_eq(cs, lo, hi, "Chat") || range_eq(cs, lo, hi, "chat")
            || range_eq(cs, lo, hi, "T") || range_eq(cs, lo, hi, "L") || range_eq(cs, lo, hi, "c") {
            Some(AccountType::Chat)
        } else if range_eq(cs, lo, hi, "9") || range_eq(cs, lo, hi, "P2PSuperSeeder") || range_eq(
            cs,
            lo,
            hi,
            "p2psuperseeder",
        ) {
            Some(AccountType::P2PSuperSeeder)
        } else if range_eq(cs, lo, hi, "10") || range_eq(cs, lo, hi, "AnonUser") || range_eq(cs, lo, hi, "anonuser")
            || range_eq(cs, lo, hi, "a") {
            Some(AccountType::AnonUser)
        } else {
            None
        }
    }

    /// Parses an account type from its number, name or letter.
    pub fn parse(value: &str) -> (r: Result<AccountType, ParseAccountTypeError>)
        ensures
            match account_type_of_name(value@) {
                Some(t) => r == Ok::<AccountType, ParseAccountTypeError>(t),
                None => r is Err,
            },
    {
        let cs = chars_of(value);
        assert(cs@.subrange(0, cs@.len() as int) =~= value@);
        match AccountType::from_chars(&cs, 0, cs.len()) {
            Some(t) => Ok(t),
            None => Err(ParseAccountTypeError { _priv: () }),
        }
    }
}

/// Every account type but `P2PSuperSeeder` (whose letter is the NUL character) is read back
/// from its letter.
pub proof fn law_account_type_of_letter(t: AccountType)
    requires
        t != AccountType::P2PSuperSeeder,
    ensures
        account_type_of_name(seq![t.letter()]) == Some(t),
{
    reveal(account_type_of_name);
    reveal_strlit("0");
    reveal_strlit("1");
    reveal_strlit("10");
    reveal_strlit("2");
    reveal_strlit("3");
    reveal_strlit("4");
    reveal_strlit("5");
    reveal_strlit("6");
    reveal_strlit("7");
    reveal_strlit("8");
    reveal_strlit("9");
    reveal_strlit("A");
    reveal_strlit("AnonGameServer");
    reveal_strlit("AnonUser");
    reveal_strlit("C");
    reveal_strlit("Chat");
    reveal_strlit("Clan");
    reveal_strlit("ContentServer");
    reveal_strlit("G");
    reveal_strlit("GameServer");
    reveal_strlit("I");
    reveal_strlit("Individual");
    reveal_strlit("Invalid");
    reveal_strlit("L");
    reveal_strlit("M");
    reveal_strlit("Multiseat");
    reveal_strlit("P");
    reveal_strlit("P2PSuperSeeder");
    reveal_strlit("Pending");
    reveal_strlit("T");
    reveal_strlit("U");
    reveal_strlit("a");
    reveal_strlit("anongameserver");
    reveal_strlit("anonuser");
    reveal_strlit("c");
    reveal_strlit("chat");
    reveal_strlit("clan");
    reveal_strlit("contentserver");
    reveal_strlit("g");
    reveal_strlit("gameserver");
    reveal_strlit("i");
    reveal_strlit("individual");
    reveal_strlit("invalid");
    reveal_strlit("multiseat");
    reveal_strlit("p2psuperseeder");
    reveal_strlit("pending");
    match t {
        AccountType::Invalid => {
            assert(seq!['I'] =~= "I"@);
            assert(account_type_of_name(seq![t.letter()]) == Some(t));
        },
        AccountType::Individual => {
            assert(seq!['U'] =~= "U"@);
            assert(seq!['U'] != "0"@) by {
                assert(seq!['U'][0] != "0"@[0]);
            }
            assert(seq!['U'].len() != "Invalid"@.len());
            assert(seq!['U'].len() != "invalid"@.len());
            assert(seq!['U'] != "I"@) by {
                assert(seq!['U'][0] != "I"@[0]);
            }
            assert(seq!['U'] != "i"@) by {
                assert(seq!['U'][0] != "i"@[0]);
            }
            assert(account_type_of_name(seq![t.letter()]) == Some(t));
        },
        AccountType::Multiseat => {
            assert(seq!['M'] =~= "M"@);
            assert(seq!['M'] != "0"@) by {
                assert(seq!['M'][0] != "0"@[0]);
            }
            assert(seq!['M'].len() != "Invalid"@.len());
            assert(seq!['M'].len() != "invalid"@.len());
            assert(seq!['M'] != "I"@) by {
                assert(seq!['M'][0] != "I"@[0]);
            }
            assert(seq!['M'] != "i"@) by {
                assert(seq!['M'][0] != "i"@[0]);
            }
            assert(seq!['M'] != "1"@) by {
                assert(seq!['M'][0] != "1"@[0]);
            }
            assert(seq!['M'].len() != "Individual"@.len());
            assert(seq!['M'].len() != "individual"@.len());
            assert(seq!['M'] != "U"@) by {
                assert(seq!['M'][0] != "U"@[0]);
            }
            assert(account_type_of_name(seq![t.letter()]) == Some(t));
        },
        AccountType::GameServer => {
            assert(seq!['G'] =~= "G"@);
            assert(seq!['G'] != "0"@) by {
                assert(seq!['G'][0] != "0"@[0]);
            }
            assert(seq!['G'].len() != "Invalid"@.len());
            assert(seq!['G'].len() != "invalid"@.len());
            assert(seq!['G'] != "I"@) by {
                assert(seq!['G'][0] != "I"@[0]);
            }
            assert(seq!['G'] != "i"@) by {
                assert(seq!['G'][0] != "i"@[0]);
            }
            assert(seq!['G'] != "1"@) by {
                assert(seq!['G'][0] != "1"@[0]);
            }
            assert(seq!['G'].len() != "Individual"@.len());
            assert(seq!['G'].len() != "individual"@.len());
            assert(seq!['G'] != "U"@) by {
                assert(seq!['G'][0] != "U"@[0]);
            }
            assert(seq!['G'] != "2"@) by {
                assert(seq!['G'][0] != "2"@[0]);
            }
            assert(seq!['G'].len() != "Multiseat"@.len());
            assert(seq!['G'].len() != "multiseat"@.len());
            assert(seq!['G'] != "M"@) by {
                assert(seq!['G'][0] != "M"@[0]);
            }
            assert(account_type_of_name(seq![t.letter()]) == Some(t));
        },
        AccountType::AnonGameServer => {
            assert(seq!['A'] =~= "A"@);
            assert(seq!['A'] != "0"@) by {
                assert(seq!['A'][0] != "0"@[0]);
            }
            assert(seq!['A'].len() != "Invalid"@.len());
            assert(seq!['A'].len() != "invalid"@.len());
            assert(seq!['A'] != "I"@) by {
                assert(seq!['A'][0] != "I"@[0]);
            }
            assert(seq!['A'] != "i"@) by {
                assert(seq!['A'][0] != "i"@[0]);
            }
            assert(seq!['A'] != "1"@) by {
                assert(seq!['A'][0] != "1"@[0]);
            }
            assert(seq!['A'].len() != "Individual"@.len());
            assert(seq!['A'].len() != "individual"@.len());
            assert(seq!['A'] != "U"@) by {
                assert(seq!['A'][0] != "U"@[0]);
            }
            assert(seq!['A'] != "2"@) by {
                assert(seq!['A'][0] != "2"@[0]);
            }
            assert(seq!['A'].len() != "Multiseat"@.len());
            assert(seq!['A'].len() != "multiseat"@.len());
            assert(seq!['A'] != "M"@) by {
                assert(seq!['A'][0] != "M"@[0]);
            }
            assert(seq!['A'] != "3"@) by {
                assert(seq!['A'][0] != "3"@[0]);
            }
            assert(seq!['A'].len() != "GameServer"@.len());
            assert(seq!['A'].len() != "gameserver"@.len());
            assert(seq!['A'] != "G"@) by {
                assert(seq!['A'][0] != "G"@[0]);
            }
            assert(account_type_of_name(seq![t.letter()]) == Some(t));
        },
        AccountType::Pending => {
            assert(seq!['P'] =~= "P"@);
            assert(seq!['P'] != "0"@) by {
                assert(seq!['P'][0] != "0"@[0]);
            }
            assert(seq!['P'].len() != "Invalid"@.len());
            assert(seq!['P'].len() != "invalid"@.len());
            assert(seq!['P'] != "I"@) by {
                assert(seq!['P'][0] != "I"@[0]);
            }
            assert(seq!['P'] != "i"@) by {
                assert(seq!['P'][0] != "i"@[0]);
            }
            assert(seq!['P'] != "1"@) by {
                assert(seq!['P'][0] != "1"@[0]);
            }
            assert(seq!['P'].len() != "Individual"@.len());
            assert(seq!['P'].len() != "individual"@.len());
            assert(seq!['P'] != "U"@) by {
                assert(seq!['P'][0] != "U"@[0]);
            }
            assert(seq!['P'] != "2"@) by {
                assert(seq!['P'][0] != "2"@[0]);
            }
            assert(seq!['P'].len() != "Multiseat"@.len());
            assert(seq!['P'].len() != "multiseat"@.len());
            assert(seq!['P'] != "M"@) by {
                assert(seq!['P'][0] != "M"@[0]);
            }
            assert(seq!['P'] != "3"@) by {
                assert(seq!['P'][0] != "3"@[0]);
            }
            assert(seq!['P'].len() != "GameServer"@.len());
            assert(seq!['P'].len() != "gameserver"@.len());
            assert(seq!['P'] != "G"@) by {
                assert(seq!['P'][0] != "G"@[0]);
            }
            assert(seq!['P'] != "4"@) by {
                assert(seq!['P'][0] != "4"@[0]);
            }
            assert(seq!['P'].len() != "AnonGameServer"@.len());
            assert(seq!['P'].len() != "anongameserver"@.len());
            assert(seq!['P'] != "A"@) by {
                assert(seq!['P'][0] != "A"@[0]);
            }
            assert(account_type_of_name(seq![t.letter()]) == Some(t));
        },
        AccountType::ContentServer => {
            assert(seq!['C'] =~= "C"@);
            assert(seq!['C'] != "0"@) by {
                assert(seq!['C'][0] != "0"@[0]);
            }
            assert(seq!['C'].len() != "Invalid"@.len());
            assert(seq!['C'].len() != "invalid"@.len());
            assert(seq!['C'] != "I"@) by {
                assert(seq!['C'][0] != "I"@[0]);
            }
            assert(seq!['C'] != "i"@) by {
                assert(seq!['C'][0] != "i"@[0]);
            }
            assert(seq!['C'] != "1"@) by {
                assert(seq!['C'][0] != "1"@[0]);
            }
            assert(seq!['C'].len() != "Individual"@.len());
            assert(seq!['C'].len() != "individual"@.len());
            assert(seq!['C'] != "U"@) by {
                assert(seq!['C'][0] != "U"@[0]);
            }
            assert(seq!['C'] != "2"@) by {
                assert(seq!['C'][0] != "2"@[0]);
            }
            assert(seq!['C'].len() != "Multiseat"@.len());
            assert(seq!['C'].len() != "multiseat"@.len());
            assert(seq!['C'] != "M"@) by {
                assert(seq!['C'][0] != "M"@[0]);
            }
            assert(seq!['C'] != "3"@) by {
                assert(seq!['C'][0] != "3"@[0]);
            }
            assert(seq!['C'].len() != "GameServer"@.len());
            assert(seq!['C'].len() != "gameserver"@.len());
            assert(seq!['C'] != "G"@) by {
                assert(seq!['C'][0] != "G"@[0]);
            }
            assert(seq!['C'] != "4"@) by {
                assert(seq!['C'][0] != "4"@[0]);
            }
            assert(seq!['C'].len() != "AnonGameServer"@.len());
            assert(seq!['C'].len() != "anongameserver"@.len());
            assert(seq!['C'] != "A"@) by {
                assert(seq!['C'][0] != "A"@[0]);
            }
            assert(seq!['C'] != "5"@) by {
                assert(seq!['C'][0] != "5"@[0]);
            }
            assert(seq!['C'].len() != "Pending"@.len());
            assert(seq!['C'].len() != "pending"@.len());
            assert(seq!['C'] != "P"@) by {
                assert(seq!['C'][0] != "P"@[0]);
            }
            assert(account_type_of_name(seq![t.letter()]) == Some(t));
        },
        AccountType::Clan => {
            assert(seq!['g'] =~= "g"@);
            assert(seq!['g'] != "0"@) by {
                assert(seq!['g'][0] != "0"@[0]);
            }
            assert(seq!['g'].len() != "Invalid"@.len());
            assert(seq!['g'].len() != "invalid"@.len());
            assert(seq!['g'] != "I"@) by {
                assert(seq!['g'][0] != "I"@[0]);
            }
            assert(seq!['g'] != "i"@) by {
                assert(seq!['g'][0] != "i"@[0]);
            }
            assert(seq!['g'] != "1"@) by {
                assert(seq!['g'][0] != "1"@[0]);
            }
            assert(seq!['g'].len() != "Individual"@.len());
            assert(seq!['g'].len() != "individual"@.len());
            assert(seq!['g'] != "U"@) by {
                assert(seq!['g'][0] != "U"@[0]);
            }
            assert(seq!['g'] != "2"@) by {
                assert(seq!['g'][0] != "2"@[0]);
            }
            assert(seq!['g'].len() != "Multiseat"@.len());
            assert(seq!['g'].len() != "multiseat"@.len());
            assert(seq!['g'] != "M"@) by {
                assert(seq!['g'][0] != "M"@[0]);
            }
            assert(seq!['g'] != "3"@) by {
                assert(seq!['g'][0] != "3"@[0]);
            }
            assert(seq!['g'].len() != "GameServer"@.len());
            assert(seq!['g'].len() != "gameserver"@.len());
            assert(seq!['g'] != "G"@) by {
                assert(seq!['g'][0] != "G"@[0]);
            }
            assert(seq!['g'] != "4"@) by {
                assert(seq!['g'][0] != "4"@[0]);
            }
            assert(seq!['g'].len() != "AnonGameServer"@.len());
            assert(seq!['g'].len() != "anongameserver"@.len());
            assert(seq!['g'] != "A"@) by {
                assert(seq!['g'][0] != "A"@[0]);
            }
            assert(seq!['g'] != "5"@) by {
                assert(seq!['g'][0] != "5"@[0]);
            }
            assert(seq!['g'].len() != "Pending"@.len());
            assert(seq!['g'].len() != "pending"@.len());
            assert(seq!['g'] != "P"@) by {
                assert(seq!['g'][0] != "P"@[0]);
            }
            assert(seq!['g'] != "6"@) by {
                assert(seq!['g'][0] != "6"@[0]);
            }
            assert(seq!['g'].len() != "ContentServer"@.len());
            assert(seq!['g'].len() != "contentserver"@.len());
            assert(seq!['g'] != "C"@) by {
                assert(seq!['g'][0] != "C"@[0]);
            }
            assert(account_type_of_name(seq![t.letter()]) == Some(t));
        },
        AccountType::Chat => {
            assert(seq!['T'] =~= "T"@);
            assert(seq!['T'] != "0"@) by {
                assert(seq!['T'][0] != "0"@[0]);
            }
            assert(seq!['T'].len() != "Invalid"@.len());
            assert(seq!['T'].len() != "invalid"@.len());
            assert(seq!['T'] != "I"@) by {
                assert(seq!['T'][0] != "I"@[0]);
            }
            assert(seq!['T'] != "i"@) by {
                assert(seq!['T'][0] != "i"@[0]);
            }
            assert(seq!['T'] != "1"@) by {
                assert(seq!['T'][0] != "1"@[0]);
            }
            assert(seq!['T'].len() != "Individual"@.len());
            assert(seq!['T'].len() != "individual"@.len());
            assert(seq!['T'] != "U"@) by {
                assert(seq!['T'][0] != "U"@[0]);
            }
            assert(seq!['T'] != "2"@) by {
                assert(seq!['T'][0] != "2"@[0]);
            }
            assert(seq!['T'].len() != "Multiseat"@.len());
            assert(seq!['T'].len() != "multiseat"@.len());
            assert(seq!['T'] != "M"@) by {
                assert(seq!['T'][0] != "M"@[0]);
            }
            assert(seq!['T'] != "3"@) by {
                assert(seq!['T'][0] != "3"@[0]);
            }
            assert(seq!['T'].len() != "GameServer"@.len());
            assert(seq!['T'].len() != "gameserver"@.len());
            assert(seq!['T'] != "G"@) by {
                assert(seq!['T'][0] != "G"@[0]);
            }
            assert(seq!['T'] != "4"@) by {
                assert(seq!['T'][0] != "4"@[0]);
            }
            assert(seq!['T'].len() != "AnonGameServer"@.len());
            assert(seq!['T'].len() != "anongameserver"@.len());
            assert(seq!['T'] != "A"@) by {
                assert(seq!['T'][0] != "A"@[0]);
            }
            assert(seq!['T'] != "5"@) by {
                assert(seq!['T'][0] != "5"@[0]);
            }
            assert(seq!['T'].len() != "Pending"@.len());
            assert(seq!['T'].len() != "pending"@.len());
            assert(seq!['T'] != "P"@) by {
                assert(seq!['T'][0] != "P"@[0]);
            }
            assert(seq!['T'] != "6"@) by {
                assert(seq!['T'][0] != "6"@[0]);
            }
            assert(seq!['T'].len() != "ContentServer"@.len());
            assert(seq!['T'].len() != "contentserver"@.len());
            assert(seq!['T'] != "C"@) by {
                assert(seq!['T'][0] != "C"@[0]);
            }
            assert(seq!['T'] != "7"@) by {
                assert(seq!['T'][0] != "7"@[0]);
            }
            assert(seq!['T'].len() != "Clan"@.len());
            assert(seq!['T'].len() != "clan"@.len());
            assert(seq!['T'] != "g"@) by {
                assert(seq!['T'][0] != "g"@[0]);
            }
            assert(account_type_of_name(seq![t.letter()]) == Some(t));
        },
        AccountType::AnonUser => {
            assert(seq!['a'] =~= "a"@);
            assert(seq!['a'] != "0"@) by {
                assert(seq!['a'][0] != "0"@[0]);
            }
            assert(seq!['a'].len() != "Invalid"@.len());
            assert(seq!['a'].len() != "invalid"@.len());
            assert(seq!['a'] != "I"@) by {
                assert(seq!['a'][0] != "I"@[0]);
            }
            assert(seq!['a'] != "i"@) by {
                assert(seq!['a'][0] != "i"@[0]);
            }
            assert(seq!['a'] != "1"@) by {
                assert(seq!['a'][0] != "1"@[0]);
            }
            assert(seq!['a'].len() != "Individual"@.len());
            assert(seq!['a'].len() != "individual"@.len());
            assert(seq!['a'] != "U"@) by {
                assert(seq!['a'][0] != "U"@[0]);
            }
            assert(seq!['a'] != "2"@) by {
                assert(seq!['a'][0] != "2"@[0]);
            }
            assert(seq!['a'].len() != "Multiseat"@.len());
            assert(seq!['a'].len() != "multiseat"@.len());
            assert(seq!['a'] != "M"@) by {
                assert(seq!['a'][0] != "M"@[0]);
            }
            assert(seq!['a'] != "3"@) by {
                assert(seq!['a'][0] != "3"@[0]);
            }
            assert(seq!['a'].len() != "GameServer"@.len());
            assert(seq!['a'].len() != "gameserver"@.len());
            assert(seq!['a'] != "G"@) by {
                assert(seq!['a'][0] != "G"@[0]);
            }
            assert(seq!['a'] != "4"@) by {
                assert(seq!['a'][0] != "4"@[0]);
            }
            assert(seq!['a'].len() != "AnonGameServer"@.len());
            assert(seq!['a'].len() != "anongameserver"@.len());
            assert(seq!['a'] != "A"@) by {
                assert(seq!['a'][0] != "A"@[0]);
            }
            assert(seq!['a'] != "5"@) by {
                assert(seq!['a'][0] != "5"@[0]);
            }
            assert(seq!['a'].len() != "Pending"@.len());
            assert(seq!['a'].len() != "pending"@.len());
            assert(seq!['a'] != "P"@) by {
                assert(seq!['a'][0] != "P"@[0]);
            }
            assert(seq!['a'] != "6"@) by {
                assert(seq!['a'][0] != "6"@[0]);
            }
            assert(seq!['a'].len() != "ContentServer"@.len());
            assert(seq!['a'].len() != "contentserver"@.len());
            assert(seq!['a'] != "C"@) by {
                assert(seq!['a'][0] != "C"@[0]);
            }
            assert(seq!['a'] != "7"@) by {
                assert(seq!['a'][0] != "7"@[0]);
            }
            assert(seq!['a'].len() != "Clan"@.len());
            assert(seq!['a'].len() != "clan"@.len());
            assert(seq!['a'] != "g"@) by {
                assert(seq!['a'][0] != "g"@[0]);
            }
            assert(seq!['a'] != "8"@) by {
                assert(seq!['a'][0] != "8"@[0]);
            }
            assert(seq!['a'].len() != "Chat"@.len());
            assert(seq!['a'].len() != "chat"@.len());
            assert(seq!['a'] != "T"@) by {
                assert(seq!['a'][0] != "T"@[0]);
            }
            assert(seq!['a'] != "L"@) by {
                assert(seq!['a'][0] != "L"@[0]);
            }
            assert(seq!['a'] != "c"@) by {
                assert(seq!['a'][0] != "c"@[0]);
            }
            assert(seq!['a'] != "9"@) by {
                assert(seq!['a'][0] != "9"@[0]);
            }
            assert(seq!['a'].len() != "P2PSuperSeeder"@.len());
            assert(seq!['a'].len() != "p2psuperseeder"@.len());
            assert(account_type_of_name(seq![t.letter()]) == Some(t));
        },
        AccountType::P2PSuperSeeder => {},
    }
}

impl std::str::FromStr for AccountType {
    type Err = ParseAccountTypeError;

    fn from_str(value: &str) -> (r: Result<AccountType, ParseAccountTypeError>)
        ensures
            match account_type_of_name(value@) {
                Some(t) => r == Ok::<AccountType, ParseAccountTypeError>(t),
                None => r is Err,
            },
    {
        AccountType::parse(value)
    }
}

} // verus!
