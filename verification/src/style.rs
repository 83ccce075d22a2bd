//! The official gameplay styles of the CS2KZ plugin.

use vstd::prelude::*;

use crate::text::{str_eq, string_of};

verus! {

/// A gameplay style of the CS2KZ plugin.
#[derive(Debug, Clone, Copy, PartialEq, Eq, PartialOrd, Ord, Hash, Structural)]
pub enum Style {
    /// The normal style, the default.
    Normal,
    /// Perfect automatic bunnyhopping.
    AutoBhop,
}

/// The error for a string that names no style; it holds the lowercased string.
#[derive(Debug, Clone)]
pub struct UnknownStyle(pub String);

/// The error for an integer that is no style's ID; it holds the integer.
#[derive(Debug, Clone, Copy, PartialEq, Eq, Structural)]
pub struct InvalidStyleID(pub u8);

/// The lowercase form of `s`, as `str::to_lowercase` gives it.
pub uninterp spec fn lowercase(s: Seq<char>) -> Seq<char>;

/// Whether every character of `s` is ASCII.
pub open spec fn all_ascii(s: Seq<char>) -> bool {
    forall|i: int| 0 <= i < s.len() ==> (s[i] as u32) < 128
}

/// The ASCII lowercase of `c`: `A` to `Z` become `a` to `z`, every other character stays.
pub open spec fn ascii_lower_char(c: char) -> char {
    if 'A' <= c <= 'Z' {
        ((c as u32) + 32) as char
    } else {
        c
    }
}

/// The ASCII lowercase of `s` (`str::to_ascii_lowercase`).
pub open spec fn ascii_lowercase(s: Seq<char>) -> Seq<char> {
    s.map_values(|c: char| ascii_lower_char(c))
}

/// `str::to_lowercase`: each character of `s` replaced by its Unicode lowercase mapping. Its
/// result is named by [`lowercase`] and depends on `s` alone; on ASCII text the Unicode mapping
/// is the ASCII one (`A` to `Z` become `a` to `z`), and nothing more is stated of it.
#[verifier::external_body]
fn to_lowercase(s: &str) -> (r: String)
    ensures
        r@ == lowercase(s@),
        all_ascii(s@) ==> r@ == ascii_lowercase(s@),
{
    s.to_lowercase()
}

/// The ID of `style`.
pub open spec fn style_id(style: Style) -> u8 {
    match style {
        Style::Normal => 1u8,
        Style::AutoBhop => 2u8,
    }
}

/// The style whose ID is `v`.
pub open spec fn style_of_id(v: int) -> Option<Style> {
    if v == 1 {
        Some(Style::Normal)
    } else if v == 2 {
        Some(Style::AutoBhop)
    } else {
        None
    }
}

/// The style named by the lowercase string `s`.
pub open spec fn style_of_lowercase(s: Seq<char>) -> Option<Style> {
    if s == "nrm"@ || s == "normal"@ {
        Some(Style::Normal)
    } else if s == "abh"@ || s == "auto_bhop"@ || s == "auto-bhop"@ {
        Some(Style::AutoBhop)
    } else {
        None
    }
}

/// The name of `style` in the API.
pub open spec fn style_api_name(style: Style) -> Seq<char> {
    match style {
        Style::Normal => "normal"@,
        Style::AutoBhop => "auto_bhop"@,
    }
}

/// The short name of `style`, as shown in game.
pub open spec fn style_short_name(style: Style) -> Seq<char> {
    match style {
        Style::Normal => "NRM"@,
        Style::AutoBhop => "ABH"@,
    }
}

impl Style {
    /// Whether this is the normal style.
    pub fn is_normal(&self) -> (r: bool)
        ensures
            r == (*self == Style::Normal),
    {
        match self {
            Style::Normal => true,
            Style::AutoBhop => false,
        }
    }

    /// The name of this style, as the API accepts it.
    pub fn as_str(&self) -> (r: &'static str)
        ensures
            r@ == style_api_name(*self),
    {
        match self {
            Style::Normal => "normal",
            Style::AutoBhop => "auto_bhop",
        }
    }

    /// The short name of this style, as shown in game.
    pub fn as_str_short(&self) -> (r: &'static str)
        ensures
            r@ == style_short_name(*self),
    {
        match self {
            Style::Normal => "NRM",
            Style::AutoBhop => "ABH",
        }
    }

    /// The name of this style for display.
    pub fn display_name(&self) -> (r: &'static str)
        ensures
            r@ == (match *self {
                Style::Normal => "Normal"@,
                Style::AutoBhop => "Auto Bhop"@,
            }),
    {
        match self {
            Style::Normal => "Normal",
            Style::AutoBhop => "Auto Bhop",
        }
    }

    /// The ID of this style.
    pub fn as_u8(&self) -> (r: u8)
        ensures
            r == style_id(*self),
    {
        match self {
            Style::Normal => 1,
            Style::AutoBhop => 2,
        }
    }

    /// The style with the ID `value`.
    pub fn try_from_u8(value: u8) -> (r: Result<Style, InvalidStyleID>)
        ensures
            match style_of_id(value as int) {
                Some(s) => r == Ok::<Style, InvalidStyleID>(s),
                None => r == Err::<Style, InvalidStyleID>(InvalidStyleID(value)),
            },
    {
        match value {
            1 => Ok(Style::Normal),
            2 => Ok(Style::AutoBhop),
            invalid => Err(InvalidStyleID(invalid)),
        }
    }

    /// Reads a style from a string that is already in lowercase: `nrm` or `normal` name the
    /// normal style, `abh`, `auto_bhop` or `auto-bhop` the auto-bhop style; any other string
    /// is returned in the error.
    pub fn from_lowercase(value: &str) -> (r: Result<Style, UnknownStyle>)
        ensures
            match style_of_lowercase(value@) {
                Some(s) => r matches Ok(t) && t == s,
                None => r matches Err(e) && e.0@ == value@,
            },
    {
        if str_eq(value, "nrm") || str_eq(value, "normal") {
            Ok(Style::Normal)
        } else if str_eq(value, "abh") || str_eq(value, "auto_bhop") || str_eq(value, "auto-bhop") {
            Ok(Style::AutoBhop)
        } else {
            Err(UnknownStyle(string_of(value)))
        }
    }

    /// Reads a style from a string in any case: the string is lowercased first.
    pub fn parse(value: &str) -> (r: Result<Style, UnknownStyle>)
        ensures
            match style_of_lowercase(lowercase(value@)) {
                Some(s) => r matches Ok(t) && t == s,
                None => r matches Err(e) && e.0@ == lowercase(value@),
            },
            all_ascii(value@) ==> lowercase(value@) == ascii_lowercase(value@),
    {
        let lower = to_lowercase(value);
        Style::from_lowercase(lower.as_str())
    }
}

/// Every style's API name and short name, once lowercased, name that style again.
pub proof fn law_style_names_round_trip(style: Style)
    ensures
        style_of_id(style_id(style) as int) == Some(style),
        style_of_lowercase(style_api_name(style)) == Some(style),
{
    reveal_strlit("nrm");
    reveal_strlit("normal");
    reveal_strlit("abh");
    reveal_strlit("auto_bhop");
    reveal_strlit("auto-bhop");
    assert("auto_bhop"@.len() == 9 && "nrm"@.len() == 3 && "normal"@.len() == 6);
    assert("normal"@.len() == 6 && "nrm"@.len() == 3);
}

impl std::default::Default for Style {
    fn default() -> (r: Style)
        ensures
            r == Style::Normal,
    {
        Style::Normal
    }
}

impl std::convert::From<Style> for u8 {
    fn from(style: Style) -> u8 {
        style.as_u8()
    }
}

impl vstd::std_specs::convert::FromSpecImpl<Style> for u8 {
    open spec fn obeys_from_spec() -> bool {
        true
    }

    open spec fn from_spec(style: Style) -> u8 {
        style_id(style)
    }
}

impl std::convert::TryFrom<u8> for Style {
    type Error = InvalidStyleID;

    fn try_from(value: u8) -> Result<Style, InvalidStyleID> {
        Style::try_from_u8(value)
    }
}

impl vstd::std_specs::convert::TryFromSpecImpl<u8> for Style {
    open spec fn obeys_try_from_spec() -> bool {
        true
    }

    open spec fn try_from_spec(value: u8) -> Result<Style, InvalidStyleID> {
        match style_of_id(value as int) {
            Some(s) => Ok(s),
            None => Err(InvalidStyleID(value)),
        }
    }
}

impl std::str::FromStr for Style {
    type Err = UnknownStyle;

    fn from_str(value: &str) -> (r: Result<Style, UnknownStyle>)
        ensures
            match style_of_lowercase(lowercase(value@)) {
                Some(s) => r matches Ok(t) && t == s,
                None => r matches Err(e) && e.0@ == lowercase(value@),
            },
    {
        Style::parse(value)
    }
}

} // verus!
