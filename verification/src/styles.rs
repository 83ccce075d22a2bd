//! Gameplay styles as single bits, and sets of them as bit sets.



use vstd::prelude::*;
use vstd::std_specs::ops::{BitAndSpecImpl, BitOrSpecImpl, BitXorSpecImpl};

use crate::text::str_eq;

verus! {

/// The bit of the auto-bhop style.
pub const AUTO_BHOP: u32 = 1u32;

/// The bits that name a style.
pub const ALL_STYLES: u32 = 1u32;

/// A gameplay style.
#[derive(Debug, Clone, Copy, PartialEq, Eq, Hash, Structural)]
pub enum Style {
    AutoBhop,
}

/// A set of styles.
#[derive(Debug, Clone, Copy, PartialEq, Eq, Structural)]
pub struct Styles(u32);

/// Iterates over the styles of a set, lowest bit first.
#[derive(Debug, Clone, Copy)]
pub struct StyleIter {
    bits: u32,
}

/// A string or bit did not name a style.
#[derive(Debug, Clone, Copy, PartialEq, Eq)]
pub struct UnknownStyle {
    _priv: (),
}

/// The bit of a style.
pub open spec fn style_bit(s: Style) -> u32 {
    match s {
        Style::AutoBhop => AUTO_BHOP,
    }
}

/// The style with the bit `b`.
pub open spec fn style_of_bit(b: u32) -> Option<Style> {
    if b == AUTO_BHOP {
        Some(Style::AutoBhop)
    } else {
        None
    }
}

/// The style that the string `s` names.
pub open spec fn style_of_name(s: Seq<char>) -> Option<Style> {
    if s == "autobhop"@ || s == "auto-bhop"@ {
        Some(Style::AutoBhop)
    } else {
        None
    }
}

impl View for Styles {
    type V = u32;

    closed spec fn view(&self) -> u32 {
        self.0
    }
}

impl View for StyleIter {
    type V = u32;

    closed spec fn view(&self) -> u32 {
        self.bits
    }
}

/// Whether the set `bits` holds the style `s`.
pub open spec fn has_style(bits: u32, s: Style) -> bool {
    bits & style_bit(s) != 0
}

/// The bits of all styles in `s`.
pub open spec fn bits_of_styles(s: Seq<Style>) -> u32
    decreases s.len(),
{
    if s.len() == 0 {
        0
    } else {
        bits_of_styles(s.drop_last()) | style_bit(s.last())
    }
}

/// A style is in the set built from a list of styles exactly when the list holds it.
pub proof fn law_from_styles_members(s: Seq<Style>, style: Style)
    ensures
        has_style(bits_of_styles(s), style) == s.contains(style),
    decreases s.len(),
{
    if s.len() > 0 {
        law_from_styles_members(s.drop_last(), style);
        let b = bits_of_styles(s.drop_last());
        assert((b | 1u32) & 1u32 != 0) by (bit_vector);
        assert(s.last() == style);
        assert(s.contains(style)) by {
            assert(s[s.len() - 1] == style);
        }
    } else {
        assert(0u32 & 1u32 == 0) by (bit_vector);
    }
}

/// Union, intersection and symmetric difference of sets of known style bits hold only known
/// style bits.
proof fn lemma_ops_keep_known_bits(a: u32, b: u32)
    by (bit_vector)
    ensures
        a & !1u32 == 0 && b & !1u32 == 0 ==> (a | b) & !1u32 == 0,
        a & !1u32 == 0 ==> (a & b) & !1u32 == 0,
        a & !1u32 == 0 && b & !1u32 == 0 ==> (a ^ b) & !1u32 == 0,
{
}

/// The set with the bits `b`.
pub closed spec fn styles_of_bits(b: u32) -> Styles {
    Styles(b)
}

/// The set with the bits `b` has the bits `b`.
pub proof fn lemma_styles_of_bits(b: u32)
    ensures
        styles_of_bits(b)@ == b,
{
}

impl Style {
    /// The bit of this style.
    pub fn bit(&self) -> (r: u32)
        ensures
            r == style_bit(*self),
    {
        match self {
            Style::AutoBhop => AUTO_BHOP,
        }
    }

    /// The name of this style.
    pub fn as_str(&self) -> (r: &'static str)
        ensures
            r@ == (match self {
                Style::AutoBhop => "auto-bhop"@,
            }),
    {
        match self {
            Style::AutoBhop => "auto-bhop",
        }
    }

    /// Reads a style from its name.
    pub fn parse(value: &str) -> (r: Result<Style, UnknownStyle>)
        ensures
            match style_of_name(value@) {
                Some(s) => r == Ok::<Style, UnknownStyle>(s),
                None => r is Err,
            },
    {
        if str_eq(value, "autobhop") || str_eq(value, "auto-bhop") {
            Ok(Style::AutoBhop)
        } else {
            Err(UnknownStyle { _priv: () })
        }
    }

    /// The style with the bit `value`.
    pub fn try_from_bits(value: u32) -> (r: Result<Style, UnknownStyle>)
        ensures
            match style_of_bit(value) {
                Some(s) => r == Ok::<Style, UnknownStyle>(s),
                None => r is Err,
            },
    {
        if value == AUTO_BHOP {
            Ok(Style::AutoBhop)
        } else {
            Err(UnknownStyle { _priv: () })
        }
    }
}

impl Styles {
    #[verifier::type_invariant]
    spec fn known(self) -> bool {
        self.0 & !ALL_STYLES == 0
    }

    /// The empty set.
    pub fn none() -> (r: Styles)
        ensures
            r@ == 0,
    {
        assert(0u32 & !1u32 == 0) by (bit_vector);
        Styles(0)
    }

    /// The set holding just `style`.
    pub fn of(style: Style) -> (r: Styles)
        ensures
            r@ == style_bit(style),
    {
        assert(1u32 & !1u32 == 0) by (bit_vector);
        Styles(style.bit())
    }

    /// Whether every style of `other` is in this set.
    pub fn contains(self, other: Styles) -> (r: bool)
        ensures
            r == (self@ & other@ == other@),
    {
        (self.0 & other.0) == other.0
    }

    /// Whether `style` is in this set.
    pub fn contains_style(self, style: Style) -> (r: bool)
        ensures
            r == has_style(self@, style),
    {
        let b = style.bit();
        let v = self.0;
        assert((v & 1u32 == 1u32) == (v & 1u32 != 0)) by (bit_vector);
        (v & b) == b
    }

    /// The number of styles in this set.
    pub fn count(&self) -> (r: usize)
        ensures
            r == self@,
            r == (if has_style(self@, Style::AutoBhop) { 1usize } else { 0usize }),
    {
        proof {
            use_type_invariant(self);
            let v = self.0;
            assert((v & !1u32 == 0 ==> v <= 1u32) && (v <= 1u32 ==> ((v & 1u32 != 0) == (v
                == 1u32)))) by (bit_vector);
        }
        self.0 as usize
    }

    /// Whether this set is empty.
    pub fn is_empty(&self) -> (r: bool)
        ensures
            r == (self@ == 0),
    {
        self.count() == 0
    }

    /// Iterates over the styles of this set.
    pub fn iter(&self) -> (r: StyleIter)
        ensures
            r@ == self@,
    {
        proof {
            use_type_invariant(self);
        }
        StyleIter { bits: self.0 }
    }

    /// The union of two sets.
    pub fn union(self, other: Styles) -> (r: Styles)
        ensures
            r@ == self@ | other@,
    {
        proof {
            use_type_invariant(self);
            use_type_invariant(other);
        }
        let (a, b) = (self.0, other.0);
        proof {
            lemma_ops_keep_known_bits(a, b);
        }
        Styles(a | b)
    }

    /// The set of the styles in `styles`; a style listed twice is in the set once.
    pub fn from_styles(styles: &[Style]) -> (r: Styles)
        ensures
            r@ == bits_of_styles(styles@),
    {
        let mut acc = Styles::none();
        let mut i: usize = 0;
        while i < styles.len()
            invariant
                i <= styles@.len(),
                acc@ == bits_of_styles(styles@.take(i as int)),
            decreases styles@.len() - i,
        {
            assert(styles@.take(i + 1).drop_last() =~= styles@.take(i as int));
            acc = acc.union(Styles::of(styles[i]));
            i = i + 1;
        }
        assert(styles@.take(i as int) =~= styles@);
        acc
    }

    /// The intersection of two sets.
    pub fn intersection(self, other: Styles) -> (r: Styles)
        ensures
            r@ == self@ & other@,
    {
        proof {
            use_type_invariant(self);
        }
        let (a, b) = (self.0, other.0);
        proof {
            lemma_ops_keep_known_bits(a, b);
        }
        Styles(a & b)
    }

    /// The styles in exactly one of the two sets.
    pub fn symmetric_difference(self, other: Styles) -> (r: Styles)
        ensures
            r@ == self@ ^ other@,
    {
        proof {
            use_type_invariant(self);
            use_type_invariant(other);
        }
        let (a, b) = (self.0, other.0);
        proof {
            lemma_ops_keep_known_bits(a, b);
        }
        Styles(a ^ b)
    }
}

impl StyleIter {
    #[verifier::type_invariant]
    spec fn known(self) -> bool {
        self.bits & !ALL_STYLES == 0
    }

    /// The style of the lowest bit left, which is then cleared.
    pub fn next(&mut self) -> (r: Option<Style>)
        ensures
            old(self)@ <= ALL_STYLES,
            old(self)@ == 0 ==> r is None && final(self)@ == 0,
            old(self)@ != 0 ==> (r matches Some(s) && style_bit(s) == old(self)@ && final(self)@
                == 0),
    {
        proof {
            use_type_invariant(&*self);
        }
        if self.bits == 0 {
            return None;
        }
        let bits = self.bits;
        let next_bit = 1u32 << bits.trailing_zeros();
        assert(bits & !1u32 == 0 && bits != 0 ==> bits == 1u32) by (bit_vector);
        assert(bits.trailing_zeros() == 0) by {
            vstd::std_specs::bits::axiom_u32_trailing_zeros(bits);
            assert((bits >> 0u32) & 1u32 == 1u32) by (bit_vector)
                requires
                    bits == 1u32,
            ;
        }
        assert(1u32 << 0u32 == 1u32) by (bit_vector);
        assert(next_bit == 1u32);
        let rest = bits & !next_bit;
        assert(rest == 0u32 && rest & !1u32 == 0u32) by (bit_vector)
            requires
                bits == 1u32,
                next_bit == 1u32,
                rest == bits & !next_bit,
        ;
        self.bits = rest;
        match Style::try_from_bits(next_bit) {
            Ok(s) => Some(s),
            Err(_) => None,
        }
    }

    /// The number of styles left.
    pub fn size_hint(&self) -> (r: (usize, Option<usize>))
        ensures
            r.0 == self@,
            r.1 == Some(self@ as usize),
    {
        proof {
            use_type_invariant(self);
        }
        let n = self.bits as usize;
        (n, Some(n))
    }
}

impl std::ops::BitOr for Styles {
    type Output = Styles;

    fn bitor(self, rhs: Styles) -> Styles {
        self.union(rhs)
    }
}

impl BitOrSpecImpl for Styles {
    open spec fn obeys_bitor_spec() -> bool {
        true
    }

    open spec fn bitor_req(self, rhs: Styles) -> bool {
        true
    }

    open spec fn bitor_spec(self, rhs: Styles) -> Styles {
        styles_of_bits(self@ | rhs@)
    }
}

impl std::ops::BitOr<Style> for Styles {
    type Output = Styles;

    fn bitor(self, rhs: Style) -> Styles {
        self.union(Styles::of(rhs))
    }
}

impl BitOrSpecImpl<Style> for Styles {
    open spec fn obeys_bitor_spec() -> bool {
        true
    }

    open spec fn bitor_req(self, rhs: Style) -> bool {
        true
    }

    open spec fn bitor_spec(self, rhs: Style) -> Styles {
        styles_of_bits(self@ | style_bit(rhs))
    }
}

impl std::ops::BitOr for Style {
    type Output = Styles;

    fn bitor(self, rhs: Style) -> Styles {
        Styles::of(self).union(Styles::of(rhs))
    }
}

impl BitOrSpecImpl for Style {
    open spec fn obeys_bitor_spec() -> bool {
        true
    }

    open spec fn bitor_req(self, rhs: Style) -> bool {
        true
    }

    open spec fn bitor_spec(self, rhs: Style) -> Styles {
        styles_of_bits(style_bit(self) | style_bit(rhs))
    }
}

impl std::ops::BitOr<Styles> for Style {
    type Output = Styles;

    fn bitor(self, rhs: Styles) -> Styles {
        Styles::of(self).union(rhs)
    }
}

impl BitOrSpecImpl<Styles> for Style {
    open spec fn obeys_bitor_spec() -> bool {
        true
    }

    open spec fn bitor_req(self, rhs: Styles) -> bool {
        true
    }

    open spec fn bitor_spec(self, rhs: Styles) -> Styles {
        styles_of_bits(style_bit(self) | rhs@)
    }
}

impl std::ops::BitOrAssign for Styles {
    fn bitor_assign(&mut self, rhs: Styles)
        ensures
            final(self)@ == old(self)@ | rhs@,
    {
        *self = self.union(rhs);
    }
}

impl std::ops::BitOrAssign<Style> for Styles {
    fn bitor_assign(&mut self, rhs: Style)
        ensures
            final(self)@ == old(self)@ | style_bit(rhs),
    {
        *self = self.union(Styles::of(rhs));
    }
}

impl std::ops::BitAnd for Styles {
    type Output = Styles;

    fn bitand(self, rhs: Styles) -> Styles {
        self.intersection(rhs)
    }
}

impl BitAndSpecImpl for Styles {
    open spec fn obeys_bitand_spec() -> bool {
        true
    }

    open spec fn bitand_req(self, rhs: Styles) -> bool {
        true
    }

    open spec fn bitand_spec(self, rhs: Styles) -> Styles {
        styles_of_bits(self@ & rhs@)
    }
}

impl std::ops::BitAnd<Style> for Styles {
    type Output = Styles;

    fn bitand(self, rhs: Style) -> Styles {
        self.intersection(Styles::of(rhs))
    }
}

impl BitAndSpecImpl<Style> for Styles {
    open spec fn obeys_bitand_spec() -> bool {
        true
    }

    open spec fn bitand_req(self, rhs: Style) -> bool {
        true
    }

    open spec fn bitand_spec(self, rhs: Style) -> Styles {
        styles_of_bits(self@ & style_bit(rhs))
    }
}

impl std::ops::BitAnd for Style {
    type Output = Styles;

    fn bitand(self, rhs: Style) -> Styles {
        Styles::of(self).intersection(Styles::of(rhs))
    }
}

impl BitAndSpecImpl for Style {
    open spec fn obeys_bitand_spec() -> bool {
        true
    }

    open spec fn bitand_req(self, rhs: Style) -> bool {
        true
    }

    open spec fn bitand_spec(self, rhs: Style) -> Styles {
        styles_of_bits(style_bit(self) & style_bit(rhs))
    }
}

impl std::ops::BitAnd<Styles> for Style {
    type Output = Styles;

    fn bitand(self, rhs: Styles) -> Styles {
        Styles::of(self).intersection(rhs)
    }
}

impl BitAndSpecImpl<Styles> for Style {
    open spec fn obeys_bitand_spec() -> bool {
        true
    }

    open spec fn bitand_req(self, rhs: Styles) -> bool {
        true
    }

    open spec fn bitand_spec(self, rhs: Styles) -> Styles {
        styles_of_bits(style_bit(self) & rhs@)
    }
}

impl std::ops::BitAndAssign for Styles {
    fn bitand_assign(&mut self, rhs: Styles)
        ensures
            final(self)@ == old(self)@ & rhs@,
    {
        *self = self.intersection(rhs);
    }
}

impl std::ops::BitAndAssign<Style> for Styles {
    fn bitand_assign(&mut self, rhs: Style)
        ensures
            final(self)@ == old(self)@ & style_bit(rhs),
    {
        *self = self.intersection(Styles::of(rhs));
    }
}

impl std::ops::BitXor for Styles {
    type Output = Styles;

    fn bitxor(self, rhs: Styles) -> Styles {
        self.symmetric_difference(rhs)
    }
}

impl BitXorSpecImpl for Styles {
    open spec fn obeys_bitxor_spec() -> bool {
        true
    }

    open spec fn bitxor_req(self, rhs: Styles) -> bool {
        true
    }

    open spec fn bitxor_spec(self, rhs: Styles) -> Styles {
        styles_of_bits(self@ ^ rhs@)
    }
}

impl std::ops::BitXor<Style> for Styles {
    type Output = Styles;

    fn bitxor(self, rhs: Style) -> Styles {
        self.symmetric_difference(Styles::of(rhs))
    }
}

impl BitXorSpecImpl<Style> for Styles {
    open spec fn obeys_bitxor_spec() -> bool {
        true
    }

    open spec fn bitxor_req(self, rhs: Style) -> bool {
        true
    }

    open spec fn bitxor_spec(self, rhs: Style) -> Styles {
        styles_of_bits(self@ ^ style_bit(rhs))
    }
}

impl std::ops::BitXor for Style {
    type Output = Styles;

    fn bitxor(self, rhs: Style) -> Styles {
        Styles::of(self).symmetric_difference(Styles::of(rhs))
    }
}

impl BitXorSpecImpl for Style {
    open spec fn obeys_bitxor_spec() -> bool {
        true
    }

    open spec fn bitxor_req(self, rhs: Style) -> bool {
        true
    }

    open spec fn bitxor_spec(self, rhs: Style) -> Styles {
        styles_of_bits(style_bit(self) ^ style_bit(rhs))
    }
}

impl std::ops::BitXor<Styles> for Style {
    type Output = Styles;

    fn bitxor(self, rhs: Styles) -> Styles {
        Styles::of(self).symmetric_difference(rhs)
    }
}

impl BitXorSpecImpl<Styles> for Style {
    open spec fn obeys_bitxor_spec() -> bool {
        true
    }

    open spec fn bitxor_req(self, rhs: Styles) -> bool {
        true
    }

    open spec fn bitxor_spec(self, rhs: Styles) -> Styles {
        styles_of_bits(style_bit(self) ^ rhs@)
    }
}

impl std::ops::BitXorAssign for Styles {
    fn bitxor_assign(&mut self, rhs: Styles)
        ensures
            final(self)@ == old(self)@ ^ rhs@,
    {
        *self = self.symmetric_difference(rhs);
    }
}

impl std::ops::BitXorAssign<Style> for Styles {
    fn bitxor_assign(&mut self, rhs: Style)
        ensures
            final(self)@ == old(self)@ ^ style_bit(rhs),
    {
        *self = self.symmetric_difference(Styles::of(rhs));
    }
}

impl std::convert::From<Style> for Styles {
    fn from(style: Style) -> Styles {
        Styles::of(style)
    }
}

impl vstd::std_specs::convert::FromSpecImpl<Style> for Styles {
    open spec fn obeys_from_spec() -> bool {
        true
    }

    open spec fn from_spec(style: Style) -> Styles {
        styles_of_bits(style_bit(style))
    }
}

impl std::str::FromStr for Style {
    type Err = UnknownStyle;

    fn from_str(value: &str) -> (r: Result<Style, UnknownStyle>)
        ensures
            match style_of_name(value@) {
                Some(s) => r == Ok::<Style, UnknownStyle>(s),
                None => r is Err,
            },
    {
        Style::parse(value)
    }
}

impl std::convert::TryFrom<u32> for Style {
    type Error = UnknownStyle;

    fn try_from(value: u32) -> Result<Style, UnknownStyle> {
        if value == AUTO_BHOP {
            Ok(Style::AutoBhop)
        } else {
            Err(UnknownStyle { _priv: () })
        }
    }
}

impl vstd::std_specs::convert::TryFromSpecImpl<u32> for Style {
    open spec fn obeys_try_from_spec() -> bool {
        true
    }

    closed spec fn try_from_spec(value: u32) -> Result<Style, UnknownStyle> {
        match style_of_bit(value) {
            Some(s) => Ok(s),
            None => Err(UnknownStyle { _priv: () }),
        }
    }
}

impl Default for Styles {
    fn default() -> (r: Styles)
        ensures
            r@ == 0,
    {
        Styles::none()
    }
}

} // verus!
