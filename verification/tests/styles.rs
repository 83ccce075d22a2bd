use cs2kz::styles::{Style, Styles, AUTO_BHOP};

#[test]
fn style_names_and_bits() {
    assert_eq!(Style::AutoBhop.as_str(), "auto-bhop");
    assert_eq!(Style::AutoBhop.bit(), AUTO_BHOP);
    assert_eq!(Style::parse("auto-bhop"), Ok(Style::AutoBhop));
    assert_eq!("autobhop".parse::<Style>(), Ok(Style::AutoBhop));
    assert!(Style::parse("AutoBhop").is_err());
    assert_eq!(Style::try_from_bits(1), Ok(Style::AutoBhop));
    assert!(Style::try_from(2_u32).is_err());
}

#[test]
fn sets_of_styles() {
    let none = Styles::none();
    assert!(none.is_empty());
    assert_eq!(none.count(), 0);
    let some = Styles::of(Style::AutoBhop);
    assert!(!some.is_empty());
    assert_eq!(some.count(), 1);
    assert!(some.contains_style(Style::AutoBhop));
    assert!(some.contains(none));
    assert!(!none.contains(some));
    assert_eq!(some.union(none), some);
    assert_eq!(some.intersection(none), none);
    assert_eq!(some.symmetric_difference(some), none);
    assert_eq!(Styles::from(Style::AutoBhop), some);
    assert_eq!(Style::AutoBhop | Style::AutoBhop, some);
    assert_eq!(none | Style::AutoBhop, some);
    assert_eq!(some & Style::AutoBhop, some);
    assert_eq!(some ^ Style::AutoBhop, none);
}

#[test]
fn from_styles_ignores_duplicates() {
    assert_eq!(Styles::from_styles(&[]), Styles::none());
    assert_eq!(Styles::from_styles(&[Style::AutoBhop, Style::AutoBhop]), Styles::of(Style::AutoBhop));
}

#[test]
fn iterating_a_set() {
    let mut it = Styles::of(Style::AutoBhop).iter();
    assert_eq!(it.size_hint(), (1, Some(1)));
    assert_eq!(it.next(), Some(Style::AutoBhop));
    assert_eq!(it.next(), None);
    let mut empty = Styles::none().iter();
    assert_eq!(empty.next(), None);
}

#[test]
fn assign_operators() {
    let mut s = Styles::none();
    s |= Style::AutoBhop;
    assert_eq!(s.count(), 1);
    s ^= Style::AutoBhop;
    assert!(s.is_empty());
    s |= Styles::of(Style::AutoBhop);
    s &= Styles::none();
    assert!(s.is_empty());
}
