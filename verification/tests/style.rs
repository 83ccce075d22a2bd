use cs2kz::style::{InvalidStyleID, Style};

#[test]
fn style_names() {
    assert!(Style::Normal.is_normal());
    assert!(!Style::AutoBhop.is_normal());
    assert_eq!(Style::Normal.as_str(), "normal");
    assert_eq!(Style::AutoBhop.as_str(), "auto_bhop");
    assert_eq!(Style::Normal.as_str_short(), "NRM");
    assert_eq!(Style::AutoBhop.as_str_short(), "ABH");
    assert_eq!(Style::AutoBhop.display_name(), "Auto Bhop");
    assert_eq!(Style::default(), Style::Normal);
}

#[test]
fn style_ids() {
    assert_eq!(u8::from(Style::Normal), 1);
    assert_eq!(Style::AutoBhop.as_u8(), 2);
    assert_eq!(Style::try_from(1_u8), Ok(Style::Normal));
    assert_eq!(Style::try_from_u8(2), Ok(Style::AutoBhop));
    assert_eq!(Style::try_from_u8(3), Err(InvalidStyleID(3)));
    assert_eq!(Style::try_from_u8(0), Err(InvalidStyleID(0)));
}

#[test]
fn style_parse_ignores_case() {
    assert_eq!("NRM".parse::<Style>().unwrap(), Style::Normal);
    assert_eq!(Style::parse("Normal").unwrap(), Style::Normal);
    assert_eq!(Style::parse("ABH").unwrap(), Style::AutoBhop);
    assert_eq!(Style::parse("Auto-Bhop").unwrap(), Style::AutoBhop);
    assert_eq!(Style::parse("auto_bhop").unwrap(), Style::AutoBhop);
}

#[test]
fn unknown_style_holds_the_lowercased_string() {
    let err = Style::parse("Vanilla").unwrap_err();
    assert_eq!(err.0, "vanilla");
    let err = Style::from_lowercase("NRM").unwrap_err();
    assert_eq!(err.0, "NRM");
    assert_eq!(Style::from_lowercase("nrm").unwrap(), Style::Normal);
}

#[test]
fn style_parse_of_uppercase_ascii() {
    assert_eq!(Style::parse("AUTO_BHOP").unwrap(), Style::AutoBhop);
    assert_eq!(Style::parse("NoRmAl").unwrap(), Style::Normal);
}
