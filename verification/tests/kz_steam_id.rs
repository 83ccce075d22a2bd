use cs2kz::kz_steam_id::{
    InvalidSteamID, ParseSteam3IDError, ParseSteamIDError, ParseStringifiedError, SteamID,
    SteamIDOutOfRange, MAGIC_OFFSET, MAX_VALUE, MIN_VALUE,
};
use cs2kz::text::IntErrorKind;

const KNOWN: u64 = 76561198282622073;

#[test]
fn segments_of_a_known_steam_id() {
    let id = SteamID::from_u64(KNOWN).unwrap();
    assert_eq!(id.x(), 1);
    assert_eq!(id.y(), 1);
    assert_eq!(id.z(), 161178172);
    assert_eq!(id.as_u64(), KNOWN);
    assert_eq!(id.as_u32(), 322356345);
    assert_eq!(id.value(), KNOWN);
}

#[test]
fn renders_standard_and_id3() {
    let id = SteamID::from_u64(KNOWN).unwrap();
    assert_eq!(id.to_standard_string(), "STEAM_1:1:161178172");
    assert_eq!(id.as_id3(), "U:1:322356345");
    assert_eq!(id.serialize_standard(), "STEAM_1:1:161178172");
    assert_eq!(id.serialize_id3(), "U:1:322356345");
    assert_eq!(id.serialize_u64(), KNOWN);
    assert_eq!(id.serialize_u64_stringified(), "76561198282622073");
    assert_eq!(id.serialize_u32(), 322356345);
}

#[test]
fn standard_and_id3_read_back() {
    let id = SteamID::from_u64(KNOWN).unwrap();
    assert_eq!(SteamID::from_standard(&id.to_standard_string()), Ok(id));
    assert_eq!(SteamID::from_id3(&id.as_id3()), Ok(id));
    assert_eq!(SteamID::from_id3("[U:1:322356345]"), Ok(id));
    assert_eq!(SteamID::from_standard("STEAM_0:1:161178172"), Ok(id));
}

#[test]
fn range_limits() {
    assert_eq!(SteamID::min().as_u64(), MIN_VALUE);
    assert_eq!(SteamID::max().as_u64(), MAX_VALUE);
    assert_eq!(SteamID::min().as_u32(), 1);
    assert!(SteamID::from_u64(MAGIC_OFFSET).is_none());
    assert!(SteamID::from_u64(MAX_VALUE + 1).is_none());
    assert!(SteamID::from_u32(0).is_none());
    assert_eq!(SteamID::from_u32(1), Some(SteamID::min()));
}

#[test]
fn try_from_accepts_32_bit_values() {
    let id = SteamID::from_u64(KNOWN).unwrap();
    assert_eq!(SteamID::try_from_u64(322356345), Ok(id));
    assert_eq!(SteamID::try_from_u64(KNOWN), Ok(id));
    assert_eq!(SteamID::try_from_u32(322356345), Ok(id));
    assert_eq!(SteamID::try_from_u64(0), Err(SteamIDOutOfRange));
    assert_eq!(SteamID::try_from_u64(u64::MAX), Err(SteamIDOutOfRange));
    assert_eq!(SteamID::try_from_u32(0), Err(SteamIDOutOfRange));
}

#[test]
fn standard_format_errors() {
    assert_eq!(SteamID::from_standard("1:1:5"), Err(ParseSteamIDError::MissingPrefix));
    assert_eq!(SteamID::from_standard("STEAM_2:1:5"), Err(ParseSteamIDError::InvalidX));
    assert_eq!(SteamID::from_standard("STEAM_1"), Err(ParseSteamIDError::MissingY));
    assert_eq!(SteamID::from_standard("STEAM_1:2:5"), Err(ParseSteamIDError::InvalidY(None)));
    assert!(matches!(SteamID::from_standard("STEAM_1:a:5"), Err(ParseSteamIDError::InvalidY(Some(_)))));
    assert_eq!(SteamID::from_standard("STEAM_1:1"), Err(ParseSteamIDError::MissingZ));
    assert!(matches!(SteamID::from_standard("STEAM_1:1:x"), Err(ParseSteamIDError::InvalidZ(_))));
    assert_eq!(SteamID::from_standard("STEAM_1:0:0"), Err(ParseSteamIDError::IsZero));
    assert_eq!(
        SteamID::from_standard("STEAM_1:1:99999999999"),
        Err(ParseSteamIDError::OutOfRange)
    );
    assert_eq!(
        SteamID::from_standard("STEAM_1:0:2147483648"),
        Err(ParseSteamIDError::OutOfRange)
    );
    assert_eq!(
        SteamID::from_standard("STEAM_1:1:3000000000"),
        Err(ParseSteamIDError::OutOfRange)
    );
    assert_eq!(SteamID::from_standard("STEAM_1:1:2147483647"), Ok(SteamID::max()));
    assert_eq!(SteamID::from_standard("STEAM_1:1:0"), Ok(SteamID::min()));
}

#[test]
fn id3_format_errors() {
    assert_eq!(SteamID::from_id3("[U:1:5"), Err(ParseSteam3IDError::InconsistentBrackets));
    assert_eq!(SteamID::from_id3("X:1:5"), Err(ParseSteam3IDError::MissingAccountType));
    assert_eq!(SteamID::from_id3("U:2:5"), Err(ParseSteam3IDError::MissingOne));
    assert_eq!(SteamID::from_id3("U:1"), Err(ParseSteam3IDError::MissingID));
    assert!(matches!(SteamID::from_id3("U:1:x"), Err(ParseSteam3IDError::InvalidID(_))));
    assert_eq!(SteamID::from_id3("U:1:0"), Err(ParseSteam3IDError::OutOfRange));
}

#[test]
fn parse_any_format() {
    let id = SteamID::from_u64(KNOWN).unwrap();
    assert_eq!(SteamID::parse("76561198282622073"), Ok(id));
    assert_eq!(SteamID::parse("322356345"), Ok(id));
    assert_eq!(SteamID::parse("STEAM_1:1:161178172"), Ok(id));
    assert_eq!(SteamID::parse("U:1:322356345"), Ok(id));
    assert_eq!("[U:1:322356345]".parse::<SteamID>(), Ok(id));
    assert_eq!(SteamID::parse("0"), Err(InvalidSteamID::InvalidU64(SteamIDOutOfRange)));
    assert_eq!(SteamID::parse("hello"), Err(InvalidSteamID::UnrecognizedSteamIDFormat));
}

#[test]
fn kz_deserialize_formats() {
    let id = SteamID::from_u64(KNOWN).unwrap();
    assert_eq!(SteamID::deserialize_standard("STEAM_1:1:161178172"), Ok(id));
    assert_eq!(SteamID::deserialize_id3("U:1:322356345"), Ok(id));
    assert_eq!(SteamID::deserialize_u64(KNOWN), Ok(id));
    assert_eq!(SteamID::deserialize_u32(322356345), Ok(id));
    assert_eq!(SteamID::deserialize_u64_stringified("76561198282622073"), Ok(id));
    assert_eq!(
        SteamID::deserialize_u64_stringified("0"),
        Err(ParseStringifiedError::OutOfRange(SteamIDOutOfRange))
    );
    match SteamID::deserialize_u64_stringified("x") {
        Err(ParseStringifiedError::ParseInt(e)) => assert_eq!(e.kind, IntErrorKind::InvalidDigit),
        other => panic!("unexpected {other:?}"),
    }
    match SteamID::deserialize_u64_stringified("") {
        Err(ParseStringifiedError::ParseInt(e)) => assert_eq!(e.kind, IntErrorKind::Empty),
        other => panic!("unexpected {other:?}"),
    }
}
