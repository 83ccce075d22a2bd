use cs2kz::steam_id::account_number::AccountNumber;
use cs2kz::steam_id::account_type::AccountType;
use cs2kz::steam_id::community_id::CommunityId;
use cs2kz::steam_id::instance::Instance;
use cs2kz::steam_id::universe::Universe;
use cs2kz::steam_id::{InvalidSteamId, SteamId};

#[test]
fn display() {
    let steam_id = SteamId::from_u64(76561198282622073_u64).unwrap();
    assert_eq!(steam_id.display_standard(), "STEAM_1:1:161178172");
}

#[test]
fn display_alternate() {
    let steam_id = SteamId::from_u64(76561198282622073_u64).unwrap();
    assert_eq!(steam_id.display_community(), "[U:1:322356345]");
}

#[test]
fn parse() {
    let steam_id = SteamId::from_u64(76561198282622073_u64).unwrap();
    assert_eq!("76561198282622073".parse::<SteamId>().unwrap(), steam_id);
}

#[test]
fn it_works() {
    let account_number = AccountNumber::new(161178172_u32).unwrap();
    let steam_id = SteamId::builder()
        .y(true)
        .account_number(account_number)
        .build();

    assert_eq!(steam_id.y_bit(), 1);
    assert_eq!(steam_id.account_number(), account_number);
    assert_eq!(steam_id.instance(), Instance::default());
    assert_eq!(steam_id.account_type(), AccountType::Individual);
    assert_eq!(steam_id.universe(), Universe::Public);

    assert_eq!(steam_id, SteamId::from_u64(76561198282622073_u64).unwrap());
}

#[test]
fn fields_of_a_known_steam_id() {
    let steam_id = SteamId::from_u64(76561198282622073_u64).unwrap();
    assert_eq!(steam_id.as_u64(), 76561198282622073);
    assert_eq!(steam_id.account_number().get(), 161178172);
    assert_eq!(steam_id.instance().get(), 1);
    assert_eq!(steam_id.account_type().as_u8(), 1);
    assert_eq!(steam_id.universe().as_u8(), 1);
}

#[test]
fn from_u64_rejects_bad_universe_and_account_type() {
    assert_eq!(SteamId::from_u64(0x0600_0000_0000_0000), Err(InvalidSteamId::InvalidUniverse));
    assert_eq!(SteamId::from_u64(0x01B0_0000_0000_0000), Err(InvalidSteamId::InvalidAccountType));
}

#[test]
fn try_from_u64_agrees_with_from_u64() {
    let v = 76561198282622073_u64;
    assert_eq!(SteamId::try_from(v), SteamId::from_u64(v));
    assert_eq!(SteamId::try_from(0x0600_0000_0000_0000), Err(InvalidSteamId::InvalidUniverse));
}

#[test]
fn parse_standard_reads_display_back() {
    let steam_id = SteamId::from_u64(76561198282622073_u64).unwrap();
    let shown = steam_id.display_standard();
    assert_eq!(SteamId::parse_standard(&shown).unwrap(), steam_id);
    assert_eq!("STEAM_1:1:161178172".parse::<SteamId>().unwrap(), steam_id);
}

#[test]
fn parse_standard_refuses_missing_prefix() {
    assert!(SteamId::parse_standard("1:1:161178172").is_err());
    assert!(SteamId::parse_standard("STEAM_1:2:161178172").is_err());
    assert!(SteamId::parse_standard("STEAM_1:1").is_err());
}

#[test]
fn parse_refuses_garbage() {
    assert!("not a steam id".parse::<SteamId>().is_err());
    assert!("".parse::<SteamId>().is_err());
}

#[test]
fn community_id_of_a_steam_id() {
    let steam_id = SteamId::from_u64(76561198282622073_u64).unwrap();
    let community_id = steam_id.as_community_id();
    assert_eq!(community_id.get(), 322356345);
    assert_eq!(community_id.y_bit(), 1);
}

#[test]
fn community_id_new_and_parse() {
    let community_id = CommunityId::new(322356345).unwrap();
    assert_eq!(community_id.get(), 322356345);
    assert_eq!(community_id.y_bit(), 1);
    assert_eq!(community_id.account_number().get(), 161178172);
    assert_eq!(CommunityId::new(3).unwrap().get(), 3);
    assert_eq!(CommunityId::parse("322356345").unwrap().get(), 322356345);
    assert!(CommunityId::parse("[U:1:322356345]").is_err());
    assert!(CommunityId::parse("4294967296").is_err());
    assert!(CommunityId::parse("").is_err());
}

#[test]
fn builder_with_all_fields() {
    let account_number = AccountNumber::new(5).unwrap();
    let steam_id = SteamId::builder()
        .y(false)
        .account_number(account_number)
        .account_type(AccountType::Individual)
        .universe(Universe::Public)
        .build();
    assert_eq!(steam_id.y_bit(), 0);
    assert_eq!(steam_id.account_number().get(), 5);
    assert_eq!(steam_id.as_u64(), 76561197960265728 + 10);
}

#[test]
fn account_number_refuses_values_above_31_bits() {
    assert!(AccountNumber::new(0x7FFF_FFFF).is_some());
    assert!(AccountNumber::new(0x8000_0000).is_none());
}

#[test]
fn serialize_formats_of_a_known_steam_id() {
    let steam_id = SteamId::from_u64(76561198282622073_u64).unwrap();
    assert_eq!(steam_id.serialize_u64(), 76561198282622073);
    assert_eq!(steam_id.serialize_u64_stringified(), "76561198282622073");
    assert_eq!(steam_id.serialize_standard(), "STEAM_1:1:161178172");
    assert_eq!(steam_id.serialize_as_community_id(), 322356345);
    assert_eq!(steam_id.serialize_as_community_id_with_brackets(), "[U:1:322356345]");
    assert_eq!(steam_id.serialize_as_community_id_without_brackets(), "U:1:322356345");
}

#[test]
fn deserialize_formats() {
    let steam_id = SteamId::from_u64(76561198282622073_u64).unwrap();
    assert_eq!(SteamId::deserialize_u64(76561198282622073).unwrap(), steam_id);
    assert_eq!(SteamId::deserialize_standard("STEAM_1:1:161178172").unwrap(), steam_id);
    assert!(SteamId::deserialize_standard("STEAM_1:1:x").is_err());
    assert!(SteamId::deserialize_u64(0x0600_0000_0000_0000).is_err());
}

#[test]
fn parse_community_reads_display_back() {
    let steam_id = SteamId::from_u64(76561198282622073_u64).unwrap();
    assert_eq!(SteamId::parse_community("[U:1:322356345]").unwrap(), steam_id);
    assert_eq!(SteamId::parse_community("U:1:322356345").unwrap(), steam_id);
    assert_eq!(SteamId::parse_community(&steam_id.display_community()).unwrap(), steam_id);
    assert_eq!("[U:1:322356345]".parse::<SteamId>().unwrap(), steam_id);
    assert_eq!(SteamId::from_community_id(CommunityId::new(322356345).unwrap()), steam_id);
    assert!(SteamId::parse_community("[]").is_err());
    assert!(SteamId::parse_community("[U:1:322356345").is_err());
}

#[test]
fn account_types_read_back_from_their_letter() {
    let all = [
        AccountType::Invalid,
        AccountType::Individual,
        AccountType::Multiseat,
        AccountType::GameServer,
        AccountType::AnonGameServer,
        AccountType::Pending,
        AccountType::ContentServer,
        AccountType::Clan,
        AccountType::Chat,
        AccountType::AnonUser,
    ];
    for t in all {
        assert_eq!(t.as_char().to_string().parse::<AccountType>().unwrap(), t);
    }
    assert_eq!(AccountType::Clan.as_char(), 'g');
    assert_eq!(AccountType::Chat.as_char(), 'T');
}
