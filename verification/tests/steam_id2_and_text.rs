use cs2kz::steam_id2::{SteamID, MAGIC_OFFSET};
use cs2kz::string::empty_as_none;

#[test]
fn thirty_two_bit_steam_ids() {
    assert_eq!(SteamID::min().as_u32(), 1);
    assert_eq!(SteamID::max().as_u32(), u32::MAX);
    assert!(SteamID::new(0).is_none());
    let id = SteamID::new(322356345).unwrap();
    assert_eq!(id.as_u32(), 322356345);
    assert_eq!(id.as_u64(), 76561198282622073);
    assert_eq!(SteamID::min().as_u64(), MAGIC_OFFSET + 1);
    assert!(SteamID::min() < SteamID::max());
}

#[test]
fn empty_strings_become_none() {
    assert_eq!(empty_as_none(""), None);
    assert_eq!(empty_as_none("x"), Some("x"));
    assert_eq!(empty_as_none(" "), Some(" "));
}
