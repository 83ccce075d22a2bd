use cs2kz::openid::{is_valid_response, login_url_base, realm_end, set_check_authentication_mode};

#[test]
fn steam_answers() {
    assert!(is_valid_response(b"ns:http://specs.openid.net/auth/2.0\nis_valid:true\n"));
    assert!(is_valid_response(b"is_valid:true"));
    assert!(!is_valid_response(b"ns:http://specs.openid.net/auth/2.0\nis_valid:false\n"));
    assert!(!is_valid_response(b"is_valid:truex\n"));
    assert!(!is_valid_response(b"xis_valid:true\n"));
    assert!(!is_valid_response(b""));
    assert!(is_valid_response(b"\n\nis_valid:true"));
}

#[test]
fn mode_and_realm() {
    let mut mode = String::from("id_res");
    set_check_authentication_mode(&mut mode);
    assert_eq!(mode, "check_authentication");
    assert_eq!(realm_end(30, 0), 30);
    assert_eq!(realm_end(30, 19), 19);
    assert_eq!(login_url_base(), "https://steamcommunity.com/openid/login");
}

use cs2kz::openid::steam_id_of_claimed_path;
use cs2kz::steam_id::SteamId;

#[test]
fn claimed_id_paths() {
    let id = SteamId::from_u64(76561198282622073).unwrap();
    assert_eq!(steam_id_of_claimed_path("/openid/id/76561198282622073"), Some(id));
    assert_eq!(steam_id_of_claimed_path("/76561198282622073"), Some(id));
    assert_eq!(steam_id_of_claimed_path("/openid/id/"), None);
    assert_eq!(steam_id_of_claimed_path("/openid/id/abc"), None);
    assert_eq!(steam_id_of_claimed_path("openid/id/76561198282622073"), None);
    assert_eq!(steam_id_of_claimed_path(""), None);
}
