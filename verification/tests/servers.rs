use cs2kz::servers::parse_geoiplookup;

const OUTPUT: &str = "GeoIP Country Edition: FI, Finland\nGeoIP City Edition, Rev 1: FI, 18, N/A, Helsinki, 00191, 60.179699, 24.934401, 0, 0\nGeoIP ASNum Edition: AS24940 Hetzner Online GmbH\n";

#[test]
fn geoiplookup_output_gives_country_and_city() {
    let info = parse_geoiplookup(OUTPUT).unwrap();
    assert_eq!(info.country_code, "FI");
    assert_eq!(info.region, "Helsinki");
    let crlf = OUTPUT.replace('\n', "\r\n");
    let info = parse_geoiplookup(&crlf).unwrap();
    assert_eq!(info.country_code, "FI");
    assert_eq!(info.region, "Helsinki");
}

#[test]
fn unexpected_geoiplookup_output_gives_none() {
    assert!(parse_geoiplookup("").is_none());
    assert!(parse_geoiplookup("GeoIP Country Edition: FI, Finland").is_none());
    assert!(parse_geoiplookup("GeoIP Country Edition: FI Finland\nGeoIP City Edition, Rev 1: FI, 18, N/A, Helsinki, 00191\n").is_none());
    assert!(parse_geoiplookup("Country: FI, Finland\nGeoIP City Edition, Rev 1: FI, 18, N/A, Helsinki, 00191\n").is_none());
    assert!(parse_geoiplookup("GeoIP Country Edition: FI, Finland\nGeoIP City Edition, Rev 1: FI, 18, N/A\n").is_none());
    let last = parse_geoiplookup("GeoIP Country Edition: DE, Germany\na, b, c, d, Berlin").unwrap();
    assert_eq!(last.country_code, "DE");
    assert_eq!(last.region, "Berlin");
}
