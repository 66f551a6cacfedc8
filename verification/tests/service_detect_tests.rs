use mdns_scanner::ServiceDetect;

const NAMES: [&str; 15] = [
    "http",
    "scanner",
    "androidtvremote2",
    "uscans",
    "pdldatastream",
    "printer",
    "nvshieldremote",
    "http-alt",
    "sftp-ssh",
    "ssh",
    "googlezone",
    "googlecast",
    "companionlink",
    "spotifyconnect",
    "airplay",
];

#[test]
fn length_counts_every_service_type() {
    assert_eq!(ServiceDetect::length(), 15);
    assert_eq!(ServiceDetect::to_iter().len(), ServiceDetect::length());
}

#[test]
fn to_iter_lists_in_declaration_order() {
    let all = ServiceDetect::to_iter();
    assert_eq!(all[0], ServiceDetect::Http);
    assert_eq!(all[1], ServiceDetect::Scanner);
    assert_eq!(all[7], ServiceDetect::HttpAlt);
    assert_eq!(all[9], ServiceDetect::Ssh);
    assert_eq!(all[14], ServiceDetect::AirPlay);
    for i in 0..all.len() {
        for j in 0..all.len() {
            assert_eq!(all[i] == all[j], i == j);
        }
    }
}

#[test]
fn names_match_display_text() {
    let all = ServiceDetect::to_iter();
    for (kind, name) in all.iter().zip(NAMES.iter()) {
        assert_eq!(kind.name(), *name);
        assert_eq!(kind.to_string(), name.to_string());
        let as_str: &str = (*kind).into();
        assert_eq!(as_str, *name);
    }
}

#[test]
fn from_name_round_trips_every_name() {
    for kind in ServiceDetect::to_iter() {
        assert_eq!(ServiceDetect::from_name(kind.name()), Some(kind));
    }
}

#[test]
fn from_name_refuses_unknown_names() {
    assert_eq!(ServiceDetect::from_name(""), None);
    assert_eq!(ServiceDetect::from_name("HTTP"), None);
    assert_eq!(ServiceDetect::from_name("http "), None);
    assert_eq!(ServiceDetect::from_name("_http._tcp"), None);
    assert_eq!(ServiceDetect::from_name("googlecas"), None);
}

#[test]
fn try_from_converts_known_names() {
    assert_eq!(ServiceDetect::try_from(String::from("http-alt")), Ok(ServiceDetect::HttpAlt));
    assert_eq!(ServiceDetect::try_from(String::from("googlezone")), Ok(ServiceDetect::GoogleZone));
    assert_eq!(ServiceDetect::try_from(String::from("googlecast")), Ok(ServiceDetect::GoogleCast));
}

#[test]
fn derived_order_follows_declaration() {
    assert!(ServiceDetect::Http < ServiceDetect::Scanner);
    assert!(ServiceDetect::SpotifyConnect < ServiceDetect::AirPlay);
}
