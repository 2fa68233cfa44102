use wifi_connect::discovery::{discover, find_access_point, get_access_points_ssids, get_networks};
use wifi_connect::wifi::{
    AccessPoint, Security, SECURITY_ENTERPRISE, SECURITY_NONE, SECURITY_WEP, SECURITY_WPA,
    SECURITY_WPA2,
};

fn ap(ssid: &[u8], bits: u32) -> AccessPoint {
    AccessPoint::new(
        format!("/org/freedesktop/NetworkManager/AccessPoint/{}", ssid.len()),
        ssid.to_vec(),
        50,
        Security::from_bits(bits),
    )
}

fn ssids(list: &Vec<AccessPoint>) -> Vec<Vec<u8>> {
    list.iter().map(|a| a.ssid.clone()).collect()
}

#[test]
fn first_occurrence_is_kept_and_hidden_ssid_is_dropped() {
    let raw = vec![ap(b"Cafe", SECURITY_NONE), ap(b"Cafe", SECURITY_WPA2), ap(b"", SECURITY_NONE)];
    let found = discover(&raw);
    assert_eq!(found.len(), 1);
    assert_eq!(found[0].ssid, b"Cafe".to_vec());
    assert_eq!(found[0].security, Security::from_bits(SECURITY_NONE));
    let networks = get_networks(&found);
    assert_eq!(networks.len(), 1);
    assert_eq!(networks[0].ssid, "Cafe");
    assert_eq!(networks[0].security, "none");
}

#[test]
fn undecodable_ssid_is_discarded() {
    let raw = vec![ap(&[0xff, 0xfe, 0x41], SECURITY_WPA), ap(b"Home", SECURITY_WPA2)];
    let found = discover(&raw);
    assert_eq!(ssids(&found), vec![b"Home".to_vec()]);
}

#[test]
fn discovery_keeps_the_order_of_the_scan() {
    let raw = vec![
        ap(b"b", SECURITY_WEP),
        ap(b"a", SECURITY_NONE),
        ap(b"b", SECURITY_NONE),
        ap(b"", SECURITY_NONE),
        ap(b"c", SECURITY_ENTERPRISE),
        ap(b"a", SECURITY_WPA),
    ];
    let found = discover(&raw);
    assert_eq!(ssids(&found), vec![b"b".to_vec(), b"a".to_vec(), b"c".to_vec()]);
    assert_eq!(found[0].security, Security::from_bits(SECURITY_WEP));
    assert_eq!(found[1].security, Security::from_bits(SECURITY_NONE));
}

#[test]
fn discovery_of_nothing_is_nothing() {
    assert!(discover(&Vec::new()).is_empty());
    assert!(discover(&vec![ap(b"", SECURITY_NONE), ap(&[0x80], SECURITY_NONE)]).is_empty());
}

#[test]
fn ssids_are_listed_as_text() {
    let found = discover(&vec![ap("Caf\u{e9}".as_bytes(), SECURITY_WPA2), ap(b"Home", SECURITY_WEP)]);
    assert_eq!(get_access_points_ssids(&found), vec!["Caf\u{e9}".to_string(), "Home".to_string()]);
}

#[test]
fn access_point_is_found_by_exact_ssid() {
    let found = discover(&vec![ap(b"Home", SECURITY_WPA2), ap(b"Homer", SECURITY_WPA2)]);
    assert_eq!(find_access_point(&found, "Homer"), Some(1));
    assert_eq!(find_access_point(&found, "Home"), Some(0));
    assert_eq!(find_access_point(&found, "home"), None);
    assert_eq!(find_access_point(&found, ""), None);
}
