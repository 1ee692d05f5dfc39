use camo::error::CamoError;
use camo::network::{check_private_network, has_private_address, is_private_ip, IpAddress};

fn v4(a: u8, b: u8, c: u8, d: u8) -> IpAddress {
    IpAddress::V4(a, b, c, d)
}

#[test]
fn private_and_reserved_v4_ranges() {
    for address in [
        v4(127, 0, 0, 1),
        v4(127, 255, 255, 255),
        v4(10, 0, 0, 0),
        v4(10, 255, 255, 255),
        v4(172, 16, 0, 1),
        v4(172, 31, 255, 255),
        v4(192, 168, 0, 1),
        v4(169, 254, 0, 0),
        v4(169, 254, 169, 254),
        v4(100, 64, 0, 0),
        v4(100, 127, 255, 255),
        v4(255, 255, 255, 255),
        v4(192, 0, 2, 1),
        v4(198, 51, 100, 7),
        v4(203, 0, 113, 255),
        v4(0, 0, 0, 0),
    ] {
        assert!(is_private_ip(&address), "{:?}", address);
    }
}

#[test]
fn public_v4_addresses() {
    for address in [
        v4(8, 8, 8, 8),
        v4(93, 184, 216, 34),
        v4(9, 255, 255, 255),
        v4(11, 0, 0, 0),
        v4(172, 15, 255, 255),
        v4(172, 32, 0, 0),
        v4(192, 167, 0, 1),
        v4(192, 169, 0, 1),
        v4(169, 253, 0, 1),
        v4(169, 255, 0, 1),
        v4(100, 63, 255, 255),
        v4(100, 128, 0, 0),
        v4(126, 0, 0, 1),
        v4(128, 0, 0, 1),
        v4(255, 255, 255, 254),
        v4(192, 0, 3, 1),
        v4(198, 51, 101, 1),
        v4(203, 0, 114, 1),
        v4(0, 0, 0, 1),
    ] {
        assert!(!is_private_ip(&address), "{:?}", address);
    }
}

#[test]
fn v6_loopback_and_unspecified_only() {
    assert!(is_private_ip(&IpAddress::V6(0)));
    assert!(is_private_ip(&IpAddress::V6(1)));
    assert!(!is_private_ip(&IpAddress::V6(2)));
    // fc00::1 and fe80::1 are not covered.
    assert!(!is_private_ip(&IpAddress::V6(0xfc00_0000_0000_0000_0000_0000_0000_0001)));
    assert!(!is_private_ip(&IpAddress::V6(0xfe80_0000_0000_0000_0000_0000_0000_0001)));
    assert!(!is_private_ip(&IpAddress::V6(0x2001_4860_4860_0000_0000_0000_0000_8888)));
}

#[test]
fn one_private_address_among_many_refuses_the_target() {
    assert!(!has_private_address(&vec![]));
    assert!(!has_private_address(&vec![v4(8, 8, 8, 8), v4(1, 1, 1, 1)]));
    assert!(has_private_address(&vec![v4(8, 8, 8, 8), v4(10, 1, 2, 3)]));
    assert!(has_private_address(&vec![v4(127, 0, 0, 1), v4(8, 8, 8, 8)]));
    assert!(has_private_address(&vec![v4(8, 8, 8, 8), IpAddress::V6(1)]));
}

#[test]
fn guard_verdicts() {
    assert!(check_private_network(&Ok(vec![v4(8, 8, 8, 8)])).is_ok());
    assert!(check_private_network(&Ok(vec![])).is_ok());
    assert!(matches!(
        check_private_network(&Ok(vec![v4(8, 8, 8, 8), v4(100, 64, 0, 1)])),
        Err(CamoError::PrivateNetworkNotAllowed)
    ));
    match check_private_network(&Err("failed to lookup address".to_string())) {
        Err(CamoError::InvalidUrl(reason)) => assert_eq!(reason, "failed to lookup address"),
        other => panic!("{:?}", other),
    }
}
