use imaginary::fetch_guard::{
    approve_destination, check_url, is_safe_ip, payload_within_limit, select_safe_ips,
    FetchRejection, IpAddress,
};

#[test]
fn test_is_safe_ip_private_ranges() {
    // Private ranges should be rejected
    assert!(!is_safe_ip(&IpAddress::V4(10, 0, 0, 1)));
    assert!(!is_safe_ip(&IpAddress::V4(172, 16, 0, 1)));
    assert!(!is_safe_ip(&IpAddress::V4(192, 168, 1, 1)));

    // Loopback should be rejected
    assert!(!is_safe_ip(&IpAddress::V4(127, 0, 0, 1)));

    // Link-local should be rejected
    assert!(!is_safe_ip(&IpAddress::V4(169, 254, 1, 1)));

    // Cloud metadata service should be rejected
    assert!(!is_safe_ip(&IpAddress::V4(169, 254, 169, 254)));

    // Carrier-grade NAT should be rejected
    assert!(!is_safe_ip(&IpAddress::V4(100, 64, 0, 1)));

    // Test networks should be rejected
    assert!(!is_safe_ip(&IpAddress::V4(192, 0, 2, 1)));
    assert!(!is_safe_ip(&IpAddress::V4(198, 51, 100, 1)));
    assert!(!is_safe_ip(&IpAddress::V4(203, 0, 113, 1)));
}

#[test]
fn test_is_safe_ip_public_ranges() {
    assert!(is_safe_ip(&IpAddress::V4(8, 8, 8, 8)));
    assert!(is_safe_ip(&IpAddress::V4(1, 1, 1, 1)));
    assert!(is_safe_ip(&IpAddress::V4(208, 67, 222, 222)));
}

#[test]
fn test_is_safe_ip_ipv6() {
    // Loopback should be rejected
    assert!(!is_safe_ip(&IpAddress::V6(0, 0, 0, 0, 0, 0, 0, 1)));

    // Link-local should be rejected
    assert!(!is_safe_ip(&IpAddress::V6(0xfe80, 0, 0, 0, 0, 0, 0, 1)));

    // Unique-local should be rejected
    assert!(!is_safe_ip(&IpAddress::V6(0xfc00, 0, 0, 0, 0, 0, 0, 1)));

    // Documentation prefix should be rejected
    assert!(!is_safe_ip(&IpAddress::V6(0x2001, 0x0db8, 0, 0, 0, 0, 0, 1)));

    // A public address should be allowed
    assert!(is_safe_ip(&IpAddress::V6(0x2001, 0x4860, 0x4860, 0, 0, 0, 0, 0x8888)));
}

#[test]
fn guard_rejects_internal_destinations() {
    let resolved = vec![
        IpAddress::V4(127, 0, 0, 1),
        IpAddress::V4(10, 0, 0, 1),
        IpAddress::V4(192, 168, 1, 1),
        IpAddress::V4(169, 254, 169, 254),
        IpAddress::V6(0, 0, 0, 0, 0, 0, 0, 1),
    ];
    assert_eq!(approve_destination(&resolved), Err(FetchRejection::NoSafeAddress));
    assert!(select_safe_ips(&resolved).is_empty());
}

#[test]
fn guard_accepts_public_destination() {
    let resolved = vec![IpAddress::V4(8, 8, 8, 8)];
    assert_eq!(approve_destination(&resolved), Ok(()));
    assert_eq!(select_safe_ips(&resolved), vec![IpAddress::V4(8, 8, 8, 8)]);
}

#[test]
fn guard_accepts_mixed_destinations_with_one_safe() {
    let resolved = vec![IpAddress::V4(127, 0, 0, 1), IpAddress::V4(8, 8, 8, 8)];
    assert_eq!(approve_destination(&resolved), Ok(()));
}

#[test]
fn check_url_accepts_http_and_https() {
    let target = check_url("https://example.com/image.png").unwrap();
    assert_eq!(target.host, "example.com".to_string());
    assert_eq!(target.port, 443);
    assert!(target.https);

    let target = check_url("http://example.com:8080/a").unwrap();
    assert_eq!(target.host, "example.com".to_string());
    assert_eq!(target.port, 8080);
    assert!(!target.https);
}

#[test]
fn check_url_rejects_other_schemes() {
    assert_eq!(check_url("ftp://example.com/a"), Err(FetchRejection::SchemeNotAllowed));
    assert_eq!(check_url("file:///etc/hosts"), Err(FetchRejection::SchemeNotAllowed));
    assert_eq!(check_url("not a url"), Err(FetchRejection::InvalidUrl));
}

#[test]
fn payload_limit_tracks_configuration_and_ceiling() {
    assert!(payload_within_limit(1024, 2048));
    assert!(!payload_within_limit(4096, 2048));
    // The hard ceiling caps a generous configuration
    assert!(!payload_within_limit(11 * 1024 * 1024, 100 * 1024 * 1024));
    assert!(payload_within_limit(10 * 1024 * 1024, 100 * 1024 * 1024));
}
