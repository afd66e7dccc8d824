use device_bridge::is_private_ipv4;
use device_bridge::local_network_verdict;

#[test]
fn test_private_ip_detection() {
    assert!(is_private_ipv4(192, 168, 1, 1));
    assert!(is_private_ipv4(10, 0, 0, 1));
    assert!(is_private_ipv4(172, 16, 0, 1));
    assert!(!is_private_ipv4(8, 8, 8, 8));
}

#[test]
fn private_range_boundaries() {
    assert!(is_private_ipv4(10, 255, 255, 255));
    assert!(is_private_ipv4(172, 31, 255, 255));
    assert!(!is_private_ipv4(172, 15, 0, 1));
    assert!(!is_private_ipv4(172, 32, 0, 1));
    assert!(is_private_ipv4(192, 168, 0, 0));
    assert!(!is_private_ipv4(192, 167, 0, 1));
    assert!(!is_private_ipv4(1, 1, 1, 1));
}

#[test]
fn verdict_defaults_to_not_local() {
    assert!(!local_network_verdict(None));
    assert!(local_network_verdict(Some((192, 168, 1, 20))));
    assert!(!local_network_verdict(Some((8, 8, 8, 8))));
}
