use netwatch_core::traffic::sysfs::{counter_value, interface_mac, is_monitored_interface};

#[test]
fn loopback_is_not_monitored() {
    assert!(!is_monitored_interface("lo"));
    assert!(is_monitored_interface("eth0"));
    assert!(is_monitored_interface("lo0"));
}

#[test]
fn mac_addresses_are_normalized() {
    assert_eq!(
        interface_mac("aa:bb:cc:dd:ee:0f\n"),
        Some("AA:BB:CC:DD:EE:0F".to_string())
    );
    assert_eq!(interface_mac("00:00:00:00:00:00\n"), None);
    assert_eq!(interface_mac("  \n"), None);
}

#[test]
fn counters_are_read_or_zero() {
    assert_eq!(counter_value("123456\n"), 123456);
    assert_eq!(counter_value("  18446744073709551615 "), u64::MAX);
    assert_eq!(counter_value("garbage"), 0);
    assert_eq!(counter_value(""), 0);
    assert_eq!(counter_value("18446744073709551616"), 0);
}
