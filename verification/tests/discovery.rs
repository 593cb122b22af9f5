use netwatch_core::discovery::NetworkScanner;

const ARP_OUTPUT: &str = "Interface: wlan0, type: EN10MB, MAC: 11:22:33:44:55:66, IPv4: 192.168.1.5\n\
Starting arp-scan 1.10.0 with 256 hosts (https://github.com/royhills/arp-scan)\n\
192.168.1.1\taa:bb:cc:dd:ee:ff\tTP-LINK TECHNOLOGIES CO.,LTD.\n\
192.168.1.20\t12:34:56:78:9a:bc\t(Unknown: locally administered)\n\
192.168.1.30\t12:34:56:78:9a:bd\n\
\n\
3 packets received by filter, 0 packets dropped by kernel\n\
Ending arp-scan 1.10.0: 256 hosts scanned in 1.912 seconds (133.89 hosts/sec). 2 responded\n";

#[test]
fn parses_arp_scan_output() {
    let devices = NetworkScanner::parse_arp_scan(ARP_OUTPUT.as_bytes());
    assert_eq!(devices.len(), 2);
    assert_eq!(devices[0].ip, "192.168.1.1");
    assert_eq!(devices[0].mac, "AA:BB:CC:DD:EE:FF");
    assert_eq!(devices[0].vendor, "TP-LINK TECHNOLOGIES CO.,LTD.");
    assert_eq!(devices[1].ip, "192.168.1.20");
    assert_eq!(devices[1].mac, "12:34:56:78:9A:BC");
    assert_eq!(devices[1].vendor, "(Unknown: locally administered)");
}

#[test]
fn arp_lines_need_three_words_and_a_colon() {
    assert!(NetworkScanner::parse_arp_line("192.168.1.30 12:34:56:78:9a:bd").is_none());
    assert!(NetworkScanner::parse_arp_line("no colon here at all").is_none());
    assert!(NetworkScanner::parse_arp_line("Starting: a b c").is_none());
    let d = NetworkScanner::parse_arp_line("10.0.0.2  de:ad:be:ef:00:01   Acme   Corp").unwrap();
    assert_eq!(d.vendor, "Acme Corp");
    assert_eq!(d.mac, "DE:AD:BE:EF:00:01");
}

#[test]
fn reads_route_output() {
    let route = NetworkScanner::parse_route(
        b"1.1.1.1 via 192.168.1.1 dev wlan0 src 192.168.1.5 uid 1000 \n    cache \n",
    );
    assert_eq!(route.interface.as_deref(), Some("wlan0"));
    assert_eq!(route.source_ip.as_deref(), Some("192.168.1.5"));

    let truncated = NetworkScanner::parse_route(b"1.1.1.1 dev");
    assert_eq!(truncated.interface, None);
    assert_eq!(truncated.source_ip, None);
}

#[test]
fn chooses_subnet() {
    assert_eq!(NetworkScanner::scan_subnet(Some(b"10.0.0.7/16\n")), "10.0.0.7/16");
    assert_eq!(NetworkScanner::scan_subnet(Some(b"\n")), "192.168.0.0/24");
    assert_eq!(NetworkScanner::scan_subnet(None), "192.168.0.0/24");
}

#[test]
fn host_machine_is_listed_last() {
    let devices = NetworkScanner::assemble_scan(
        Some(ARP_OUTPUT.as_bytes()),
        "192.168.1.5",
        &NetworkScanner::host_mac("11:22:33:44:55:66\n"),
    );
    assert_eq!(devices.len(), 3);
    assert_eq!(devices[2].ip, "192.168.1.5");
    assert_eq!(devices[2].mac, "11:22:33:44:55:66");
    assert_eq!(devices[2].vendor, "Host Machine (This Computer)");

    let without_host = NetworkScanner::assemble_scan(None, "", "11:22:33:44:55:66");
    assert!(without_host.is_empty());
    let only_host = NetworkScanner::assemble_scan(None, "10.0.0.1", "AA");
    assert_eq!(only_host.len(), 1);
}

#[test]
fn scan_refresh_plan() {
    assert!(NetworkScanner::refresh_plan(&Vec::new()).is_none());
    let devices = NetworkScanner::parse_arp_scan(ARP_OUTPUT.as_bytes());
    let plan = NetworkScanner::refresh_plan(&devices).unwrap();
    assert_eq!(plan.len(), 2);
    assert_eq!(plan[0].mac, "AA:BB:CC:DD:EE:FF");
    assert_eq!(plan[0].ip, "192.168.1.1");
    assert_eq!(plan[1].ip, "192.168.1.20");
}

#[test]
fn host_mac_is_empty_only_for_blank_files() {
    assert_eq!(NetworkScanner::host_mac(" \n"), "");
    assert_eq!(NetworkScanner::host_mac("ab\n"), "AB");
}
