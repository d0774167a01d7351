use optio_scan::discovery::{
    classify_probe, estimate_host_count, finish_scan, get_default_scan_ports, get_extended_scan_ports,
    host_result, open_ports, parse_single_host, plan_batches, plan_scan, select_ports, ProbeOutcome,
    ScanError, ScannedPort, TcpScannerConfig, DEFAULT_PROBE_TIMEOUT_MS,
};
use optio_scan::ip::{parse_network, IpAddress, IpNet};
use optio_scan::models::Protocol;

fn v4(a: u8, b: u8, c: u8, d: u8) -> IpAddress {
    IpAddress::V4(u32::from_be_bytes([a, b, c, d]))
}

#[test]
fn slash_30_expands_to_four_addresses() {
    let plan = plan_scan("10.0.0.0/30", Some(vec![9999]), None).unwrap();
    assert_eq!(plan.targets, vec![v4(10, 0, 0, 0), v4(10, 0, 0, 1), v4(10, 0, 0, 2), v4(10, 0, 0, 3)]);
    assert_eq!(plan.ports, vec![9999]);
}

#[test]
fn slash_24_expands_to_256_addresses_with_network_and_broadcast() {
    let plan = plan_scan("192.168.1.0/24", None, None).unwrap();
    assert_eq!(plan.targets.len(), 256);
    assert_eq!(plan.targets[0], v4(192, 168, 1, 0));
    assert_eq!(plan.targets[255], v4(192, 168, 1, 255));
    assert_eq!(estimate_host_count("192.168.1.0/24"), Some(256));
}

#[test]
fn host_bits_in_the_address_are_ignored() {
    let plan = plan_scan("10.0.0.5/30", None, None).unwrap();
    assert_eq!(plan.targets[0], v4(10, 0, 0, 4));
    assert_eq!(plan.targets[3], v4(10, 0, 0, 7));
}

#[test]
fn bare_address_and_ipv6_networks() {
    let one = plan_scan("172.16.0.9", None, None).unwrap();
    assert_eq!(one.targets, vec![v4(172, 16, 0, 9)]);
    let six = plan_scan("fe80::/126", None, None).unwrap();
    let base: u128 = 0xfe80 << 112;
    assert_eq!(six.targets, vec![
        IpAddress::V6(base),
        IpAddress::V6(base + 1),
        IpAddress::V6(base + 2),
        IpAddress::V6(base + 3),
    ]);
    assert_eq!(parse_network("10.1.2.3/8"), Some(IpNet { addr: v4(10, 1, 2, 3), prefix: 8 }));
}

#[test]
fn invalid_cidr_is_refused_whole() {
    match plan_scan("10.0.0.0/33", None, None) {
        Err(ScanError::InvalidTarget(t)) => assert_eq!(t, "10.0.0.0/33"),
        other => panic!("unexpected {:?}", other),
    }
    let err = plan_scan("not-a-network", None, None).unwrap_err();
    assert_eq!(err.message(), "Invalid CIDR or address: not-a-network");
    assert_eq!(estimate_host_count("garbage"), None);
}

#[test]
fn oversized_network_is_refused() {
    match plan_scan("::/0", None, None) {
        Err(ScanError::TargetTooLarge(t)) => assert_eq!(t, "::/0"),
        other => panic!("unexpected {:?}", other),
    }
    assert_eq!(estimate_host_count("::/0"), None);
    let err = ScanError::TargetTooLarge("::/0".to_string());
    assert_eq!(err.message(), "Network too large to scan: ::/0");
}

#[test]
fn nothing_listening_gives_empty_report() {
    let plan = plan_scan("10.0.0.0/30", Some(vec![9999]), None).unwrap();
    let outcomes = vec![
        vec![ProbeOutcome::Unreachable],
        vec![ProbeOutcome::Closed],
        vec![ProbeOutcome::Unreachable],
        vec![ProbeOutcome::Unreachable],
    ];
    let report = finish_scan(plan, &outcomes, 1200);
    assert!(report.success);
    assert!(report.hosts.is_empty());
    assert_eq!(report.hosts_scanned, 4);
    assert_eq!(report.hosts_alive, 0);
    assert_eq!(report.ports_scanned, vec![9999]);
    assert_eq!(report.duration_ms, 1200);
}

#[test]
fn default_port_set_when_nothing_asked() {
    assert_eq!(select_ports(None, None), vec![22, 80, 443, 3389]);
    assert_eq!(select_ports(None, Some(false)), vec![22, 80, 443, 3389]);
    let plan = plan_scan("10.0.0.1/32", None, None).unwrap();
    assert_eq!(plan.ports, vec![22, 80, 443, 3389]);
    assert_eq!(get_default_scan_ports(), vec![22, 80, 443, 3389]);
}

#[test]
fn extended_port_set_when_asked() {
    let ports = select_ports(None, Some(true));
    assert_eq!(ports.len(), 24);
    assert_ne!(ports, get_default_scan_ports());
    assert_eq!(ports, get_extended_scan_ports());
    // an explicit list wins over the extended flag
    assert_eq!(select_ports(Some(vec![8080]), Some(true)), vec![8080]);
}

#[test]
fn only_hosts_with_an_open_port_are_reported() {
    let plan = plan_scan("10.0.0.0/30", Some(vec![22, 80, 443]), None).unwrap();
    let outcomes = vec![
        vec![ProbeOutcome::Closed, ProbeOutcome::Closed, ProbeOutcome::Unreachable],
        vec![ProbeOutcome::Open, ProbeOutcome::Closed, ProbeOutcome::Open],
        vec![ProbeOutcome::Unreachable, ProbeOutcome::Unreachable, ProbeOutcome::Unreachable],
        vec![ProbeOutcome::Closed, ProbeOutcome::Open, ProbeOutcome::Closed],
    ];
    let report = finish_scan(plan, &outcomes, 5);
    assert_eq!(report.hosts_scanned, 4);
    assert_eq!(report.hosts_alive, 2);
    assert_eq!(report.hosts.len(), 2);
    assert_eq!(report.hosts[0].ip, v4(10, 0, 0, 1));
    let ports: Vec<u16> = report.hosts[0].open_ports.iter().map(|p| p.port).collect();
    assert_eq!(ports, vec![22, 443]);
    assert_eq!(report.hosts[1].ip, v4(10, 0, 0, 3));
    assert_eq!(report.hosts[1].open_ports, vec![ScannedPort { port: 80, protocol: Protocol::Tcp }]);
}

#[test]
fn single_host_result() {
    let ip = parse_single_host("127.0.0.1").unwrap();
    assert_eq!(ip, v4(127, 0, 0, 1));
    assert!(parse_single_host("127.0.0.0/8").is_err());
    assert!(parse_single_host("localhost").is_err());
    let ports = vec![22, 5555];
    let found = open_ports(ip, &ports, &vec![ProbeOutcome::Closed, ProbeOutcome::Open]);
    assert_eq!(found.open_ports, vec![ScannedPort { port: 5555, protocol: Protocol::Tcp }]);
    let none = open_ports(ip, &ports, &vec![ProbeOutcome::Closed, ProbeOutcome::Unreachable]);
    assert!(none.open_ports.is_empty());
    assert!(host_result(ip, &ports, &vec![ProbeOutcome::Closed, ProbeOutcome::Unreachable]).is_none());
}

#[test]
fn probe_classification() {
    assert_eq!(classify_probe(true, false), ProbeOutcome::Open);
    assert_eq!(classify_probe(false, true), ProbeOutcome::Closed);
    assert_eq!(classify_probe(false, false), ProbeOutcome::Unreachable);
}

#[test]
fn batches_respect_the_limit() {
    assert_eq!(plan_batches(10, 4), vec![(0, 4), (4, 8), (8, 10)]);
    assert_eq!(plan_batches(8, 4), vec![(0, 4), (4, 8)]);
    assert!(plan_batches(0, 3).is_empty());
    assert_eq!(plan_batches(3, 100), vec![(0, 3)]);
}

#[test]
fn scanner_defaults() {
    let config = TcpScannerConfig::default();
    assert_eq!(config.ports, vec![22, 80, 443, 3389]);
    assert_eq!(config.timeout_ms, DEFAULT_PROBE_TIMEOUT_MS);
    assert!(config.host_concurrency > 0 && config.port_concurrency > 0);
}

#[test]
fn a_given_port_list_is_used_as_it_stands() {
    assert_eq!(select_ports(Some(vec![80, 22, 80, 443, 22]), None), vec![80, 22, 80, 443, 22]);
    assert_eq!(select_ports(Some(vec![]), Some(true)), Vec::<u16>::new());
    let plan = plan_scan("10.0.0.1/32", Some(vec![80, 80, 8080]), None).unwrap();
    assert_eq!(plan.ports, vec![80, 80, 8080]);
    let outcomes = vec![vec![ProbeOutcome::Open, ProbeOutcome::Open, ProbeOutcome::Closed]];
    let report = finish_scan(plan, &outcomes, 1);
    assert_eq!(report.ports_scanned, vec![80, 80, 8080]);
    assert_eq!(report.hosts[0].open_ports, vec![ScannedPort { port: 80, protocol: Protocol::Tcp }]);
}

#[test]
fn an_open_port_is_reported_once() {
    let ip = v4(10, 0, 0, 1);
    let found = open_ports(ip, &vec![80, 80], &vec![ProbeOutcome::Open, ProbeOutcome::Open]);
    assert_eq!(found.open_ports, vec![ScannedPort { port: 80, protocol: Protocol::Tcp }]);
    let late = open_ports(ip, &vec![80, 443, 80], &vec![ProbeOutcome::Closed, ProbeOutcome::Open, ProbeOutcome::Open]);
    let ports: Vec<u16> = late.open_ports.iter().map(|p| p.port).collect();
    assert_eq!(ports, vec![443, 80]);
}

#[test]
fn single_host_takes_a_bare_address_only() {
    assert!(matches!(parse_single_host("10.0.0.1/32"), Err(ScanError::InvalidTarget(_))));
    assert!(matches!(parse_single_host("10.0.0.1/255.255.255.255"), Err(ScanError::InvalidTarget(_))));
    assert!(matches!(parse_single_host("::1/128"), Err(ScanError::InvalidTarget(_))));
    assert_eq!(parse_single_host("::1").unwrap(), IpAddress::V6(1));
}
