use optio_scan::inventory::infer_category;
use optio_scan::models::{
    AssetCategory, DiscoveredHost, DiscoveredPort, OsMatch, PortState, Protocol, ScanConfig, ScanType,
};
use optio_scan::grc::{get_category_info, Framework};
use optio_scan::nmap::{
    build_nmap_command, get_common_ports, get_scan_types, is_valid_ip, is_valid_subnet,
    validate_target,
};

fn open_port(port: u16, service: &str) -> DiscoveredPort {
    DiscoveredPort {
        port,
        protocol: Protocol::Tcp,
        state: PortState::Open,
        service: Some(service.to_string()),
        product: None,
        version: None,
        extra_info: None,
        scripts: vec![],
    }
}

fn host(vendor: Option<&str>, ports: Vec<DiscoveredPort>, os: Vec<OsMatch>) -> DiscoveredHost {
    DiscoveredHost {
        ip_address: "192.168.1.10".to_string(),
        mac_address: None,
        hostname: None,
        vendor: vendor.map(|v| v.to_string()),
        status: "up".to_string(),
        ports,
        os_matches: os,
        host_scripts: vec![],
    }
}

#[test]
fn test_infer_category_server() {
    let host = DiscoveredHost {
        ip_address: "192.168.1.10".to_string(),
        mac_address: None,
        hostname: None,
        vendor: None,
        status: "up".to_string(),
        ports: vec![DiscoveredPort {
            port: 443,
            protocol: Protocol::Tcp,
            state: PortState::Open,
            service: Some("https".to_string()),
            product: None,
            version: None,
            extra_info: None,
            scripts: vec![],
        }],
        os_matches: vec![],
        host_scripts: vec![],
    };

    assert_eq!(infer_category(&host), AssetCategory::Server);
}

#[test]
fn test_build_command_quick_scan() {
    let config = ScanConfig {
        targets: vec!["192.168.1.0/24".to_string()],
        scan_type: ScanType::QuickScan,
        ..Default::default()
    };

    let args = build_nmap_command(&config);
    assert!(args.contains(&"-sS".to_string()));
    assert!(args.contains(&"192.168.1.0/24".to_string()));
}

#[test]
fn test_validate_target_cidr() {
    let result = validate_target("192.168.1.0/24").unwrap();
    assert!(result.valid);
    assert_eq!(result.target_type, Some("CIDR".to_string()));
}

#[test]
fn test_validate_target_ipv4() {
    let result = validate_target("192.168.1.1").unwrap();
    assert!(result.valid);
    assert_eq!(result.target_type, Some("IPv4".to_string()));
}

#[test]
fn test_validate_target_hostname() {
    let result = validate_target("example.com").unwrap();
    assert!(result.valid);
    assert_eq!(result.target_type, Some("Hostname".to_string()));
}

#[test]
fn validate_target_trims_before_classifying() {
    let result = validate_target("  10.0.0.1 \t").unwrap();
    assert!(result.valid);
    assert_eq!(result.target_type, Some("IPv4".to_string()));
    assert_eq!(result.normalized, Some("10.0.0.1".to_string()));
}

#[test]
fn validate_target_rejections() {
    let empty = validate_target("   ").unwrap();
    assert!(!empty.valid);
    assert_eq!(empty.error, Some("Target cannot be empty".to_string()));

    let bad_prefix = validate_target("10.0.0.0/33").unwrap();
    assert!(!bad_prefix.valid);
    assert_eq!(bad_prefix.error, Some("Invalid CIDR notation".to_string()));

    let two_slashes = validate_target("10.0.0.0/8/8").unwrap();
    assert_eq!(two_slashes.error, Some("Invalid CIDR notation".to_string()));

    let junk = validate_target("bad_host!").unwrap();
    assert!(!junk.valid);
    assert_eq!(junk.target_type, None);
    assert_eq!(junk.error, Some("Invalid target format".to_string()));
}

#[test]
fn validate_target_other_kinds() {
    assert_eq!(validate_target("10.0.0.0/32").unwrap().target_type, Some("CIDR".to_string()));
    assert_eq!(validate_target("10.0.0.0/+8").unwrap().target_type, Some("CIDR".to_string()));
    assert_eq!(validate_target("192.168.1.1-100").unwrap().target_type, Some("IP Range".to_string()));
    assert_eq!(validate_target("192.168.*.1").unwrap().target_type, Some("IPv4".to_string()));
    assert_eq!(validate_target("fe80::1").unwrap().target_type, Some("IPv6".to_string()));
    // 256 is no octet, so this is taken for a host name
    assert_eq!(validate_target("192.168.1.256").unwrap().target_type, Some("Hostname".to_string()));
    // non-ASCII letters count as alphanumeric
    assert_eq!(validate_target("bücher.de").unwrap().target_type, Some("Hostname".to_string()));
}

#[test]
fn build_command_full_options() {
    let config = ScanConfig {
        targets: vec!["10.0.0.1".to_string(), "10.0.0.2".to_string()],
        scan_type: ScanType::PingSweep,
        custom_args: None,
        ports: Some("22,80".to_string()),
        exclude_targets: Some(vec!["10.0.0.3".to_string(), "10.0.0.4".to_string()]),
        aggressive: true,
        skip_discovery: true,
        output_formats: vec![],
    };
    let args = build_nmap_command(&config);
    let expected: Vec<String> = [
        "-sn", "-PE", "-PP", "-PM", "-T5", "-Pn", "-p", "22,80", "--exclude", "10.0.0.3,10.0.0.4",
        "-oX", "-", "10.0.0.1", "10.0.0.2",
    ]
    .iter()
    .map(|s| s.to_string())
    .collect();
    assert_eq!(args, expected);
}

#[test]
fn build_command_custom_keeps_own_timing() {
    let config = ScanConfig {
        targets: vec!["host".to_string()],
        scan_type: ScanType::Custom,
        custom_args: Some("  -sT\t-T2  -F ".to_string()),
        aggressive: true,
        exclude_targets: Some(vec![]),
        ..Default::default()
    };
    let args = build_nmap_command(&config);
    let expected: Vec<String> =
        ["-sT", "-T2", "-F", "-oX", "-", "host"].iter().map(|s| s.to_string()).collect();
    assert_eq!(args, expected);
}

#[test]
fn scan_type_catalogue() {
    let types = get_scan_types();
    assert_eq!(types.len(), 8);
    assert_eq!(types[0].scan_type, ScanType::PingSweep);
    assert!(!types[0].requires_root);
    assert!(types[1..].iter().all(|t| t.requires_root));
    assert_eq!(types[3].name, "Full Port Scan");
    assert_eq!(types[7].duration, "Slow (15-60 min)");
    assert_eq!(ScanType::QuickScan.to_nmap_args(), vec!["-sS", "-T4", "--top-ports", "100"]);
}

#[test]
fn common_port_catalogue() {
    let ports = get_common_ports();
    assert_eq!(ports.len(), 24);
    assert_eq!(ports[0].port, 21);
    assert_eq!(ports[0].service, "FTP");
    assert_eq!(ports[23].port, 27017);
}

#[test]
fn infer_category_from_os_and_vendor() {
    let win = OsMatch {
        name: "Microsoft WINDOWS Server 2019".to_string(),
        accuracy: 98,
        os_family: None,
        os_gen: None,
        device_type: None,
    };
    assert_eq!(infer_category(&host(None, vec![], vec![win])), AssetCategory::Server);

    let router = OsMatch {
        name: "Linux 4.X".to_string(),
        accuracy: 90,
        os_family: None,
        os_gen: None,
        device_type: Some("WAP or Router".to_string()),
    };
    assert_eq!(infer_category(&host(None, vec![], vec![router])), AssetCategory::NetworkDevice);

    // Linux without server services falls through to the vendor
    let linux = OsMatch {
        name: "Ubuntu Linux".to_string(),
        accuracy: 90,
        os_family: None,
        os_gen: None,
        device_type: None,
    };
    assert_eq!(
        infer_category(&host(Some("VMware, Inc."), vec![open_port(9100, "jetdirect")], vec![linux])),
        AssetCategory::Virtual
    );
    assert_eq!(infer_category(&host(Some("CISCO Systems"), vec![], vec![])), AssetCategory::NetworkDevice);
    assert_eq!(infer_category(&host(Some("HP Printer Co"), vec![], vec![])), AssetCategory::Printer);
}

#[test]
fn infer_category_from_services() {
    assert_eq!(infer_category(&host(None, vec![open_port(161, "snmp")], vec![])), AssetCategory::NetworkDevice);
    assert_eq!(infer_category(&host(None, vec![open_port(631, "ipp")], vec![])), AssetCategory::Printer);
    let mut closed = open_port(22, "ssh");
    closed.state = PortState::Closed;
    assert_eq!(infer_category(&host(None, vec![closed], vec![])), AssetCategory::Unknown);
    assert_eq!(AssetCategory::IoT.display_name(), "IoT Device");
}

#[test]
fn ip_and_subnet_validation() {
    assert!(is_valid_ip("192.168.1.100"));
    assert!(!is_valid_ip("192.168.1"));
    assert!(!is_valid_ip("192.168.1.*"));
    assert!(!is_valid_ip("300.1.1.1"));
    assert!(is_valid_subnet("192.168.1.0/24"));
    assert!(!is_valid_subnet("192.168.1.0/33"));
    assert!(!is_valid_subnet("192.168.1.0"));
    assert!(!is_valid_subnet("192.168.1.0/24/1"));
    assert!(!is_valid_subnet("192.168.1/24"));
}

#[test]
fn control_category_names() {
    assert_eq!(get_category_info(Framework::NistCsf2, "PR"), ("Protect".to_string(), "#22c55e".to_string()));
    assert_eq!(get_category_info(Framework::Gdpr, "CH8"), ("Remedies".to_string(), "#ef4444".to_string()));
    assert_eq!(get_category_info(Framework::Soc2TypeII, "XX"), ("XX".to_string(), "#64748b".to_string()));
}
