use optio_scan::grc::{ComplianceStatus, Framework};
use optio_scan::models::{AssetCategory, Criticality, PortState, Protocol, ScanType};
use optio_scan::nmap_xml::{extract_xml_attr, parse_hosts_from_xml, parse_nmap_version};
use optio_scan::params::{
    parse_asset_category, parse_compliance_status_param, parse_criticality, parse_export_format,
    parse_framework_param, parse_report_type, parse_scan_type, scan_type_from_name,
};
use optio_scan::reporting::{ExportFormat, ReportConfig, ReportType};

#[test]
fn scan_type_names_in_any_case() {
    assert_eq!(parse_scan_type("Quick").unwrap(), ScanType::QuickScan);
    assert_eq!(parse_scan_type("PING_SWEEP").unwrap(), ScanType::PingSweep);
    assert_eq!(parse_scan_type("vuln").unwrap(), ScanType::VulnerabilityScan);
    assert_eq!(parse_scan_type("bogus").unwrap_err(), "Unknown scan type: bogus");
    // the lookup itself expects the lowercased name
    assert_eq!(scan_type_from_name("Quick"), None);
    assert_eq!(scan_type_from_name("quick"), Some(ScanType::QuickScan));
}

#[test]
fn other_network_parameters() {
    assert_eq!(parse_asset_category("VM").unwrap(), AssetCategory::Virtual);
    assert_eq!(parse_asset_category("Network_Device").unwrap(), AssetCategory::NetworkDevice);
    assert_eq!(parse_criticality("Info").unwrap(), Criticality::Informational);
    assert!(parse_criticality("severe").is_err());
}

#[test]
fn report_parameters() {
    assert_eq!(parse_report_type("Executive-Summary").unwrap(), ReportType::ExecutiveSummary);
    assert_eq!(parse_report_type("findings").unwrap(), ReportType::SecurityFindings);
    assert_eq!(parse_report_type("nope").unwrap_err(), "Unknown report type: nope");
    assert_eq!(parse_export_format("MD").unwrap(), ExportFormat::Markdown);
    assert_eq!(ExportFormat::Markdown.extension(), "md");
}

#[test]
fn grc_parameters_read_uppercased() {
    assert_eq!(parse_framework_param("soc2").unwrap(), Framework::Soc2TypeII);
    assert_eq!(parse_framework_param("nist csf 2.0").unwrap(), Framework::NistCsf2);
    assert_eq!(parse_compliance_status_param("n/a").unwrap(), ComplianceStatus::NotApplicable);
    assert_eq!(parse_framework_param("iso").unwrap_err(), "Unknown framework: iso");
}

#[test]
fn report_config_defaults() {
    let c = ReportConfig::default();
    assert_eq!(c.report_type, ReportType::ExecutiveSummary);
    assert_eq!(c.title, "Security Assessment Report");
    assert_eq!(c.primary_color, Some("#3B82F6".to_string()));
    assert!(c.include_toc && c.data_sources.is_empty());
}

const REPORT: &str = r#"<?xml version="1.0"?>
<nmaprun scanner="nmap" args="nmap -sS 10.0.0.0/30" startstr="Mon Jan 1">
<host><status state="up"/>
<address addr="10.0.0.1" addrtype="ipv4"/>
<address addr="AA:BB:CC:DD:EE:FF" addrtype="mac" vendor="Cisco"/>
<hostnames><hostname name="gw.local" type="PTR"/></hostnames>
<ports>
<port protocol="tcp" portid="22"><state state="open"/><service name="ssh" product="OpenSSH" version="8.9"/></port>
<port protocol="udp" portid="161"><state state="open|filtered"/></port>
<port protocol="tcp" portid="99999"><state state="open"/></port>
</ports>
<os><osmatch name="Linux 5.X" accuracy="90"><osclass type="general purpose" osfamily="Linux"/></osmatch>
<osmatch name="Cisco IOS" accuracy="95"><osclass type="router" osfamily="IOS"/></osmatch>
<osmatch name="Other" accuracy="90"/></os>
</host>
<host><status state="down"/><address addr="fe80::1" addrtype="ipv6"/></host>
<host><status state="up"/></host>
</nmaprun>"#;

#[test]
fn attributes_of_the_first_element() {
    assert_eq!(extract_xml_attr(REPORT, "nmaprun", "args"), Some("nmap -sS 10.0.0.0/30".to_string()));
    assert_eq!(extract_xml_attr(REPORT, "status", "state"), Some("up".to_string()));
    assert_eq!(extract_xml_attr(REPORT, "nmaprun", "missing"), None);
    assert_eq!(extract_xml_attr(REPORT, "absent", "x"), None);
}

#[test]
fn hosts_ports_and_os_matches() {
    let hosts = parse_hosts_from_xml(REPORT);
    assert_eq!(hosts.len(), 2);
    let h = &hosts[0];
    assert_eq!(h.ip_address, "10.0.0.1");
    assert_eq!(h.mac_address, Some("AA:BB:CC:DD:EE:FF".to_string()));
    assert_eq!(h.vendor, Some("Cisco".to_string()));
    assert_eq!(h.hostname, Some("gw.local".to_string()));
    assert_eq!(h.status, "up");
    assert_eq!(h.ports.len(), 2);
    assert_eq!(h.ports[0].port, 22);
    assert_eq!(h.ports[0].state, PortState::Open);
    assert_eq!(h.ports[0].product, Some("OpenSSH".to_string()));
    assert_eq!(h.ports[1].protocol, Protocol::Udp);
    assert_eq!(h.ports[1].state, PortState::OpenFiltered);
    let names: Vec<&str> = h.os_matches.iter().map(|m| m.name.as_str()).collect();
    assert_eq!(names, vec!["Cisco IOS", "Linux 5.X", "Other"]);
    assert_eq!(h.os_matches[0].device_type, Some("router".to_string()));
    assert_eq!(hosts[1].ip_address, "fe80::1");
    assert_eq!(hosts[1].status, "down");
}

#[test]
fn nmap_version_line() {
    assert_eq!(parse_nmap_version("Nmap version 7.94 ( https://nmap.org )\r\nPlatform: x"), Some("7.94".to_string()));
    assert_eq!(parse_nmap_version("Starting Nmap"), None);
    assert_eq!(parse_nmap_version(""), None);
    assert_eq!(parse_nmap_version("Nmap version"), None);
}

#[test]
fn report_type_and_format_catalogues() {
    let types = optio_scan::reporting::get_report_type_info();
    assert_eq!(types.len(), 7);
    assert_eq!(types[0].report_type, ReportType::ExecutiveSummary);
    assert_eq!(types[5].icon, "alert-triangle");
    let formats = optio_scan::reporting::get_export_formats();
    assert_eq!(formats.len(), 4);
    assert_eq!(formats[3].format, ExportFormat::Json);
    assert_eq!(formats[1].description, "Web-viewable HTML document");
}

#[test]
fn report_templates() {
    let all = optio_scan::reporting::get_report_templates();
    assert_eq!(all.len(), 7);
    assert_eq!(all[0].id, "exec-summary-v1");
    assert_eq!(all[0].sections.len(), 5);
    assert!(!all[0].sections[4].required);
    assert_eq!(all[0].default_config.title, "Executive Summary Report");
    assert!(!all[0].default_config.include_toc);
    let t = optio_scan::reporting::get_template_for_type(ReportType::NetworkAssessment);
    assert_eq!(t.report_type, ReportType::NetworkAssessment);
    assert_eq!(t.default_config.report_type, ReportType::NetworkAssessment);
    assert_eq!(t.default_config.classification, Some("Confidential".to_string()));
    assert_eq!(t.id, all[3].id);
}
