//! Asset classification: which kind of device a discovered host is, judged
//! from its best OS match, its vendor and its open services.
use crate::models::{AssetCategory, DiscoveredHost, DiscoveredPort, OsMatch, PortState};
use crate::text::{contains_str, has_sub, lower_of, to_lower};
use vstd::prelude::*;

verus! {

/// Ports of typical server services: SSH, web, databases, caches.
pub open spec fn server_ports() -> Seq<u16> {
    seq![22, 80, 443, 3306, 5432, 1433, 1521, 27017, 6379, 8080, 8443]
}

/// Telnet, SNMP, BGP and NETCONF.
pub open spec fn network_device_ports() -> Seq<u16> {
    seq![23, 161, 162, 179, 830]
}

/// LPD, IPP and JetDirect.
pub open spec fn printer_ports() -> Seq<u16> {
    seq![515, 631, 9100]
}

/// Whether one of `ports` is open on a port of `set`.
pub open spec fn open_on_any(ports: Seq<DiscoveredPort>, set: Seq<u16>) -> bool {
    exists|i: int|
        0 <= i < ports.len() && #[trigger] ports[i].state == PortState::Open && set.contains(
            ports[i].port,
        )
}

/// Category told by a lowercased device type, if any.
pub open spec fn device_type_category(dt: Seq<char>) -> Option<AssetCategory> {
    if has_sub(dt, "router"@) || has_sub(dt, "switch"@) {
        Some(AssetCategory::NetworkDevice)
    } else if has_sub(dt, "firewall"@) {
        Some(AssetCategory::SecurityDevice)
    } else if has_sub(dt, "printer"@) {
        Some(AssetCategory::Printer)
    } else if has_sub(dt, "phone"@) || has_sub(dt, "mobile"@) {
        Some(AssetCategory::Mobile)
    } else {
        None
    }
}

/// Category told by the best OS match, if any.
pub open spec fn os_category(os: OsMatch, ports: Seq<DiscoveredPort>) -> Option<AssetCategory> {
    let name = lower_of(os.name@);
    let by_type = match os.device_type {
        Some(d) => device_type_category(lower_of(d@)),
        None => None,
    };
    if by_type is Some {
        by_type
    } else if has_sub(name, "windows server"@) {
        Some(AssetCategory::Server)
    } else if has_sub(name, "windows"@) {
        Some(AssetCategory::Workstation)
    } else if (has_sub(name, "linux"@) || has_sub(name, "ubuntu"@) || has_sub(name, "centos"@))
        && open_on_any(ports, server_ports()) {
        Some(AssetCategory::Server)
    } else if has_sub(name, "esxi"@) || has_sub(name, "vmware"@) {
        Some(AssetCategory::Virtual)
    } else if has_sub(name, "ios"@) || has_sub(name, "android"@) {
        Some(AssetCategory::Mobile)
    } else {
        None
    }
}

/// Category told by a lowercased vendor name, if any.
pub open spec fn vendor_category(v: Seq<char>) -> Option<AssetCategory> {
    if has_sub(v, "cisco"@) || has_sub(v, "juniper"@) || has_sub(v, "arista"@) || has_sub(
        v,
        "netgear"@,
    ) {
        Some(AssetCategory::NetworkDevice)
    } else if has_sub(v, "hp"@) && has_sub(v, "printer"@) {
        Some(AssetCategory::Printer)
    } else if has_sub(v, "vmware"@) {
        Some(AssetCategory::Virtual)
    } else {
        None
    }
}

/// Category told by the open services alone.
pub open spec fn service_category(ports: Seq<DiscoveredPort>) -> AssetCategory {
    if open_on_any(ports, server_ports()) {
        AssetCategory::Server
    } else if open_on_any(ports, network_device_ports()) {
        AssetCategory::NetworkDevice
    } else if open_on_any(ports, printer_ports()) {
        AssetCategory::Printer
    } else {
        AssetCategory::Unknown
    }
}

/// The category of a host: its best OS match decides first, then its
/// vendor, then its open services.
pub open spec fn category_of(host: DiscoveredHost) -> AssetCategory {
    let by_os = if host.os_matches@.len() > 0 {
        os_category(host.os_matches@[0], host.ports@)
    } else {
        None
    };
    let by_vendor = match host.vendor {
        Some(v) => vendor_category(lower_of(v@)),
        None => None,
    };
    match by_os {
        Some(c) => c,
        None => match by_vendor {
            Some(c) => c,
            None => service_category(host.ports@),
        },
    }
}

/// Whether one of `ports` is open on a port of `set`.
fn open_on(ports: &[DiscoveredPort], set: &Vec<u16>) -> (r: bool)
    ensures
        r == open_on_any(ports@, set@),
{
    let mut i: usize = 0;
    while i < ports.len()
        invariant
            i <= ports@.len(),
            forall|j: int|
                0 <= j < i ==> !(#[trigger] ports@[j].state == PortState::Open && set@.contains(
                    ports@[j].port,
                )),
        decreases ports@.len() - i,
    {
        if matches!(ports[i].state, PortState::Open) {
            let mut k: usize = 0;
            while k < set.len()
                invariant
                    k <= set@.len(),
                    i < ports@.len(),
                    ports@[i as int].state == PortState::Open,
                    forall|m: int| 0 <= m < k ==> set@[m] != ports@[i as int].port,
                decreases set@.len() - k,
            {
                if set[k] == ports[i].port {
                    assert(set@[k as int] == ports@[i as int].port);
                    assert(set@.contains(ports@[i as int].port));
                    assert(ports@[i as int].state == PortState::Open);
                    return true;
                }
                k = k + 1;
            }
        }
        i = i + 1;
    }
    false
}

fn has_server_services(ports: &[DiscoveredPort]) -> (r: bool)
    ensures
        r == open_on_any(ports@, server_ports()),
{
    let wanted = vec![22u16, 80, 443, 3306, 5432, 1433, 1521, 27017, 6379, 8080, 8443];
    assert(wanted@ =~= server_ports());
    open_on(ports, &wanted)
}

fn has_network_device_services(ports: &[DiscoveredPort]) -> (r: bool)
    ensures
        r == open_on_any(ports@, network_device_ports()),
{
    let wanted = vec![23u16, 161, 162, 179, 830];
    assert(wanted@ =~= network_device_ports());
    open_on(ports, &wanted)
}

fn has_printer_services(ports: &[DiscoveredPort]) -> (r: bool)
    ensures
        r == open_on_any(ports@, printer_ports()),
{
    let wanted = vec![515u16, 631, 9100];
    assert(wanted@ =~= printer_ports());
    open_on(ports, &wanted)
}

fn device_category(dt: &str) -> (r: Option<AssetCategory>)
    ensures
        r == device_type_category(dt@),
{
    if contains_str(dt, "router") || contains_str(dt, "switch") {
        return Some(AssetCategory::NetworkDevice);
    }
    if contains_str(dt, "firewall") {
        return Some(AssetCategory::SecurityDevice);
    }
    if contains_str(dt, "printer") {
        return Some(AssetCategory::Printer);
    }
    if contains_str(dt, "phone") || contains_str(dt, "mobile") {
        return Some(AssetCategory::Mobile);
    }
    None
}

fn category_from_os(os: &OsMatch, ports: &[DiscoveredPort]) -> (r: Option<AssetCategory>)
    ensures
        r == os_category(*os, ports@),
{
    let os_lower = to_lower(os.name.as_str());
    let n = os_lower.as_str();
    match &os.device_type {
        Some(device_type) => {
            let dt_lower = to_lower(device_type.as_str());
            let by_type = device_category(dt_lower.as_str());
            if by_type.is_some() {
                return by_type;
            }
        },
        None => {},
    }
    if contains_str(n, "windows server") {
        return Some(AssetCategory::Server);
    }
    if contains_str(n, "windows") {
        return Some(AssetCategory::Workstation);
    }
    if contains_str(n, "linux") || contains_str(n, "ubuntu") || contains_str(n, "centos") {
        if has_server_services(ports) {
            return Some(AssetCategory::Server);
        }
    }
    if contains_str(n, "esxi") || contains_str(n, "vmware") {
        return Some(AssetCategory::Virtual);
    }
    if contains_str(n, "ios") || contains_str(n, "android") {
        return Some(AssetCategory::Mobile);
    }
    None
}

fn category_from_vendor(v: &str) -> (r: Option<AssetCategory>)
    ensures
        r == vendor_category(v@),
{
    if contains_str(v, "cisco") || contains_str(v, "juniper") || contains_str(v, "arista")
        || contains_str(v, "netgear") {
        return Some(AssetCategory::NetworkDevice);
    }
    if contains_str(v, "hp") && contains_str(v, "printer") {
        return Some(AssetCategory::Printer);
    }
    if contains_str(v, "vmware") {
        return Some(AssetCategory::Virtual);
    }
    None
}

/// Infer asset category from discovered host data
pub fn infer_category(host: &DiscoveredHost) -> (r: AssetCategory)
    ensures
        r == category_of(*host),
{
    if host.os_matches.len() > 0 {
        let by_os = category_from_os(&host.os_matches[0], host.ports.as_slice());
        match by_os {
            Some(c) => {
                return c;
            },
            None => {},
        }
    }
    match &host.vendor {
        Some(vendor) => {
            let vendor_lower = to_lower(vendor.as_str());
            let by_vendor = category_from_vendor(vendor_lower.as_str());
            match by_vendor {
                Some(c) => {
                    return c;
                },
                None => {},
            }
        },
        None => {},
    }
    if has_server_services(host.ports.as_slice()) {
        return AssetCategory::Server;
    }
    if has_network_device_services(host.ports.as_slice()) {
        return AssetCategory::NetworkDevice;
    }
    if has_printer_services(host.ports.as_slice()) {
        return AssetCategory::Printer;
    }
    AssetCategory::Unknown
}

} // verus!
