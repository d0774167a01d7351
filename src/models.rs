//! Network Intelligence Data Models
//!
//! Types for network scanning, asset discovery, and inventory management.
use vstd::prelude::*;

verus! {

// ============================================================================
// Scan Types
// ============================================================================

/// Type of network scan to perform
#[derive(Debug, Clone, Copy, PartialEq, Eq, Structural)]
pub enum ScanType {
    /// Quick ping sweep to discover live hosts
    PingSweep,
    /// Basic port scan (top 100 ports)
    QuickScan,
    /// Standard port scan (top 1000 ports)
    StandardScan,
    /// Full TCP port scan (all 65535 ports)
    FullScan,
    /// Service version detection
    ServiceDetection,
    /// OS detection scan
    OsDetection,
    /// Vulnerability scan using NSE scripts
    VulnerabilityScan,
    /// UDP port scan
    UdpScan,
    /// Custom scan with user-defined options
    Custom,
}

impl ScanType {
    pub open spec fn spec_nmap_args(self) -> Seq<Seq<char>> {
        match self {
            ScanType::PingSweep => seq!["-sn"@, "-PE"@, "-PP"@, "-PM"@],
            ScanType::QuickScan => seq!["-sS"@, "-T4"@, "--top-ports"@, "100"@],
            ScanType::StandardScan => seq!["-sS"@, "-sV"@, "-T4"@],
            ScanType::FullScan => seq!["-sS"@, "-p-"@, "-T4"@],
            ScanType::ServiceDetection => seq!["-sS"@, "-sV"@, "-sC"@, "-T4"@],
            ScanType::OsDetection => seq!["-sS"@, "-O"@, "-T4"@],
            ScanType::VulnerabilityScan => seq!["-sS"@, "-sV"@, "--script=vuln"@, "-T4"@],
            ScanType::UdpScan => seq!["-sU"@, "--top-ports"@, "100"@, "-T4"@],
            ScanType::Custom => seq![],
        }
    }

    /// Get the Nmap arguments for this scan type
    pub fn to_nmap_args(&self) -> (r: Vec<&'static str>)
        ensures
            r@.map_values(|a: &'static str| a@) == self.spec_nmap_args(),
    {
        let r: Vec<&'static str> = match self {
            ScanType::PingSweep => vec!["-sn", "-PE", "-PP", "-PM"],
            ScanType::QuickScan => vec!["-sS", "-T4", "--top-ports", "100"],
            ScanType::StandardScan => vec!["-sS", "-sV", "-T4"],
            ScanType::FullScan => vec!["-sS", "-p-", "-T4"],
            ScanType::ServiceDetection => vec!["-sS", "-sV", "-sC", "-T4"],
            ScanType::OsDetection => vec!["-sS", "-O", "-T4"],
            ScanType::VulnerabilityScan => vec!["-sS", "-sV", "--script=vuln", "-T4"],
            ScanType::UdpScan => vec!["-sU", "--top-ports", "100", "-T4"],
            ScanType::Custom => vec![],
        };
        assert(r@.map_values(|a: &'static str| a@) =~= self.spec_nmap_args());
        r
    }

    pub open spec fn spec_display_name(self) -> Seq<char> {
        match self {
            ScanType::PingSweep => "Ping Sweep"@,
            ScanType::QuickScan => "Quick Scan"@,
            ScanType::StandardScan => "Standard Scan"@,
            ScanType::FullScan => "Full Port Scan"@,
            ScanType::ServiceDetection => "Service Detection"@,
            ScanType::OsDetection => "OS Detection"@,
            ScanType::VulnerabilityScan => "Vulnerability Scan"@,
            ScanType::UdpScan => "UDP Scan"@,
            ScanType::Custom => "Custom Scan"@,
        }
    }

    /// Get display name for the scan type
    pub fn display_name(&self) -> (r: &'static str)
        ensures
            r@ == self.spec_display_name(),
    {
        match self {
            ScanType::PingSweep => "Ping Sweep",
            ScanType::QuickScan => "Quick Scan",
            ScanType::StandardScan => "Standard Scan",
            ScanType::FullScan => "Full Port Scan",
            ScanType::ServiceDetection => "Service Detection",
            ScanType::OsDetection => "OS Detection",
            ScanType::VulnerabilityScan => "Vulnerability Scan",
            ScanType::UdpScan => "UDP Scan",
            ScanType::Custom => "Custom Scan",
        }
    }

    pub open spec fn spec_description(self) -> Seq<char> {
        match self {
            ScanType::PingSweep => "Fast host discovery using ICMP echo, timestamp, and netmask requests"@,
            ScanType::QuickScan => "TCP SYN scan of top 100 most common ports"@,
            ScanType::StandardScan => "TCP SYN scan with service version detection on top 1000 ports"@,
            ScanType::FullScan => "Complete TCP scan of all 65,535 ports"@,
            ScanType::ServiceDetection => "Service version detection with default NSE scripts"@,
            ScanType::OsDetection => "Operating system fingerprinting using TCP/IP stack analysis"@,
            ScanType::VulnerabilityScan => "Vulnerability detection using NSE vuln scripts"@,
            ScanType::UdpScan => "UDP scan of top 100 common UDP ports"@,
            ScanType::Custom => "Custom scan with user-defined Nmap options"@,
        }
    }

    /// Get description of what this scan does
    pub fn description(&self) -> (r: &'static str)
        ensures
            r@ == self.spec_description(),
    {
        match self {
            ScanType::PingSweep => "Fast host discovery using ICMP echo, timestamp, and netmask requests",
            ScanType::QuickScan => "TCP SYN scan of top 100 most common ports",
            ScanType::StandardScan => "TCP SYN scan with service version detection on top 1000 ports",
            ScanType::FullScan => "Complete TCP scan of all 65,535 ports",
            ScanType::ServiceDetection => "Service version detection with default NSE scripts",
            ScanType::OsDetection => "Operating system fingerprinting using TCP/IP stack analysis",
            ScanType::VulnerabilityScan => "Vulnerability detection using NSE vuln scripts",
            ScanType::UdpScan => "UDP scan of top 100 common UDP ports",
            ScanType::Custom => "Custom scan with user-defined Nmap options",
        }
    }

    pub open spec fn spec_duration_estimate(self) -> Seq<char> {
        match self {
            ScanType::PingSweep => "Fast (1-5 min)"@,
            ScanType::QuickScan => "Fast (2-10 min)"@,
            ScanType::StandardScan => "Medium (5-30 min)"@,
            ScanType::FullScan => "Slow (30-120 min)"@,
            ScanType::ServiceDetection => "Medium (10-45 min)"@,
            ScanType::OsDetection => "Medium (5-20 min)"@,
            ScanType::VulnerabilityScan => "Slow (30-90 min)"@,
            ScanType::UdpScan => "Slow (15-60 min)"@,
            ScanType::Custom => "Variable"@,
        }
    }

    /// Estimated duration category
    pub fn duration_estimate(&self) -> (r: &'static str)
        ensures
            r@ == self.spec_duration_estimate(),
    {
        match self {
            ScanType::PingSweep => "Fast (1-5 min)",
            ScanType::QuickScan => "Fast (2-10 min)",
            ScanType::StandardScan => "Medium (5-30 min)",
            ScanType::FullScan => "Slow (30-120 min)",
            ScanType::ServiceDetection => "Medium (10-45 min)",
            ScanType::OsDetection => "Medium (5-20 min)",
            ScanType::VulnerabilityScan => "Slow (30-90 min)",
            ScanType::UdpScan => "Slow (15-60 min)",
            ScanType::Custom => "Variable",
        }
    }
}

/// Status of a scan job
#[derive(Debug, Clone, Copy, PartialEq, Eq, Structural)]
pub enum ScanStatus {
    /// Scan is queued but not yet started
    Queued,
    /// Scan is currently running
    Running,
    /// Scan completed successfully
    Completed,
    /// Scan failed with an error
    Failed,
    /// Scan was cancelled by user
    Cancelled,
}

/// Port state as reported by Nmap
#[derive(Debug, Clone, Copy, PartialEq, Eq, Structural)]
pub enum PortState {
    Open,
    Closed,
    Filtered,
    Unfiltered,
    OpenFiltered,
    ClosedFiltered,
}

/// Protocol type for port
#[derive(Debug, Clone, Copy, PartialEq, Eq, Structural)]
pub enum Protocol {
    Tcp,
    Udp,
    Sctp,
}

// ============================================================================
// Scan Configuration
// ============================================================================

/// Configuration for a network scan
#[derive(Debug, Clone)]
pub struct ScanConfig {
    /// Target specification (IP, range, CIDR, hostname)
    pub targets: Vec<String>,
    /// Type of scan to perform
    pub scan_type: ScanType,
    /// Custom Nmap arguments (for custom scan type)
    pub custom_args: Option<String>,
    /// Specific ports to scan (overrides scan type defaults)
    pub ports: Option<String>,
    /// Exclude these targets from scanning
    pub exclude_targets: Option<Vec<String>>,
    /// Enable aggressive timing (faster but noisier)
    pub aggressive: bool,
    /// Skip host discovery (treat all hosts as online)
    pub skip_discovery: bool,
    /// Output format preferences
    pub output_formats: Vec<OutputFormat>,
}

impl ScanConfig {
    /// The settings a new scan starts from: a quick scan of no target yet,
    /// with normal and XML output.
    pub open spec fn spec_is_default(self) -> bool {
        &&& self.targets@.len() == 0
        &&& self.scan_type == ScanType::QuickScan
        &&& self.custom_args is None
        &&& self.ports is None
        &&& self.exclude_targets is None
        &&& !self.aggressive
        &&& !self.skip_discovery
        &&& self.output_formats@ == seq![OutputFormat::Normal, OutputFormat::Xml]
    }
}

impl Default for ScanConfig {
    fn default() -> (r: Self)
        ensures
            r.spec_is_default(),
    {
        ScanConfig {
            targets: Vec::new(),
            scan_type: ScanType::QuickScan,
            custom_args: None,
            ports: None,
            exclude_targets: None,
            aggressive: false,
            skip_discovery: false,
            output_formats: vec![OutputFormat::Normal, OutputFormat::Xml],
        }
    }
}

/// Output format for scan results
#[derive(Debug, Clone, Copy, PartialEq, Eq, Structural)]
pub enum OutputFormat {
    Normal,
    Xml,
    Grepable,
    Json,
}

// ============================================================================
// Scan Results
// ============================================================================

/// A network scan job
#[derive(Debug, Clone)]
pub struct ScanJob {
    /// Unique identifier for this scan
    pub id: String,
    /// Client ID this scan belongs to
    pub client_id: String,
    /// Human-readable name for the scan
    pub name: String,
    /// Scan configuration
    pub config: ScanConfig,
    /// Current status
    pub status: ScanStatus,
    /// When the scan was created
    pub created_at: String,
    /// When the scan started running
    pub started_at: Option<String>,
    /// When the scan completed
    pub completed_at: Option<String>,
    /// Error message if scan failed
    pub error: Option<String>,
    /// Progress percentage (0-100)
    pub progress: u8,
    /// Raw Nmap output
    pub raw_output: Option<String>,
}

/// A discovered host from a scan
#[derive(Debug, Clone)]
pub struct DiscoveredHost {
    /// IP address (v4 or v6)
    pub ip_address: String,
    /// MAC address if available
    pub mac_address: Option<String>,
    /// Hostname if resolved
    pub hostname: Option<String>,
    /// Vendor from MAC address lookup
    pub vendor: Option<String>,
    /// Host status (up/down)
    pub status: String,
    /// Discovered open ports
    pub ports: Vec<DiscoveredPort>,
    /// OS detection results
    pub os_matches: Vec<OsMatch>,
    /// Additional host scripts output
    pub host_scripts: Vec<ScriptResult>,
}

/// A discovered port on a host
#[derive(Debug, Clone)]
pub struct DiscoveredPort {
    /// Port number
    pub port: u16,
    /// Protocol (TCP/UDP)
    pub protocol: Protocol,
    /// Port state
    pub state: PortState,
    /// Service name
    pub service: Option<String>,
    /// Service product/version
    pub product: Option<String>,
    /// Product version
    pub version: Option<String>,
    /// Extra service info
    pub extra_info: Option<String>,
    /// NSE script results for this port
    pub scripts: Vec<ScriptResult>,
}

/// OS match from detection scan
#[derive(Debug, Clone)]
pub struct OsMatch {
    /// OS name
    pub name: String,
    /// Accuracy percentage
    pub accuracy: u8,
    /// OS family (Windows, Linux, etc.)
    pub os_family: Option<String>,
    /// OS generation
    pub os_gen: Option<String>,
    /// Device type
    pub device_type: Option<String>,
}

/// NSE script result
#[derive(Debug, Clone)]
pub struct ScriptResult {
    /// Script name
    pub id: String,
    /// Script output
    pub output: String,
}

// ============================================================================
// Asset Inventory
// ============================================================================

/// Asset category
#[derive(Debug, Clone, Copy, PartialEq, Eq, Structural)]
pub enum AssetCategory {
    Server,
    Workstation,
    NetworkDevice,
    SecurityDevice,
    Printer,
    IoT,
    Mobile,
    Virtual,
    Cloud,
    Unknown,
}

impl AssetCategory {
    pub open spec fn spec_display_name(self) -> Seq<char> {
        match self {
            AssetCategory::Server => "Server"@,
            AssetCategory::Workstation => "Workstation"@,
            AssetCategory::NetworkDevice => "Network Device"@,
            AssetCategory::SecurityDevice => "Security Device"@,
            AssetCategory::Printer => "Printer"@,
            AssetCategory::IoT => "IoT Device"@,
            AssetCategory::Mobile => "Mobile Device"@,
            AssetCategory::Virtual => "Virtual Machine"@,
            AssetCategory::Cloud => "Cloud Resource"@,
            AssetCategory::Unknown => "Unknown"@,
        }
    }

    pub fn display_name(&self) -> (r: &'static str)
        ensures
            r@ == self.spec_display_name(),
    {
        match self {
            AssetCategory::Server => "Server",
            AssetCategory::Workstation => "Workstation",
            AssetCategory::NetworkDevice => "Network Device",
            AssetCategory::SecurityDevice => "Security Device",
            AssetCategory::Printer => "Printer",
            AssetCategory::IoT => "IoT Device",
            AssetCategory::Mobile => "Mobile Device",
            AssetCategory::Virtual => "Virtual Machine",
            AssetCategory::Cloud => "Cloud Resource",
            AssetCategory::Unknown => "Unknown",
        }
    }
}

/// Asset criticality level
#[derive(Debug, Clone, Copy, PartialEq, Eq, Structural)]
pub enum Criticality {
    Critical,
    High,
    Medium,
    Low,
    Informational,
}

/// Asset status
#[derive(Debug, Clone, Copy, PartialEq, Eq, Structural)]
pub enum AssetStatus {
    Active,
    Inactive,
    Decommissioned,
    Pending,
    Maintenance,
}

/// A service running on an asset
#[derive(Debug, Clone)]
pub struct AssetService {
    /// Port number
    pub port: u16,
    /// Protocol
    pub protocol: Protocol,
    /// Service name
    pub name: String,
    /// Product/version info
    pub version: Option<String>,
    /// Service state
    pub state: PortState,
}

/// Asset group for organization
#[derive(Debug, Clone)]
pub struct AssetGroup {
    /// Unique group identifier
    pub id: String,
    /// Client this group belongs to
    pub client_id: String,
    /// Group name
    pub name: String,
    /// Group description
    pub description: Option<String>,
    /// Asset IDs in this group
    pub asset_ids: Vec<String>,
    /// Color for UI display
    pub color: Option<String>,
}

// ============================================================================
// Statistics
// ============================================================================

/// Network discovery statistics for a client
#[derive(Debug, Clone)]
pub struct NetworkStats {
    /// Total assets discovered
    pub total_assets: usize,
    /// Active assets
    pub active_assets: usize,
    /// Total scans performed
    pub total_scans: usize,
    /// Assets by category
    pub by_category: Vec<CategoryCount>,
    /// Assets by criticality
    pub by_criticality: Vec<CriticalityCount>,
    /// Top services discovered
    pub top_services: Vec<ServiceCount>,
    /// Recent scan activity
    pub recent_scans: Vec<ScanSummary>,
}

#[derive(Debug, Clone)]
pub struct CategoryCount {
    pub category: AssetCategory,
    pub count: usize,
}

#[derive(Debug, Clone)]
pub struct CriticalityCount {
    pub criticality: Criticality,
    pub count: usize,
}

#[derive(Debug, Clone)]
pub struct ServiceCount {
    pub service: String,
    pub port: u16,
    pub count: usize,
}

#[derive(Debug, Clone)]
pub struct ScanSummary {
    pub id: String,
    pub name: String,
    pub scan_type: ScanType,
    pub status: ScanStatus,
    pub hosts_found: u32,
    pub completed_at: Option<String>,
}

/// A request to queue a scan job.
#[derive(Debug, Clone)]
pub struct CreateScanRequest {
    pub client_id: String,
    pub name: String,
    pub targets: Vec<String>,
    pub scan_type: String,
    pub custom_args: Option<String>,
    pub ports: Option<String>,
    pub exclude_targets: Option<Vec<String>>,
    pub aggressive: bool,
    pub skip_discovery: bool,
}

/// Update asset details request
#[derive(Debug, Clone)]
pub struct UpdateAssetRequest {
    pub id: String,
    pub name: String,
    pub category: String,
    pub criticality: String,
    pub status: String,
    pub location: Option<String>,
    pub owner: Option<String>,
    pub description: Option<String>,
    pub tags: Vec<String>,
}

/// Create a new asset group
#[derive(Debug, Clone)]
pub struct CreateGroupRequest {
    pub client_id: String,
    pub name: String,
    pub description: Option<String>,
}

} // verus!
