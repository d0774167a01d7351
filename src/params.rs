//! Enum values named in request parameters, read in any letter case.
use crate::grc::{AssessmentStatus, ComplianceStatus, EvidenceType, Framework};
use crate::models::{AssetCategory, AssetStatus, Criticality, ScanType};
use crate::reporting::{ExportFormat, ReportType};
use crate::text::{eq_underscored, lower_of, str_eq, to_lower, to_upper, underscored, upper_of};
use vstd::prelude::*;

verus! {

/// The ScanType a lowercase name stands for.
pub open spec fn scan_type_named(s: Seq<char>) -> Option<ScanType> {
    if s == "ping_sweep"@ || s == "pingsweep"@ || s == "ping"@ {
        Some(ScanType::PingSweep)
    } else if s == "quick_scan"@ || s == "quickscan"@ || s == "quick"@ {
        Some(ScanType::QuickScan)
    } else if s == "standard_scan"@ || s == "standardscan"@ || s == "standard"@ {
        Some(ScanType::StandardScan)
    } else if s == "full_scan"@ || s == "fullscan"@ || s == "full"@ {
        Some(ScanType::FullScan)
    } else if s == "service_detection"@ || s == "servicedetection"@ || s == "service"@ {
        Some(ScanType::ServiceDetection)
    } else if s == "os_detection"@ || s == "osdetection"@ || s == "os"@ {
        Some(ScanType::OsDetection)
    } else if s == "vulnerability_scan"@ || s == "vulnerabilityscan"@ || s == "vuln"@ {
        Some(ScanType::VulnerabilityScan)
    } else if s == "udp_scan"@ || s == "udpscan"@ || s == "udp"@ {
        Some(ScanType::UdpScan)
    } else if s == "custom"@ {
        Some(ScanType::Custom)
    } else {
        None
    }
}

/// Reads a ScanType from its lowercase name.
pub fn scan_type_from_name(s: &str) -> (r: Option<ScanType>)
    ensures
        r == scan_type_named(s@),
{
    if str_eq(s, "ping_sweep") || str_eq(s, "pingsweep") || str_eq(s, "ping") {
        return Some(ScanType::PingSweep);
    }
    if str_eq(s, "quick_scan") || str_eq(s, "quickscan") || str_eq(s, "quick") {
        return Some(ScanType::QuickScan);
    }
    if str_eq(s, "standard_scan") || str_eq(s, "standardscan") || str_eq(s, "standard") {
        return Some(ScanType::StandardScan);
    }
    if str_eq(s, "full_scan") || str_eq(s, "fullscan") || str_eq(s, "full") {
        return Some(ScanType::FullScan);
    }
    if str_eq(s, "service_detection") || str_eq(s, "servicedetection") || str_eq(s, "service") {
        return Some(ScanType::ServiceDetection);
    }
    if str_eq(s, "os_detection") || str_eq(s, "osdetection") || str_eq(s, "os") {
        return Some(ScanType::OsDetection);
    }
    if str_eq(s, "vulnerability_scan") || str_eq(s, "vulnerabilityscan") || str_eq(s, "vuln") {
        return Some(ScanType::VulnerabilityScan);
    }
    if str_eq(s, "udp_scan") || str_eq(s, "udpscan") || str_eq(s, "udp") {
        return Some(ScanType::UdpScan);
    }
    if str_eq(s, "custom") {
        return Some(ScanType::Custom);
    }
    None
}

/// Parses a ScanType name in any letter case.
pub fn parse_scan_type(s: &str) -> (r: Result<ScanType, String>)
    ensures
        match scan_type_named(lower_of(s@)) {
            Some(t) => r matches Ok(x) && x == t,
            None => r matches Err(m) && m@ == "Unknown scan type: "@ + s@,
        },
{
    let named = to_lower(s);
    match scan_type_from_name(named.as_str()) {
        Some(t) => Ok(t),
        None => Err(String::from_str("Unknown scan type: ").concat(s)),
    }
}

/// The AssetCategory a lowercase name stands for.
pub open spec fn asset_category_named(s: Seq<char>) -> Option<AssetCategory> {
    if s == "server"@ {
        Some(AssetCategory::Server)
    } else if s == "workstation"@ {
        Some(AssetCategory::Workstation)
    } else if s == "networkdevice"@ || s == "network_device"@ || s == "network"@ {
        Some(AssetCategory::NetworkDevice)
    } else if s == "securitydevice"@ || s == "security_device"@ || s == "security"@ {
        Some(AssetCategory::SecurityDevice)
    } else if s == "printer"@ {
        Some(AssetCategory::Printer)
    } else if s == "iot"@ {
        Some(AssetCategory::IoT)
    } else if s == "mobile"@ {
        Some(AssetCategory::Mobile)
    } else if s == "virtual"@ || s == "vm"@ {
        Some(AssetCategory::Virtual)
    } else if s == "cloud"@ {
        Some(AssetCategory::Cloud)
    } else if s == "unknown"@ {
        Some(AssetCategory::Unknown)
    } else {
        None
    }
}

/// Reads a AssetCategory from its lowercase name.
pub fn asset_category_from_name(s: &str) -> (r: Option<AssetCategory>)
    ensures
        r == asset_category_named(s@),
{
    if str_eq(s, "server") {
        return Some(AssetCategory::Server);
    }
    if str_eq(s, "workstation") {
        return Some(AssetCategory::Workstation);
    }
    if str_eq(s, "networkdevice") || str_eq(s, "network_device") || str_eq(s, "network") {
        return Some(AssetCategory::NetworkDevice);
    }
    if str_eq(s, "securitydevice") || str_eq(s, "security_device") || str_eq(s, "security") {
        return Some(AssetCategory::SecurityDevice);
    }
    if str_eq(s, "printer") {
        return Some(AssetCategory::Printer);
    }
    if str_eq(s, "iot") {
        return Some(AssetCategory::IoT);
    }
    if str_eq(s, "mobile") {
        return Some(AssetCategory::Mobile);
    }
    if str_eq(s, "virtual") || str_eq(s, "vm") {
        return Some(AssetCategory::Virtual);
    }
    if str_eq(s, "cloud") {
        return Some(AssetCategory::Cloud);
    }
    if str_eq(s, "unknown") {
        return Some(AssetCategory::Unknown);
    }
    None
}

/// Parses a AssetCategory name in any letter case.
pub fn parse_asset_category(s: &str) -> (r: Result<AssetCategory, String>)
    ensures
        match asset_category_named(lower_of(s@)) {
            Some(t) => r matches Ok(x) && x == t,
            None => r matches Err(m) && m@ == "Unknown asset category: "@ + s@,
        },
{
    let named = to_lower(s);
    match asset_category_from_name(named.as_str()) {
        Some(t) => Ok(t),
        None => Err(String::from_str("Unknown asset category: ").concat(s)),
    }
}

/// The Criticality a lowercase name stands for.
pub open spec fn criticality_named(s: Seq<char>) -> Option<Criticality> {
    if s == "critical"@ {
        Some(Criticality::Critical)
    } else if s == "high"@ {
        Some(Criticality::High)
    } else if s == "medium"@ {
        Some(Criticality::Medium)
    } else if s == "low"@ {
        Some(Criticality::Low)
    } else if s == "informational"@ || s == "info"@ {
        Some(Criticality::Informational)
    } else {
        None
    }
}

/// Reads a Criticality from its lowercase name.
pub fn criticality_from_name(s: &str) -> (r: Option<Criticality>)
    ensures
        r == criticality_named(s@),
{
    if str_eq(s, "critical") {
        return Some(Criticality::Critical);
    }
    if str_eq(s, "high") {
        return Some(Criticality::High);
    }
    if str_eq(s, "medium") {
        return Some(Criticality::Medium);
    }
    if str_eq(s, "low") {
        return Some(Criticality::Low);
    }
    if str_eq(s, "informational") || str_eq(s, "info") {
        return Some(Criticality::Informational);
    }
    None
}

/// Parses a Criticality name in any letter case.
pub fn parse_criticality(s: &str) -> (r: Result<Criticality, String>)
    ensures
        match criticality_named(lower_of(s@)) {
            Some(t) => r matches Ok(x) && x == t,
            None => r matches Err(m) && m@ == "Unknown criticality: "@ + s@,
        },
{
    let named = to_lower(s);
    match criticality_from_name(named.as_str()) {
        Some(t) => Ok(t),
        None => Err(String::from_str("Unknown criticality: ").concat(s)),
    }
}

/// The AssetStatus a lowercase name stands for.
pub open spec fn asset_status_named(s: Seq<char>) -> Option<AssetStatus> {
    if s == "active"@ {
        Some(AssetStatus::Active)
    } else if s == "inactive"@ {
        Some(AssetStatus::Inactive)
    } else if s == "decommissioned"@ {
        Some(AssetStatus::Decommissioned)
    } else if s == "pending"@ {
        Some(AssetStatus::Pending)
    } else if s == "maintenance"@ {
        Some(AssetStatus::Maintenance)
    } else {
        None
    }
}

/// Reads a AssetStatus from its lowercase name.
pub fn asset_status_from_name(s: &str) -> (r: Option<AssetStatus>)
    ensures
        r == asset_status_named(s@),
{
    if str_eq(s, "active") {
        return Some(AssetStatus::Active);
    }
    if str_eq(s, "inactive") {
        return Some(AssetStatus::Inactive);
    }
    if str_eq(s, "decommissioned") {
        return Some(AssetStatus::Decommissioned);
    }
    if str_eq(s, "pending") {
        return Some(AssetStatus::Pending);
    }
    if str_eq(s, "maintenance") {
        return Some(AssetStatus::Maintenance);
    }
    None
}

/// Parses a AssetStatus name in any letter case.
pub fn parse_asset_status(s: &str) -> (r: Result<AssetStatus, String>)
    ensures
        match asset_status_named(lower_of(s@)) {
            Some(t) => r matches Ok(x) && x == t,
            None => r matches Err(m) && m@ == "Unknown asset status: "@ + s@,
        },
{
    let named = to_lower(s);
    match asset_status_from_name(named.as_str()) {
        Some(t) => Ok(t),
        None => Err(String::from_str("Unknown asset status: ").concat(s)),
    }
}

/// The ReportType a lowercase name stands for.
pub open spec fn report_type_named(s: Seq<char>) -> Option<ReportType> {
    if s == "executive_summary"@ || s == "executivesummary"@ || s == "executive"@ {
        Some(ReportType::ExecutiveSummary)
    } else if s == "technical_assessment"@ || s == "technicalassessment"@ || s == "technical"@ {
        Some(ReportType::TechnicalAssessment)
    } else if s == "compliance_report"@ || s == "compliancereport"@ || s == "compliance"@ {
        Some(ReportType::ComplianceReport)
    } else if s == "network_assessment"@ || s == "networkassessment"@ || s == "network"@ {
        Some(ReportType::NetworkAssessment)
    } else if s == "cloud_readiness"@ || s == "cloudreadiness"@ || s == "cloud"@ {
        Some(ReportType::CloudReadiness)
    } else if s == "security_findings"@ || s == "securityfindings"@ || s == "security"@ || s == "findings"@ {
        Some(ReportType::SecurityFindings)
    } else if s == "full_engagement"@ || s == "fullengagement"@ || s == "full"@ {
        Some(ReportType::FullEngagement)
    } else {
        None
    }
}

/// Reads a ReportType from its lowercase name, hyphens read as underscores.
pub fn report_type_from_name(s: &str) -> (r: Option<ReportType>)
    ensures
        r == report_type_named(underscored(s@)),
{
    if eq_underscored(s, "executive_summary") || eq_underscored(s, "executivesummary") || eq_underscored(s, "executive") {
        return Some(ReportType::ExecutiveSummary);
    }
    if eq_underscored(s, "technical_assessment") || eq_underscored(s, "technicalassessment") || eq_underscored(s, "technical") {
        return Some(ReportType::TechnicalAssessment);
    }
    if eq_underscored(s, "compliance_report") || eq_underscored(s, "compliancereport") || eq_underscored(s, "compliance") {
        return Some(ReportType::ComplianceReport);
    }
    if eq_underscored(s, "network_assessment") || eq_underscored(s, "networkassessment") || eq_underscored(s, "network") {
        return Some(ReportType::NetworkAssessment);
    }
    if eq_underscored(s, "cloud_readiness") || eq_underscored(s, "cloudreadiness") || eq_underscored(s, "cloud") {
        return Some(ReportType::CloudReadiness);
    }
    if eq_underscored(s, "security_findings") || eq_underscored(s, "securityfindings") || eq_underscored(s, "security") || eq_underscored(s, "findings") {
        return Some(ReportType::SecurityFindings);
    }
    if eq_underscored(s, "full_engagement") || eq_underscored(s, "fullengagement") || eq_underscored(s, "full") {
        return Some(ReportType::FullEngagement);
    }
    None
}

/// Parses a ReportType name in any letter case.
pub fn parse_report_type(s: &str) -> (r: Result<ReportType, String>)
    ensures
        match report_type_named(underscored(lower_of(s@))) {
            Some(t) => r matches Ok(x) && x == t,
            None => r matches Err(m) && m@ == "Unknown report type: "@ + s@,
        },
{
    let named = to_lower(s);
    match report_type_from_name(named.as_str()) {
        Some(t) => Ok(t),
        None => Err(String::from_str("Unknown report type: ").concat(s)),
    }
}

/// The ExportFormat a lowercase name stands for.
pub open spec fn export_format_named(s: Seq<char>) -> Option<ExportFormat> {
    if s == "pdf"@ {
        Some(ExportFormat::Pdf)
    } else if s == "html"@ {
        Some(ExportFormat::Html)
    } else if s == "markdown"@ || s == "md"@ {
        Some(ExportFormat::Markdown)
    } else if s == "docx"@ || s == "word"@ {
        Some(ExportFormat::Docx)
    } else if s == "json"@ {
        Some(ExportFormat::Json)
    } else {
        None
    }
}

/// Reads a ExportFormat from its lowercase name.
pub fn export_format_from_name(s: &str) -> (r: Option<ExportFormat>)
    ensures
        r == export_format_named(s@),
{
    if str_eq(s, "pdf") {
        return Some(ExportFormat::Pdf);
    }
    if str_eq(s, "html") {
        return Some(ExportFormat::Html);
    }
    if str_eq(s, "markdown") || str_eq(s, "md") {
        return Some(ExportFormat::Markdown);
    }
    if str_eq(s, "docx") || str_eq(s, "word") {
        return Some(ExportFormat::Docx);
    }
    if str_eq(s, "json") {
        return Some(ExportFormat::Json);
    }
    None
}

/// Parses a ExportFormat name in any letter case.
pub fn parse_export_format(s: &str) -> (r: Result<ExportFormat, String>)
    ensures
        match export_format_named(lower_of(s@)) {
            Some(t) => r matches Ok(x) && x == t,
            None => r matches Err(m) && m@ == "Unknown export format: "@ + s@,
        },
{
    let named = to_lower(s);
    match export_format_from_name(named.as_str()) {
        Some(t) => Ok(t),
        None => Err(String::from_str("Unknown export format: ").concat(s)),
    }
}

/// The Framework an uppercase name stands for.
pub open spec fn framework_named(s: Seq<char>) -> Option<Framework> {
    if s == "NIST_CSF_2"@ || s == "NISTCSF2"@ || s == "NIST_CSF2"@ || s == "NIST CSF 2.0"@ {
        Some(Framework::NistCsf2)
    } else if s == "SOC_2_TYPE_II"@ || s == "SOC2TYPEII"@ || s == "SOC2"@ || s == "SOC 2 TYPE II"@ {
        Some(Framework::Soc2TypeII)
    } else if s == "GDPR"@ {
        Some(Framework::Gdpr)
    } else {
        None
    }
}

/// Reads a Framework from its uppercase name.
pub fn framework_from_name(s: &str) -> (r: Option<Framework>)
    ensures
        r == framework_named(s@),
{
    if str_eq(s, "NIST_CSF_2") || str_eq(s, "NISTCSF2") || str_eq(s, "NIST_CSF2") || str_eq(s, "NIST CSF 2.0") {
        return Some(Framework::NistCsf2);
    }
    if str_eq(s, "SOC_2_TYPE_II") || str_eq(s, "SOC2TYPEII") || str_eq(s, "SOC2") || str_eq(s, "SOC 2 TYPE II") {
        return Some(Framework::Soc2TypeII);
    }
    if str_eq(s, "GDPR") {
        return Some(Framework::Gdpr);
    }
    None
}

/// Parses a Framework name in any letter case.
pub fn parse_framework_param(s: &str) -> (r: Result<Framework, String>)
    ensures
        match framework_named(upper_of(s@)) {
            Some(t) => r matches Ok(x) && x == t,
            None => r matches Err(m) && m@ == "Unknown framework: "@ + s@,
        },
{
    let named = to_upper(s);
    match framework_from_name(named.as_str()) {
        Some(t) => Ok(t),
        None => Err(String::from_str("Unknown framework: ").concat(s)),
    }
}

/// The AssessmentStatus an uppercase name stands for.
pub open spec fn assessment_status_named(s: Seq<char>) -> Option<AssessmentStatus> {
    if s == "DRAFT"@ {
        Some(AssessmentStatus::Draft)
    } else if s == "IN_PROGRESS"@ || s == "INPROGRESS"@ {
        Some(AssessmentStatus::InProgress)
    } else if s == "UNDER_REVIEW"@ || s == "UNDERREVIEW"@ {
        Some(AssessmentStatus::UnderReview)
    } else if s == "COMPLETED"@ {
        Some(AssessmentStatus::Completed)
    } else if s == "ARCHIVED"@ {
        Some(AssessmentStatus::Archived)
    } else {
        None
    }
}

/// Reads a AssessmentStatus from its uppercase name.
pub fn assessment_status_from_name(s: &str) -> (r: Option<AssessmentStatus>)
    ensures
        r == assessment_status_named(s@),
{
    if str_eq(s, "DRAFT") {
        return Some(AssessmentStatus::Draft);
    }
    if str_eq(s, "IN_PROGRESS") || str_eq(s, "INPROGRESS") {
        return Some(AssessmentStatus::InProgress);
    }
    if str_eq(s, "UNDER_REVIEW") || str_eq(s, "UNDERREVIEW") {
        return Some(AssessmentStatus::UnderReview);
    }
    if str_eq(s, "COMPLETED") {
        return Some(AssessmentStatus::Completed);
    }
    if str_eq(s, "ARCHIVED") {
        return Some(AssessmentStatus::Archived);
    }
    None
}

/// Parses a AssessmentStatus name in any letter case.
pub fn parse_assessment_status_param(s: &str) -> (r: Result<AssessmentStatus, String>)
    ensures
        match assessment_status_named(upper_of(s@)) {
            Some(t) => r matches Ok(x) && x == t,
            None => r matches Err(m) && m@ == "Unknown assessment status: "@ + s@,
        },
{
    let named = to_upper(s);
    match assessment_status_from_name(named.as_str()) {
        Some(t) => Ok(t),
        None => Err(String::from_str("Unknown assessment status: ").concat(s)),
    }
}

/// The ComplianceStatus an uppercase name stands for.
pub open spec fn compliance_status_named(s: Seq<char>) -> Option<ComplianceStatus> {
    if s == "NOT_ASSESSED"@ || s == "NOTASSESSED"@ {
        Some(ComplianceStatus::NotAssessed)
    } else if s == "COMPLIANT"@ {
        Some(ComplianceStatus::Compliant)
    } else if s == "PARTIALLY_COMPLIANT"@ || s == "PARTIALLYCOMPLIANT"@ {
        Some(ComplianceStatus::PartiallyCompliant)
    } else if s == "NON_COMPLIANT"@ || s == "NONCOMPLIANT"@ {
        Some(ComplianceStatus::NonCompliant)
    } else if s == "NOT_APPLICABLE"@ || s == "NOTAPPLICABLE"@ || s == "N/A"@ {
        Some(ComplianceStatus::NotApplicable)
    } else {
        None
    }
}

/// Reads a ComplianceStatus from its uppercase name.
pub fn compliance_status_from_name(s: &str) -> (r: Option<ComplianceStatus>)
    ensures
        r == compliance_status_named(s@),
{
    if str_eq(s, "NOT_ASSESSED") || str_eq(s, "NOTASSESSED") {
        return Some(ComplianceStatus::NotAssessed);
    }
    if str_eq(s, "COMPLIANT") {
        return Some(ComplianceStatus::Compliant);
    }
    if str_eq(s, "PARTIALLY_COMPLIANT") || str_eq(s, "PARTIALLYCOMPLIANT") {
        return Some(ComplianceStatus::PartiallyCompliant);
    }
    if str_eq(s, "NON_COMPLIANT") || str_eq(s, "NONCOMPLIANT") {
        return Some(ComplianceStatus::NonCompliant);
    }
    if str_eq(s, "NOT_APPLICABLE") || str_eq(s, "NOTAPPLICABLE") || str_eq(s, "N/A") {
        return Some(ComplianceStatus::NotApplicable);
    }
    None
}

/// Parses a ComplianceStatus name in any letter case.
pub fn parse_compliance_status_param(s: &str) -> (r: Result<ComplianceStatus, String>)
    ensures
        match compliance_status_named(upper_of(s@)) {
            Some(t) => r matches Ok(x) && x == t,
            None => r matches Err(m) && m@ == "Unknown compliance status: "@ + s@,
        },
{
    let named = to_upper(s);
    match compliance_status_from_name(named.as_str()) {
        Some(t) => Ok(t),
        None => Err(String::from_str("Unknown compliance status: ").concat(s)),
    }
}

/// The EvidenceType an uppercase name stands for.
pub open spec fn evidence_type_named(s: Seq<char>) -> Option<EvidenceType> {
    if s == "DOCUMENT"@ {
        Some(EvidenceType::Document)
    } else if s == "SCREENSHOT"@ {
        Some(EvidenceType::Screenshot)
    } else if s == "CONFIGURATION"@ {
        Some(EvidenceType::Configuration)
    } else if s == "SCAN_RESULT"@ || s == "SCANRESULT"@ {
        Some(EvidenceType::ScanResult)
    } else if s == "INTERVIEW"@ {
        Some(EvidenceType::Interview)
    } else if s == "LOG_FILE"@ || s == "LOGFILE"@ {
        Some(EvidenceType::LogFile)
    } else if s == "OTHER"@ {
        Some(EvidenceType::Other)
    } else {
        None
    }
}

/// Reads a EvidenceType from its uppercase name.
pub fn evidence_type_from_name(s: &str) -> (r: Option<EvidenceType>)
    ensures
        r == evidence_type_named(s@),
{
    if str_eq(s, "DOCUMENT") {
        return Some(EvidenceType::Document);
    }
    if str_eq(s, "SCREENSHOT") {
        return Some(EvidenceType::Screenshot);
    }
    if str_eq(s, "CONFIGURATION") {
        return Some(EvidenceType::Configuration);
    }
    if str_eq(s, "SCAN_RESULT") || str_eq(s, "SCANRESULT") {
        return Some(EvidenceType::ScanResult);
    }
    if str_eq(s, "INTERVIEW") {
        return Some(EvidenceType::Interview);
    }
    if str_eq(s, "LOG_FILE") || str_eq(s, "LOGFILE") {
        return Some(EvidenceType::LogFile);
    }
    if str_eq(s, "OTHER") {
        return Some(EvidenceType::Other);
    }
    None
}

/// Parses a EvidenceType name in any letter case.
pub fn parse_evidence_type_param(s: &str) -> (r: Result<EvidenceType, String>)
    ensures
        match evidence_type_named(upper_of(s@)) {
            Some(t) => r matches Ok(x) && x == t,
            None => r matches Err(m) && m@ == "Unknown evidence type: "@ + s@,
        },
{
    let named = to_upper(s);
    match evidence_type_from_name(named.as_str()) {
        Some(t) => Ok(t),
        None => Err(String::from_str("Unknown evidence type: ").concat(s)),
    }
}

} // verus!
