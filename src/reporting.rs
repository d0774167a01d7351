//! Reporting Data Models
//!
//! Types for report generation, templates, and export formats.
use vstd::prelude::*;

verus! {

// ============================================================================
// Report Types
// ============================================================================

/// Type of report to generate
#[derive(Debug, Clone, Copy, PartialEq, Eq, Structural)]
pub enum ReportType {
    /// High-level summary for executives and stakeholders
    ExecutiveSummary,
    /// Detailed technical assessment report
    TechnicalAssessment,
    /// Compliance status and gap analysis
    ComplianceReport,
    /// Network discovery and asset inventory
    NetworkAssessment,
    /// Cloud migration readiness report
    CloudReadiness,
    /// Security findings and recommendations
    SecurityFindings,
    /// Full engagement report combining all modules
    FullEngagement,
}

impl ReportType {
    pub open spec fn spec_display_name(self) -> Seq<char> {
        match self {
            ReportType::ExecutiveSummary => "Executive Summary"@,
            ReportType::TechnicalAssessment => "Technical Assessment"@,
            ReportType::ComplianceReport => "Compliance Report"@,
            ReportType::NetworkAssessment => "Network Assessment"@,
            ReportType::CloudReadiness => "Cloud Readiness Report"@,
            ReportType::SecurityFindings => "Security Findings"@,
            ReportType::FullEngagement => "Full Engagement Report"@,
        }
    }

    pub fn display_name(&self) -> (r: &'static str)
        ensures
            r@ == self.spec_display_name(),
    {
        match self {
            ReportType::ExecutiveSummary => "Executive Summary",
            ReportType::TechnicalAssessment => "Technical Assessment",
            ReportType::ComplianceReport => "Compliance Report",
            ReportType::NetworkAssessment => "Network Assessment",
            ReportType::CloudReadiness => "Cloud Readiness Report",
            ReportType::SecurityFindings => "Security Findings",
            ReportType::FullEngagement => "Full Engagement Report",
        }
    }

    pub open spec fn spec_description(self) -> Seq<char> {
        match self {
            ReportType::ExecutiveSummary => "High-level overview for executives with key findings, risk summary, and strategic recommendations"@,
            ReportType::TechnicalAssessment => "Detailed technical findings, vulnerability analysis, and remediation guidance"@,
            ReportType::ComplianceReport => "Framework compliance status, control assessments, and gap analysis"@,
            ReportType::NetworkAssessment => "Network topology, asset inventory, and infrastructure analysis"@,
            ReportType::CloudReadiness => "Cloud migration readiness assessment with cost projections"@,
            ReportType::SecurityFindings => "Security vulnerabilities, risk ratings, and prioritized remediation"@,
            ReportType::FullEngagement => "Comprehensive report combining all assessment modules"@,
        }
    }

    pub fn description(&self) -> (r: &'static str)
        ensures
            r@ == self.spec_description(),
    {
        match self {
            ReportType::ExecutiveSummary => "High-level overview for executives with key findings, risk summary, and strategic recommendations",
            ReportType::TechnicalAssessment => "Detailed technical findings, vulnerability analysis, and remediation guidance",
            ReportType::ComplianceReport => "Framework compliance status, control assessments, and gap analysis",
            ReportType::NetworkAssessment => "Network topology, asset inventory, and infrastructure analysis",
            ReportType::CloudReadiness => "Cloud migration readiness assessment with cost projections",
            ReportType::SecurityFindings => "Security vulnerabilities, risk ratings, and prioritized remediation",
            ReportType::FullEngagement => "Comprehensive report combining all assessment modules",
        }
    }

    pub open spec fn spec_estimated_pages(self) -> Seq<char> {
        match self {
            ReportType::ExecutiveSummary => "5-10 pages"@,
            ReportType::TechnicalAssessment => "20-50 pages"@,
            ReportType::ComplianceReport => "15-40 pages"@,
            ReportType::NetworkAssessment => "10-30 pages"@,
            ReportType::CloudReadiness => "15-25 pages"@,
            ReportType::SecurityFindings => "10-30 pages"@,
            ReportType::FullEngagement => "50-100+ pages"@,
        }
    }

    pub fn estimated_pages(&self) -> (r: &'static str)
        ensures
            r@ == self.spec_estimated_pages(),
    {
        match self {
            ReportType::ExecutiveSummary => "5-10 pages",
            ReportType::TechnicalAssessment => "20-50 pages",
            ReportType::ComplianceReport => "15-40 pages",
            ReportType::NetworkAssessment => "10-30 pages",
            ReportType::CloudReadiness => "15-25 pages",
            ReportType::SecurityFindings => "10-30 pages",
            ReportType::FullEngagement => "50-100+ pages",
        }
    }
}

/// Export format for reports
#[derive(Debug, Clone, Copy, PartialEq, Eq, Structural)]
pub enum ExportFormat {
    Pdf,
    Html,
    Markdown,
    Docx,
    Json,
}

impl ExportFormat {
    pub open spec fn spec_extension(self) -> Seq<char> {
        match self {
            ExportFormat::Pdf => "pdf"@,
            ExportFormat::Html => "html"@,
            ExportFormat::Markdown => "md"@,
            ExportFormat::Docx => "docx"@,
            ExportFormat::Json => "json"@,
        }
    }

    pub fn extension(&self) -> (r: &'static str)
        ensures
            r@ == self.spec_extension(),
    {
        match self {
            ExportFormat::Pdf => "pdf",
            ExportFormat::Html => "html",
            ExportFormat::Markdown => "md",
            ExportFormat::Docx => "docx",
            ExportFormat::Json => "json",
        }
    }

    pub open spec fn spec_mime_type(self) -> Seq<char> {
        match self {
            ExportFormat::Pdf => "application/pdf"@,
            ExportFormat::Html => "text/html"@,
            ExportFormat::Markdown => "text/markdown"@,
            ExportFormat::Docx => "application/vnd.openxmlformats-officedocument.wordprocessingml.document"@,
            ExportFormat::Json => "application/json"@,
        }
    }

    pub fn mime_type(&self) -> (r: &'static str)
        ensures
            r@ == self.spec_mime_type(),
    {
        match self {
            ExportFormat::Pdf => "application/pdf",
            ExportFormat::Html => "text/html",
            ExportFormat::Markdown => "text/markdown",
            ExportFormat::Docx => "application/vnd.openxmlformats-officedocument.wordprocessingml.document",
            ExportFormat::Json => "application/json",
        }
    }
}

/// Report status
#[derive(Debug, Clone, Copy, PartialEq, Eq, Structural)]
pub enum ReportStatus {
    Draft,
    Generating,
    Ready,
    Failed,
    Archived,
}

// ============================================================================
// Report Configuration
// ============================================================================

/// Configuration for generating a report
#[derive(Debug, Clone)]
pub struct ReportConfig {
    /// Type of report to generate
    pub report_type: ReportType,
    /// Client information
    pub client_id: String,
    pub client_name: String,
    /// Report title
    pub title: String,
    /// Report subtitle/description
    pub subtitle: Option<String>,
    /// Consultant/author name
    pub author: String,
    /// Company/organization name
    pub organization: Option<String>,
    /// Export format
    pub format: ExportFormat,
    /// Include table of contents
    pub include_toc: bool,
    /// Include executive summary section
    pub include_executive_summary: bool,
    /// Include appendices
    pub include_appendices: bool,
    /// Include charts and visualizations
    pub include_charts: bool,
    /// Branding/logo path
    pub logo_path: Option<String>,
    /// Primary brand color
    pub primary_color: Option<String>,
    /// Additional notes
    pub notes: Option<String>,
    /// Classification level
    pub classification: Option<String>,
    /// Data sources to include
    pub data_sources: Vec<DataSource>,
}

impl Default for ReportConfig {
    /// An executive summary in PDF with every optional part included,
    /// marked confidential, in the default blue.
    fn default() -> (r: Self)
        ensures
            r.report_type == ReportType::ExecutiveSummary,
            r.format == ExportFormat::Pdf,
            r.title@ == "Security Assessment Report"@,
            r.client_id@.len() == 0 && r.client_name@.len() == 0 && r.author@.len() == 0,
            r.subtitle is None && r.organization is None && r.logo_path is None && r.notes is None,
            r.include_toc && r.include_executive_summary && r.include_appendices && r.include_charts,
            r.primary_color matches Some(c) && c@ == "#3B82F6"@,
            r.classification matches Some(c) && c@ == "Confidential"@,
            r.data_sources@.len() == 0,
    {
        ReportConfig {
            report_type: ReportType::ExecutiveSummary,
            client_id: String::new(),
            client_name: String::new(),
            title: String::from_str("Security Assessment Report"),
            subtitle: None,
            author: String::new(),
            organization: None,
            format: ExportFormat::Pdf,
            include_toc: true,
            include_executive_summary: true,
            include_appendices: true,
            include_charts: true,
            logo_path: None,
            primary_color: Some(String::from_str("#3B82F6")),
            notes: None,
            classification: Some(String::from_str("Confidential")),
            data_sources: Vec::new(),
        }
    }
}

/// Data source to include in report
#[derive(Debug, Clone)]
pub struct DataSource {
    /// Source type (assessment, scan, etc.)
    pub source_type: String,
    /// Source ID
    pub source_id: String,
    /// Whether to include this source
    pub included: bool,
}

// ============================================================================
// Report Structure
// ============================================================================

/// Report metadata
#[derive(Debug, Clone)]
pub struct ReportMetadata {
    pub title: String,
    pub subtitle: Option<String>,
    pub author: String,
    pub organization: Option<String>,
    pub client_name: String,
    pub report_date: String,
    pub classification: Option<String>,
    pub version: String,
    pub page_count: Option<u32>,
}

/// Chart type
#[derive(Debug, Clone, Copy, PartialEq, Eq, Structural)]
pub enum ChartType {
    Bar,
    Pie,
    Line,
    Donut,
    Radar,
    Heatmap,
    Gauge,
}

/// Key-value item
#[derive(Debug, Clone)]
pub struct KeyValueItem {
    pub key: String,
    pub value: String,
}

/// Callout type
#[derive(Debug, Clone, Copy, PartialEq, Eq, Structural)]
pub enum CalloutType {
    Info,
    Warning,
    Critical,
    Success,
    Note,
}

// ============================================================================
// Report Templates
// ============================================================================

/// Report template definition
#[derive(Debug, Clone)]
pub struct ReportTemplate {
    /// Template ID
    pub id: String,
    /// Template name
    pub name: String,
    /// Description
    pub description: String,
    /// Report type this template is for
    pub report_type: ReportType,
    /// Section definitions
    pub sections: Vec<TemplateSectionDef>,
    /// Default configuration
    pub default_config: ReportConfig,
}

/// Template section definition
#[derive(Debug, Clone)]
pub struct TemplateSectionDef {
    pub id: String,
    pub title: String,
    pub description: String,
    pub required: bool,
    pub default_included: bool,
}

// ============================================================================
// Report History
// ============================================================================

/// Summary of a generated report
#[derive(Debug, Clone)]
pub struct ReportSummary {
    pub id: String,
    pub title: String,
    pub report_type: ReportType,
    pub client_name: String,
    pub status: ReportStatus,
    pub format: ExportFormat,
    pub created_at: String,
    pub file_size: Option<u64>,
}

/// Statistics about reports
#[derive(Debug, Clone)]
pub struct ReportStats {
    pub total_reports: usize,
    pub reports_this_month: usize,
    pub by_type: Vec<ReportTypeCount>,
    pub by_status: Vec<ReportStatusCount>,
    pub recent_reports: Vec<ReportSummary>,
}

#[derive(Debug, Clone)]
pub struct ReportTypeCount {
    pub report_type: ReportType,
    pub count: usize,
}

#[derive(Debug, Clone)]
pub struct ReportStatusCount {
    pub status: ReportStatus,
    pub count: usize,
}

/// Report type info for frontend display
#[derive(Debug, Clone)]
pub struct ReportTypeInfo {
    pub report_type: ReportType,
    pub name: String,
    pub description: String,
    pub estimated_pages: String,
    pub icon: String,
}

/// Export format info for frontend display
#[derive(Debug, Clone)]
pub struct ExportFormatInfo {
    pub format: ExportFormat,
    pub name: String,
    pub description: String,
    pub icon: String,
}

/// The report types offered, in menu order, each with its icon.
pub open spec fn offered_report_types() -> Seq<(ReportType, Seq<char>)> {
    seq![
        (ReportType::ExecutiveSummary, "file-text"@),
        (ReportType::TechnicalAssessment, "code"@),
        (ReportType::ComplianceReport, "shield-check"@),
        (ReportType::NetworkAssessment, "network"@),
        (ReportType::CloudReadiness, "cloud"@),
        (ReportType::SecurityFindings, "alert-triangle"@),
        (ReportType::FullEngagement, "file-stack"@),
    ]
}

fn report_type_info(t: ReportType, icon: &str) -> (r: ReportTypeInfo)
    ensures
        r.report_type == t,
        r.name@ == t.spec_display_name(),
        r.description@ == t.spec_description(),
        r.estimated_pages@ == t.spec_estimated_pages(),
        r.icon@ == icon@,
{
    ReportTypeInfo {
        report_type: t,
        name: String::from_str(t.display_name()),
        description: String::from_str(t.description()),
        estimated_pages: String::from_str(t.estimated_pages()),
        icon: String::from_str(icon),
    }
}

/// Get report type info for UI display
pub fn get_report_type_info() -> (r: Vec<ReportTypeInfo>)
    ensures
        r@.len() == offered_report_types().len(),
        forall|k: int|
            #![trigger r@[k]]
            0 <= k < r@.len() ==> {
                let (t, icon) = offered_report_types()[k];
                &&& r@[k].report_type == t
                &&& r@[k].name@ == t.spec_display_name()
                &&& r@[k].description@ == t.spec_description()
                &&& r@[k].estimated_pages@ == t.spec_estimated_pages()
                &&& r@[k].icon@ == icon
            },
{
    vec![
        report_type_info(ReportType::ExecutiveSummary, "file-text"),
        report_type_info(ReportType::TechnicalAssessment, "code"),
        report_type_info(ReportType::ComplianceReport, "shield-check"),
        report_type_info(ReportType::NetworkAssessment, "network"),
        report_type_info(ReportType::CloudReadiness, "cloud"),
        report_type_info(ReportType::SecurityFindings, "alert-triangle"),
        report_type_info(ReportType::FullEngagement, "file-stack"),
    ]
}

/// The export formats offered: format, name, description and icon.
pub open spec fn offered_export_formats() -> Seq<(ExportFormat, Seq<char>, Seq<char>, Seq<char>)> {
    seq![
        (ExportFormat::Pdf, "PDF"@, "Professional PDF document"@, "file-pdf"@),
        (ExportFormat::Html, "HTML"@, "Web-viewable HTML document"@, "file-code"@),
        (ExportFormat::Markdown, "Markdown"@, "Plain text Markdown format"@, "file-text"@),
        (ExportFormat::Json, "JSON"@, "Structured JSON data"@, "file-json"@),
    ]
}

fn export_format_info(format: ExportFormat, name: &str, description: &str, icon: &str) -> (r:
    ExportFormatInfo)
    ensures
        (r.format, r.name@, r.description@, r.icon@) == (format, name@, description@, icon@),
{
    ExportFormatInfo {
        format,
        name: String::from_str(name),
        description: String::from_str(description),
        icon: String::from_str(icon),
    }
}

/// Get export format options
pub fn get_export_formats() -> (r: Vec<ExportFormatInfo>)
    ensures
        r@.map_values(|f: ExportFormatInfo| (f.format, f.name@, f.description@, f.icon@))
            == offered_export_formats(),
{
    let r = vec![
        export_format_info(ExportFormat::Pdf, "PDF", "Professional PDF document", "file-pdf"),
        export_format_info(ExportFormat::Html, "HTML", "Web-viewable HTML document", "file-code"),
        export_format_info(ExportFormat::Markdown, "Markdown", "Plain text Markdown format", "file-text"),
        export_format_info(ExportFormat::Json, "JSON", "Structured JSON data", "file-json"),
    ];
    assert(r@.map_values(|f: ExportFormatInfo| (f.format, f.name@, f.description@, f.icon@))
        =~= offered_export_formats());
    r
}

/// The fixed content of a report template: id, name, description, report
/// type, its sections (id, title, description, required, included by
/// default), and the title and inclusion flags of its default configuration.
pub type TemplateFacts = (
    Seq<char>,
    Seq<char>,
    Seq<char>,
    ReportType,
    Seq<(Seq<char>, Seq<char>, Seq<char>, bool, bool)>,
    Seq<char>,
    (bool, bool, bool, bool),
);

impl TemplateSectionDef {
    pub open spec fn facts(self) -> (Seq<char>, Seq<char>, Seq<char>, bool, bool) {
        (self.id@, self.title@, self.description@, self.required, self.default_included)
    }
}

impl ReportConfig {
    /// Every field but the report type, title and inclusion flags as a new
    /// configuration has it.
    pub open spec fn other_fields_default(self) -> bool {
        &&& self.format == ExportFormat::Pdf
        &&& self.client_id@.len() == 0 && self.client_name@.len() == 0 && self.author@.len() == 0
        &&& self.subtitle is None && self.organization is None && self.logo_path is None
        &&& self.notes is None
        &&& self.primary_color matches Some(c) && c@ == "#3B82F6"@
        &&& self.classification matches Some(c) && c@ == "Confidential"@
        &&& self.data_sources@.len() == 0
    }
}

impl ReportTemplate {
    pub open spec fn facts(self) -> TemplateFacts {
        (
            self.id@,
            self.name@,
            self.description@,
            self.report_type,
            self.sections@.map_values(|s: TemplateSectionDef| s.facts()),
            self.default_config.title@,
            (
                self.default_config.include_toc,
                self.default_config.include_executive_summary,
                self.default_config.include_appendices,
                self.default_config.include_charts,
            ),
        )
    }

    /// The template is for `t`, its default configuration too, and that
    /// configuration is otherwise the default one.
    pub open spec fn well_formed_for(self, t: ReportType) -> bool {
        &&& self.report_type == t
        &&& self.default_config.report_type == t
        &&& self.default_config.other_fields_default()
    }
}

/// The content of the template of each report type.
pub open spec fn template_table(t: ReportType) -> TemplateFacts {
    match t {
        ReportType::ExecutiveSummary => (
            "exec-summary-v1"@,
            "Executive Summary"@,
            "High-level overview for executives with key findings and strategic recommendations"@,
            ReportType::ExecutiveSummary,
            seq![
                ("exec-overview"@, "Executive Overview"@, "High-level summary of the engagement"@, true, true),
                ("key-findings"@, "Key Findings"@, "Critical findings and risk summary"@, true, true),
                ("risk-summary"@, "Risk Summary"@, "Overall risk assessment by domain"@, true, true),
                ("recommendations"@, "Strategic Recommendations"@, "Top priority recommendations"@, true, true),
                ("next-steps"@, "Next Steps"@, "Proposed action items and timeline"@, false, true),
            ],
            "Executive Summary Report"@,
            (false, false, false, true),
        ),
        ReportType::TechnicalAssessment => (
            "tech-assessment-v1"@,
            "Technical Assessment"@,
            "Detailed technical findings with vulnerability analysis and remediation guidance"@,
            ReportType::TechnicalAssessment,
            seq![
                ("tech-overview"@, "Assessment Overview"@, "Scope, methodology, and objectives"@, true, true),
                ("methodology"@, "Methodology"@, "Testing methodology and tools used"@, true, true),
                ("findings-summary"@, "Findings Summary"@, "Overview of all findings by severity"@, true, true),
                ("detailed-findings"@, "Detailed Findings"@, "Individual findings with technical details"@, true, true),
                ("remediation"@, "Remediation Roadmap"@, "Prioritized remediation plan"@, true, true),
                ("appendix-tools"@, "Appendix: Tools & Techniques"@, "Tools and commands used during testing"@, false, true),
                ("appendix-evidence"@, "Appendix: Evidence"@, "Supporting evidence and screenshots"@, false, true),
            ],
            "Technical Security Assessment"@,
            (true, true, true, true),
        ),
        ReportType::ComplianceReport => (
            "compliance-v1"@,
            "Compliance Report"@,
            "Framework compliance status, control assessments, and gap analysis"@,
            ReportType::ComplianceReport,
            seq![
                ("compliance-overview"@, "Compliance Overview"@, "Assessment scope and framework summary"@, true, true),
                ("framework-status"@, "Framework Compliance Status"@, "Compliance scores by framework"@, true, true),
                ("control-matrix"@, "Control Assessment Matrix"@, "Detailed control-by-control assessment"@, true, true),
                ("gap-analysis"@, "Gap Analysis"@, "Identified gaps and deficiencies"@, true, true),
                ("remediation-plan"@, "Remediation Plan"@, "Plan to address compliance gaps"@, true, true),
                ("evidence-summary"@, "Evidence Summary"@, "Summary of collected evidence"@, false, true),
            ],
            "Compliance Assessment Report"@,
            (true, true, true, true),
        ),
        ReportType::NetworkAssessment => (
            "network-v1"@,
            "Network Assessment"@,
            "Network topology, asset inventory, and infrastructure analysis"@,
            ReportType::NetworkAssessment,
            seq![
                ("network-overview"@, "Network Overview"@, "Scope and discovery methodology"@, true, true),
                ("topology"@, "Network Topology"@, "Network architecture and segments"@, true, true),
                ("asset-inventory"@, "Asset Inventory"@, "Discovered assets by category"@, true, true),
                ("service-analysis"@, "Service Analysis"@, "Running services and protocols"@, true, true),
                ("security-posture"@, "Security Posture"@, "Network security observations"@, true, true),
                ("recommendations"@, "Recommendations"@, "Network hardening recommendations"@, true, true),
            ],
            "Network Assessment Report"@,
            (true, true, true, true),
        ),
        ReportType::CloudReadiness => (
            "cloud-readiness-v1"@,
            "Cloud Readiness"@,
            "Cloud migration readiness assessment with cost projections"@,
            ReportType::CloudReadiness,
            seq![
                ("cloud-overview"@, "Assessment Overview"@, "Migration goals and scope"@, true, true),
                ("readiness-score"@, "Readiness Assessment"@, "Overall readiness score and breakdown"@, true, true),
                ("workload-analysis"@, "Workload Analysis"@, "Application and workload assessment"@, true, true),
                ("migration-strategy"@, "Migration Strategy"@, "Recommended migration approach (6 Rs)"@, true, true),
                ("cost-analysis"@, "Cost Analysis"@, "TCO comparison and cost projections"@, true, true),
                ("roadmap"@, "Migration Roadmap"@, "Phased migration plan"@, true, true),
                ("risks"@, "Risks & Mitigations"@, "Migration risks and mitigation strategies"@, false, true),
            ],
            "Cloud Readiness Assessment"@,
            (true, true, false, true),
        ),
        ReportType::SecurityFindings => (
            "security-findings-v1"@,
            "Security Findings"@,
            "Security vulnerabilities, risk ratings, and prioritized remediation"@,
            ReportType::SecurityFindings,
            seq![
                ("findings-overview"@, "Findings Overview"@, "Summary of security findings"@, true, true),
                ("critical-findings"@, "Critical Findings"@, "Critical severity findings"@, true, true),
                ("high-findings"@, "High Findings"@, "High severity findings"@, true, true),
                ("medium-findings"@, "Medium Findings"@, "Medium severity findings"@, true, true),
                ("low-findings"@, "Low & Informational"@, "Low severity and informational findings"@, false, true),
                ("remediation-priority"@, "Remediation Priority"@, "Prioritized remediation plan"@, true, true),
            ],
            "Security Findings Report"@,
            (true, true, true, true),
        ),
        ReportType::FullEngagement => (
            "full-engagement-v1"@,
            "Full Engagement Report"@,
            "Comprehensive report combining all assessment modules"@,
            ReportType::FullEngagement,
            seq![
                ("engagement-overview"@, "Engagement Overview"@, "Full scope and objectives"@, true, true),
                ("executive-summary"@, "Executive Summary"@, "High-level summary for executives"@, true, true),
                ("compliance-assessment"@, "Compliance Assessment"@, "Framework compliance analysis"@, false, true),
                ("network-assessment"@, "Network Assessment"@, "Network and asset analysis"@, false, true),
                ("security-findings"@, "Security Findings"@, "Detailed security findings"@, true, true),
                ("cloud-readiness"@, "Cloud Readiness"@, "Cloud migration assessment"@, false, false),
                ("remediation-roadmap"@, "Remediation Roadmap"@, "Comprehensive remediation plan"@, true, true),
                ("appendices"@, "Appendices"@, "Supporting documentation"@, false, true),
            ],
            "Security Engagement Report"@,
            (true, true, true, true),
        ),
    }
}

fn section(id: &str, title: &str, description: &str, required: bool, default_included: bool) -> (r:
    TemplateSectionDef)
    ensures
        r.facts() == (id@, title@, description@, required, default_included),
{
    TemplateSectionDef {
        id: String::from_str(id),
        title: String::from_str(title),
        description: String::from_str(description),
        required,
        default_included,
    }
}

fn template_config(t: ReportType, title: &str, toc: bool, summary: bool, appendices: bool, charts: bool) -> (r:
    ReportConfig)
    ensures
        r.report_type == t,
        r.title@ == title@,
        (r.include_toc, r.include_executive_summary, r.include_appendices, r.include_charts) == (
            toc,
            summary,
            appendices,
            charts,
        ),
        r.other_fields_default(),
{
    let mut c = ReportConfig::default();
    c.report_type = t;
    c.title = String::from_str(title);
    c.include_toc = toc;
    c.include_executive_summary = summary;
    c.include_appendices = appendices;
    c.include_charts = charts;
    c
}

fn get_executive_summary_template() -> (r: ReportTemplate)
    ensures
        r.facts() == template_table(ReportType::ExecutiveSummary),
        r.well_formed_for(ReportType::ExecutiveSummary),
{
    let sections = vec![
        section("exec-overview", "Executive Overview", "High-level summary of the engagement", true, true),
        section("key-findings", "Key Findings", "Critical findings and risk summary", true, true),
        section("risk-summary", "Risk Summary", "Overall risk assessment by domain", true, true),
        section("recommendations", "Strategic Recommendations", "Top priority recommendations", true, true),
        section("next-steps", "Next Steps", "Proposed action items and timeline", false, true),
    ];
    let r = ReportTemplate {
        id: String::from_str("exec-summary-v1"),
        name: String::from_str("Executive Summary"),
        description: String::from_str("High-level overview for executives with key findings and strategic recommendations"),
        report_type: ReportType::ExecutiveSummary,
        sections,
        default_config: template_config(ReportType::ExecutiveSummary, "Executive Summary Report", false, false, false, true),
    };
    assert(r.facts().4 =~= template_table(ReportType::ExecutiveSummary).4);
    r
}

fn get_technical_assessment_template() -> (r: ReportTemplate)
    ensures
        r.facts() == template_table(ReportType::TechnicalAssessment),
        r.well_formed_for(ReportType::TechnicalAssessment),
{
    let sections = vec![
        section("tech-overview", "Assessment Overview", "Scope, methodology, and objectives", true, true),
        section("methodology", "Methodology", "Testing methodology and tools used", true, true),
        section("findings-summary", "Findings Summary", "Overview of all findings by severity", true, true),
        section("detailed-findings", "Detailed Findings", "Individual findings with technical details", true, true),
        section("remediation", "Remediation Roadmap", "Prioritized remediation plan", true, true),
        section("appendix-tools", "Appendix: Tools & Techniques", "Tools and commands used during testing", false, true),
        section("appendix-evidence", "Appendix: Evidence", "Supporting evidence and screenshots", false, true),
    ];
    let r = ReportTemplate {
        id: String::from_str("tech-assessment-v1"),
        name: String::from_str("Technical Assessment"),
        description: String::from_str("Detailed technical findings with vulnerability analysis and remediation guidance"),
        report_type: ReportType::TechnicalAssessment,
        sections,
        default_config: template_config(ReportType::TechnicalAssessment, "Technical Security Assessment", true, true, true, true),
    };
    assert(r.facts().4 =~= template_table(ReportType::TechnicalAssessment).4);
    r
}

fn get_compliance_report_template() -> (r: ReportTemplate)
    ensures
        r.facts() == template_table(ReportType::ComplianceReport),
        r.well_formed_for(ReportType::ComplianceReport),
{
    let sections = vec![
        section("compliance-overview", "Compliance Overview", "Assessment scope and framework summary", true, true),
        section("framework-status", "Framework Compliance Status", "Compliance scores by framework", true, true),
        section("control-matrix", "Control Assessment Matrix", "Detailed control-by-control assessment", true, true),
        section("gap-analysis", "Gap Analysis", "Identified gaps and deficiencies", true, true),
        section("remediation-plan", "Remediation Plan", "Plan to address compliance gaps", true, true),
        section("evidence-summary", "Evidence Summary", "Summary of collected evidence", false, true),
    ];
    let r = ReportTemplate {
        id: String::from_str("compliance-v1"),
        name: String::from_str("Compliance Report"),
        description: String::from_str("Framework compliance status, control assessments, and gap analysis"),
        report_type: ReportType::ComplianceReport,
        sections,
        default_config: template_config(ReportType::ComplianceReport, "Compliance Assessment Report", true, true, true, true),
    };
    assert(r.facts().4 =~= template_table(ReportType::ComplianceReport).4);
    r
}

fn get_network_assessment_template() -> (r: ReportTemplate)
    ensures
        r.facts() == template_table(ReportType::NetworkAssessment),
        r.well_formed_for(ReportType::NetworkAssessment),
{
    let sections = vec![
        section("network-overview", "Network Overview", "Scope and discovery methodology", true, true),
        section("topology", "Network Topology", "Network architecture and segments", true, true),
        section("asset-inventory", "Asset Inventory", "Discovered assets by category", true, true),
        section("service-analysis", "Service Analysis", "Running services and protocols", true, true),
        section("security-posture", "Security Posture", "Network security observations", true, true),
        section("recommendations", "Recommendations", "Network hardening recommendations", true, true),
    ];
    let r = ReportTemplate {
        id: String::from_str("network-v1"),
        name: String::from_str("Network Assessment"),
        description: String::from_str("Network topology, asset inventory, and infrastructure analysis"),
        report_type: ReportType::NetworkAssessment,
        sections,
        default_config: template_config(ReportType::NetworkAssessment, "Network Assessment Report", true, true, true, true),
    };
    assert(r.facts().4 =~= template_table(ReportType::NetworkAssessment).4);
    r
}

fn get_cloud_readiness_template() -> (r: ReportTemplate)
    ensures
        r.facts() == template_table(ReportType::CloudReadiness),
        r.well_formed_for(ReportType::CloudReadiness),
{
    let sections = vec![
        section("cloud-overview", "Assessment Overview", "Migration goals and scope", true, true),
        section("readiness-score", "Readiness Assessment", "Overall readiness score and breakdown", true, true),
        section("workload-analysis", "Workload Analysis", "Application and workload assessment", true, true),
        section("migration-strategy", "Migration Strategy", "Recommended migration approach (6 Rs)", true, true),
        section("cost-analysis", "Cost Analysis", "TCO comparison and cost projections", true, true),
        section("roadmap", "Migration Roadmap", "Phased migration plan", true, true),
        section("risks", "Risks & Mitigations", "Migration risks and mitigation strategies", false, true),
    ];
    let r = ReportTemplate {
        id: String::from_str("cloud-readiness-v1"),
        name: String::from_str("Cloud Readiness"),
        description: String::from_str("Cloud migration readiness assessment with cost projections"),
        report_type: ReportType::CloudReadiness,
        sections,
        default_config: template_config(ReportType::CloudReadiness, "Cloud Readiness Assessment", true, true, false, true),
    };
    assert(r.facts().4 =~= template_table(ReportType::CloudReadiness).4);
    r
}

fn get_security_findings_template() -> (r: ReportTemplate)
    ensures
        r.facts() == template_table(ReportType::SecurityFindings),
        r.well_formed_for(ReportType::SecurityFindings),
{
    let sections = vec![
        section("findings-overview", "Findings Overview", "Summary of security findings", true, true),
        section("critical-findings", "Critical Findings", "Critical severity findings", true, true),
        section("high-findings", "High Findings", "High severity findings", true, true),
        section("medium-findings", "Medium Findings", "Medium severity findings", true, true),
        section("low-findings", "Low & Informational", "Low severity and informational findings", false, true),
        section("remediation-priority", "Remediation Priority", "Prioritized remediation plan", true, true),
    ];
    let r = ReportTemplate {
        id: String::from_str("security-findings-v1"),
        name: String::from_str("Security Findings"),
        description: String::from_str("Security vulnerabilities, risk ratings, and prioritized remediation"),
        report_type: ReportType::SecurityFindings,
        sections,
        default_config: template_config(ReportType::SecurityFindings, "Security Findings Report", true, true, true, true),
    };
    assert(r.facts().4 =~= template_table(ReportType::SecurityFindings).4);
    r
}

fn get_full_engagement_template() -> (r: ReportTemplate)
    ensures
        r.facts() == template_table(ReportType::FullEngagement),
        r.well_formed_for(ReportType::FullEngagement),
{
    let sections = vec![
        section("engagement-overview", "Engagement Overview", "Full scope and objectives", true, true),
        section("executive-summary", "Executive Summary", "High-level summary for executives", true, true),
        section("compliance-assessment", "Compliance Assessment", "Framework compliance analysis", false, true),
        section("network-assessment", "Network Assessment", "Network and asset analysis", false, true),
        section("security-findings", "Security Findings", "Detailed security findings", true, true),
        section("cloud-readiness", "Cloud Readiness", "Cloud migration assessment", false, false),
        section("remediation-roadmap", "Remediation Roadmap", "Comprehensive remediation plan", true, true),
        section("appendices", "Appendices", "Supporting documentation", false, true),
    ];
    let r = ReportTemplate {
        id: String::from_str("full-engagement-v1"),
        name: String::from_str("Full Engagement Report"),
        description: String::from_str("Comprehensive report combining all assessment modules"),
        report_type: ReportType::FullEngagement,
        sections,
        default_config: template_config(ReportType::FullEngagement, "Security Engagement Report", true, true, true, true),
    };
    assert(r.facts().4 =~= template_table(ReportType::FullEngagement).4);
    r
}

/// The report types that have a template, in menu order.
pub open spec fn templated_types() -> Seq<ReportType> {
    seq![ReportType::ExecutiveSummary, ReportType::TechnicalAssessment, ReportType::ComplianceReport, ReportType::NetworkAssessment, ReportType::CloudReadiness, ReportType::SecurityFindings, ReportType::FullEngagement]
}

/// Get a specific template by report type
pub fn get_template_for_type(report_type: ReportType) -> (r: ReportTemplate)
    ensures
        r.facts() == template_table(report_type),
        r.well_formed_for(report_type),
{
    match report_type {
        ReportType::ExecutiveSummary => get_executive_summary_template(),
        ReportType::TechnicalAssessment => get_technical_assessment_template(),
        ReportType::ComplianceReport => get_compliance_report_template(),
        ReportType::NetworkAssessment => get_network_assessment_template(),
        ReportType::CloudReadiness => get_cloud_readiness_template(),
        ReportType::SecurityFindings => get_security_findings_template(),
        ReportType::FullEngagement => get_full_engagement_template(),
    }
}

/// Get all available report templates, one per report type.
pub fn get_report_templates() -> (r: Vec<ReportTemplate>)
    ensures
        r@.len() == templated_types().len(),
        forall|k: int|
            0 <= k < r@.len() ==> (#[trigger] r@[k]).facts() == template_table(templated_types()[k])
                && r@[k].well_formed_for(templated_types()[k]),
{
    vec![
        get_executive_summary_template(),
        get_technical_assessment_template(),
        get_compliance_report_template(),
        get_network_assessment_template(),
        get_cloud_readiness_template(),
        get_security_findings_template(),
        get_full_engagement_template(),
    ]
}

/// Report generator for creating structured reports
pub struct ReportGenerator {
    config: ReportConfig,
}

impl ReportGenerator {
    /// The configuration the generator works from.
    pub closed spec fn config(self) -> ReportConfig {
        self.config
    }

    pub fn new(config: ReportConfig) -> (r: Self)
        ensures
            r.config() == config,
    {
        ReportGenerator { config }
    }
}

} // verus!
