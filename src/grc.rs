//! GRC Data Models
//!
//! Core data structures for compliance frameworks, controls, evidence,
//! and assessments.
use crate::text::str_eq;
use vstd::prelude::*;

verus! {

/// Supported compliance frameworks
#[derive(Debug, Clone, Copy, PartialEq, Eq, Hash, Structural)]
pub enum Framework {
    /// NIST Cybersecurity Framework 2.0
    NistCsf2,
    /// SOC 2 Type II
    Soc2TypeII,
    /// General Data Protection Regulation
    Gdpr,
}

impl Framework {
    pub open spec fn spec_display_name(self) -> Seq<char> {
        match self {
            Framework::NistCsf2 => "NIST CSF 2.0"@,
            Framework::Soc2TypeII => "SOC 2 Type II"@,
            Framework::Gdpr => "GDPR"@,
        }
    }

    pub fn display_name(&self) -> (r: &'static str)
        ensures
            r@ == self.spec_display_name(),
    {
        match self {
            Framework::NistCsf2 => "NIST CSF 2.0",
            Framework::Soc2TypeII => "SOC 2 Type II",
            Framework::Gdpr => "GDPR",
        }
    }

    pub open spec fn spec_description(self) -> Seq<char> {
        match self {
            Framework::NistCsf2 => "NIST Cybersecurity Framework version 2.0 - A voluntary framework for managing cybersecurity risk"@,
            Framework::Soc2TypeII => "Service Organization Control 2 Type II - Trust Services Criteria for security, availability, processing integrity, confidentiality, and privacy"@,
            Framework::Gdpr => "General Data Protection Regulation - EU regulation on data protection and privacy"@,
        }
    }

    pub fn description(&self) -> (r: &'static str)
        ensures
            r@ == self.spec_description(),
    {
        match self {
            Framework::NistCsf2 => "NIST Cybersecurity Framework version 2.0 - A voluntary framework for managing cybersecurity risk",
            Framework::Soc2TypeII => "Service Organization Control 2 Type II - Trust Services Criteria for security, availability, processing integrity, confidentiality, and privacy",
            Framework::Gdpr => "General Data Protection Regulation - EU regulation on data protection and privacy",
        }
    }

    pub fn all() -> (r: Vec<Framework>)
        ensures
            r@ == seq![Framework::NistCsf2, Framework::Soc2TypeII, Framework::Gdpr],
    {
        vec![Framework::NistCsf2, Framework::Soc2TypeII, Framework::Gdpr]
    }
}

/// NIST CSF 2.0 Functions (top-level categories)
#[derive(Debug, Clone, Copy, PartialEq, Eq, Hash, Structural)]
pub enum NistFunction {
    Govern,
    Identify,
    Protect,
    Detect,
    Respond,
    Recover,
}

impl NistFunction {
    pub open spec fn spec_code(self) -> Seq<char> {
        match self {
            NistFunction::Govern => "GV"@,
            NistFunction::Identify => "ID"@,
            NistFunction::Protect => "PR"@,
            NistFunction::Detect => "DE"@,
            NistFunction::Respond => "RS"@,
            NistFunction::Recover => "RC"@,
        }
    }

    pub fn code(&self) -> (r: &'static str)
        ensures
            r@ == self.spec_code(),
    {
        match self {
            NistFunction::Govern => "GV",
            NistFunction::Identify => "ID",
            NistFunction::Protect => "PR",
            NistFunction::Detect => "DE",
            NistFunction::Respond => "RS",
            NistFunction::Recover => "RC",
        }
    }

    pub open spec fn spec_display_name(self) -> Seq<char> {
        match self {
            NistFunction::Govern => "Govern"@,
            NistFunction::Identify => "Identify"@,
            NistFunction::Protect => "Protect"@,
            NistFunction::Detect => "Detect"@,
            NistFunction::Respond => "Respond"@,
            NistFunction::Recover => "Recover"@,
        }
    }

    pub fn display_name(&self) -> (r: &'static str)
        ensures
            r@ == self.spec_display_name(),
    {
        match self {
            NistFunction::Govern => "Govern",
            NistFunction::Identify => "Identify",
            NistFunction::Protect => "Protect",
            NistFunction::Detect => "Detect",
            NistFunction::Respond => "Respond",
            NistFunction::Recover => "Recover",
        }
    }

    pub open spec fn spec_description(self) -> Seq<char> {
        match self {
            NistFunction::Govern => "Establish and monitor the organization's cybersecurity risk management strategy, expectations, and policy"@,
            NistFunction::Identify => "Understand the organization's current cybersecurity risk posture"@,
            NistFunction::Protect => "Use safeguards to manage cybersecurity risks"@,
            NistFunction::Detect => "Find and analyze possible cybersecurity attacks and compromises"@,
            NistFunction::Respond => "Take action regarding a detected cybersecurity incident"@,
            NistFunction::Recover => "Restore assets and operations affected by a cybersecurity incident"@,
        }
    }

    pub fn description(&self) -> (r: &'static str)
        ensures
            r@ == self.spec_description(),
    {
        match self {
            NistFunction::Govern => "Establish and monitor the organization's cybersecurity risk management strategy, expectations, and policy",
            NistFunction::Identify => "Understand the organization's current cybersecurity risk posture",
            NistFunction::Protect => "Use safeguards to manage cybersecurity risks",
            NistFunction::Detect => "Find and analyze possible cybersecurity attacks and compromises",
            NistFunction::Respond => "Take action regarding a detected cybersecurity incident",
            NistFunction::Recover => "Restore assets and operations affected by a cybersecurity incident",
        }
    }

    pub open spec fn spec_color(self) -> Seq<char> {
        match self {
            NistFunction::Govern => "#8b5cf6"@,
            NistFunction::Identify => "#3b82f6"@,
            NistFunction::Protect => "#22c55e"@,
            NistFunction::Detect => "#f59e0b"@,
            NistFunction::Respond => "#ef4444"@,
            NistFunction::Recover => "#06b6d4"@,
        }
    }

    pub fn color(&self) -> (r: &'static str)
        ensures
            r@ == self.spec_color(),
    {
        match self {
            NistFunction::Govern => "#8b5cf6",
            NistFunction::Identify => "#3b82f6",
            NistFunction::Protect => "#22c55e",
            NistFunction::Detect => "#f59e0b",
            NistFunction::Respond => "#ef4444",
            NistFunction::Recover => "#06b6d4",
        }
    }

    pub fn all() -> (r: Vec<NistFunction>)
        ensures
            r@ == seq![NistFunction::Govern, NistFunction::Identify, NistFunction::Protect, NistFunction::Detect, NistFunction::Respond, NistFunction::Recover],
    {
        vec![NistFunction::Govern, NistFunction::Identify, NistFunction::Protect, NistFunction::Detect, NistFunction::Respond, NistFunction::Recover]
    }
}

/// SOC 2 Trust Services Categories
#[derive(Debug, Clone, Copy, PartialEq, Eq, Hash, Structural)]
pub enum Soc2Category {
    Security,
    Availability,
    ProcessingIntegrity,
    Confidentiality,
    Privacy,
}

impl Soc2Category {
    pub open spec fn spec_code(self) -> Seq<char> {
        match self {
            Soc2Category::Security => "CC"@,
            Soc2Category::Availability => "A"@,
            Soc2Category::ProcessingIntegrity => "PI"@,
            Soc2Category::Confidentiality => "C"@,
            Soc2Category::Privacy => "P"@,
        }
    }

    pub fn code(&self) -> (r: &'static str)
        ensures
            r@ == self.spec_code(),
    {
        match self {
            Soc2Category::Security => "CC",
            Soc2Category::Availability => "A",
            Soc2Category::ProcessingIntegrity => "PI",
            Soc2Category::Confidentiality => "C",
            Soc2Category::Privacy => "P",
        }
    }

    pub open spec fn spec_display_name(self) -> Seq<char> {
        match self {
            Soc2Category::Security => "Security"@,
            Soc2Category::Availability => "Availability"@,
            Soc2Category::ProcessingIntegrity => "Processing Integrity"@,
            Soc2Category::Confidentiality => "Confidentiality"@,
            Soc2Category::Privacy => "Privacy"@,
        }
    }

    pub fn display_name(&self) -> (r: &'static str)
        ensures
            r@ == self.spec_display_name(),
    {
        match self {
            Soc2Category::Security => "Security",
            Soc2Category::Availability => "Availability",
            Soc2Category::ProcessingIntegrity => "Processing Integrity",
            Soc2Category::Confidentiality => "Confidentiality",
            Soc2Category::Privacy => "Privacy",
        }
    }

    pub open spec fn spec_color(self) -> Seq<char> {
        match self {
            Soc2Category::Security => "#3b82f6"@,
            Soc2Category::Availability => "#22c55e"@,
            Soc2Category::ProcessingIntegrity => "#f59e0b"@,
            Soc2Category::Confidentiality => "#8b5cf6"@,
            Soc2Category::Privacy => "#ec4899"@,
        }
    }

    pub fn color(&self) -> (r: &'static str)
        ensures
            r@ == self.spec_color(),
    {
        match self {
            Soc2Category::Security => "#3b82f6",
            Soc2Category::Availability => "#22c55e",
            Soc2Category::ProcessingIntegrity => "#f59e0b",
            Soc2Category::Confidentiality => "#8b5cf6",
            Soc2Category::Privacy => "#ec4899",
        }
    }

    pub fn all() -> (r: Vec<Soc2Category>)
        ensures
            r@ == seq![Soc2Category::Security, Soc2Category::Availability, Soc2Category::ProcessingIntegrity, Soc2Category::Confidentiality, Soc2Category::Privacy],
    {
        vec![Soc2Category::Security, Soc2Category::Availability, Soc2Category::ProcessingIntegrity, Soc2Category::Confidentiality, Soc2Category::Privacy]
    }
}

/// GDPR Articles/Chapters
#[derive(Debug, Clone, Copy, PartialEq, Eq, Hash, Structural)]
pub enum GdprChapter {
    Principles,
    DataSubjectRights,
    ControllerProcessor,
    TransferToThirdCountries,
    SupervisoryAuthorities,
    Remedies,
}

impl GdprChapter {
    pub open spec fn spec_code(self) -> Seq<char> {
        match self {
            GdprChapter::Principles => "CH2"@,
            GdprChapter::DataSubjectRights => "CH3"@,
            GdprChapter::ControllerProcessor => "CH4"@,
            GdprChapter::TransferToThirdCountries => "CH5"@,
            GdprChapter::SupervisoryAuthorities => "CH6"@,
            GdprChapter::Remedies => "CH8"@,
        }
    }

    pub fn code(&self) -> (r: &'static str)
        ensures
            r@ == self.spec_code(),
    {
        match self {
            GdprChapter::Principles => "CH2",
            GdprChapter::DataSubjectRights => "CH3",
            GdprChapter::ControllerProcessor => "CH4",
            GdprChapter::TransferToThirdCountries => "CH5",
            GdprChapter::SupervisoryAuthorities => "CH6",
            GdprChapter::Remedies => "CH8",
        }
    }

    pub open spec fn spec_display_name(self) -> Seq<char> {
        match self {
            GdprChapter::Principles => "Principles"@,
            GdprChapter::DataSubjectRights => "Data Subject Rights"@,
            GdprChapter::ControllerProcessor => "Controller & Processor"@,
            GdprChapter::TransferToThirdCountries => "Transfers to Third Countries"@,
            GdprChapter::SupervisoryAuthorities => "Supervisory Authorities"@,
            GdprChapter::Remedies => "Remedies & Penalties"@,
        }
    }

    pub fn display_name(&self) -> (r: &'static str)
        ensures
            r@ == self.spec_display_name(),
    {
        match self {
            GdprChapter::Principles => "Principles",
            GdprChapter::DataSubjectRights => "Data Subject Rights",
            GdprChapter::ControllerProcessor => "Controller & Processor",
            GdprChapter::TransferToThirdCountries => "Transfers to Third Countries",
            GdprChapter::SupervisoryAuthorities => "Supervisory Authorities",
            GdprChapter::Remedies => "Remedies & Penalties",
        }
    }

    pub open spec fn spec_color(self) -> Seq<char> {
        match self {
            GdprChapter::Principles => "#3b82f6"@,
            GdprChapter::DataSubjectRights => "#22c55e"@,
            GdprChapter::ControllerProcessor => "#f59e0b"@,
            GdprChapter::TransferToThirdCountries => "#8b5cf6"@,
            GdprChapter::SupervisoryAuthorities => "#ec4899"@,
            GdprChapter::Remedies => "#ef4444"@,
        }
    }

    pub fn color(&self) -> (r: &'static str)
        ensures
            r@ == self.spec_color(),
    {
        match self {
            GdprChapter::Principles => "#3b82f6",
            GdprChapter::DataSubjectRights => "#22c55e",
            GdprChapter::ControllerProcessor => "#f59e0b",
            GdprChapter::TransferToThirdCountries => "#8b5cf6",
            GdprChapter::SupervisoryAuthorities => "#ec4899",
            GdprChapter::Remedies => "#ef4444",
        }
    }

    pub fn all() -> (r: Vec<GdprChapter>)
        ensures
            r@ == seq![GdprChapter::Principles, GdprChapter::DataSubjectRights, GdprChapter::ControllerProcessor, GdprChapter::TransferToThirdCountries, GdprChapter::SupervisoryAuthorities, GdprChapter::Remedies],
    {
        vec![GdprChapter::Principles, GdprChapter::DataSubjectRights, GdprChapter::ControllerProcessor, GdprChapter::TransferToThirdCountries, GdprChapter::SupervisoryAuthorities, GdprChapter::Remedies]
    }
}

/// A compliance control/requirement
#[derive(Debug, Clone)]
pub struct Control {
    /// Unique identifier
    pub id: String,
    /// Framework this control belongs to
    pub framework: Framework,
    /// Control code (e.g., "PR.AC-1", "CC6.1", "Art. 25")
    pub code: String,
    /// Category/Function/Chapter this control belongs to
    pub category: String,
    /// Subcategory if applicable
    pub subcategory: Option<String>,
    /// Control title
    pub title: String,
    /// Full description of the control
    pub description: String,
    /// Implementation guidance
    pub guidance: Option<String>,
    /// Related controls in other frameworks
    pub cross_references: Vec<String>,
    /// Priority/importance level (1-5)
    pub priority: u8,
}

/// Compliance status for a control
#[derive(Debug, Clone, Copy, PartialEq, Eq, Structural)]
pub enum ComplianceStatus {
    /// Not yet assessed
    NotAssessed,
    /// Fully compliant
    Compliant,
    /// Partially compliant (some gaps)
    PartiallyCompliant,
    /// Not compliant
    NonCompliant,
    /// Not applicable to this organization
    NotApplicable,
}

impl ComplianceStatus {
    pub open spec fn spec_display_name(self) -> Seq<char> {
        match self {
            ComplianceStatus::NotAssessed => "Not Assessed"@,
            ComplianceStatus::Compliant => "Compliant"@,
            ComplianceStatus::PartiallyCompliant => "Partially Compliant"@,
            ComplianceStatus::NonCompliant => "Non-Compliant"@,
            ComplianceStatus::NotApplicable => "Not Applicable"@,
        }
    }

    pub fn display_name(&self) -> (r: &'static str)
        ensures
            r@ == self.spec_display_name(),
    {
        match self {
            ComplianceStatus::NotAssessed => "Not Assessed",
            ComplianceStatus::Compliant => "Compliant",
            ComplianceStatus::PartiallyCompliant => "Partially Compliant",
            ComplianceStatus::NonCompliant => "Non-Compliant",
            ComplianceStatus::NotApplicable => "Not Applicable",
        }
    }

    pub open spec fn spec_color(self) -> Seq<char> {
        match self {
            ComplianceStatus::NotAssessed => "#64748b"@,
            ComplianceStatus::Compliant => "#22c55e"@,
            ComplianceStatus::PartiallyCompliant => "#f59e0b"@,
            ComplianceStatus::NonCompliant => "#ef4444"@,
            ComplianceStatus::NotApplicable => "#94a3b8"@,
        }
    }

    pub fn color(&self) -> (r: &'static str)
        ensures
            r@ == self.spec_color(),
    {
        match self {
            ComplianceStatus::NotAssessed => "#64748b",
            ComplianceStatus::Compliant => "#22c55e",
            ComplianceStatus::PartiallyCompliant => "#f59e0b",
            ComplianceStatus::NonCompliant => "#ef4444",
            ComplianceStatus::NotApplicable => "#94a3b8",
        }
    }
}

/// Evidence type
#[derive(Debug, Clone, Copy, PartialEq, Eq, Structural)]
pub enum EvidenceType {
    /// Document (policy, procedure, etc.)
    Document,
    /// Screenshot or image
    Screenshot,
    /// Configuration export
    Configuration,
    /// Scan/audit result
    ScanResult,
    /// Interview notes
    Interview,
    /// Log file or excerpt
    LogFile,
    /// Other evidence
    Other,
}

impl EvidenceType {
    pub open spec fn spec_display_name(self) -> Seq<char> {
        match self {
            EvidenceType::Document => "Document"@,
            EvidenceType::Screenshot => "Screenshot"@,
            EvidenceType::Configuration => "Configuration"@,
            EvidenceType::ScanResult => "Scan Result"@,
            EvidenceType::Interview => "Interview"@,
            EvidenceType::LogFile => "Log File"@,
            EvidenceType::Other => "Other"@,
        }
    }

    pub fn display_name(&self) -> (r: &'static str)
        ensures
            r@ == self.spec_display_name(),
    {
        match self {
            EvidenceType::Document => "Document",
            EvidenceType::Screenshot => "Screenshot",
            EvidenceType::Configuration => "Configuration",
            EvidenceType::ScanResult => "Scan Result",
            EvidenceType::Interview => "Interview",
            EvidenceType::LogFile => "Log File",
            EvidenceType::Other => "Other",
        }
    }
}

/// Status of an assessment
#[derive(Debug, Clone, Copy, PartialEq, Eq, Structural)]
pub enum AssessmentStatus {
    /// Not yet started
    Draft,
    /// Currently in progress
    InProgress,
    /// Under review
    UnderReview,
    /// Completed
    Completed,
    /// Archived
    Archived,
}

impl AssessmentStatus {
    pub open spec fn spec_display_name(self) -> Seq<char> {
        match self {
            AssessmentStatus::Draft => "Draft"@,
            AssessmentStatus::InProgress => "In Progress"@,
            AssessmentStatus::UnderReview => "Under Review"@,
            AssessmentStatus::Completed => "Completed"@,
            AssessmentStatus::Archived => "Archived"@,
        }
    }

    pub fn display_name(&self) -> (r: &'static str)
        ensures
            r@ == self.spec_display_name(),
    {
        match self {
            AssessmentStatus::Draft => "Draft",
            AssessmentStatus::InProgress => "In Progress",
            AssessmentStatus::UnderReview => "Under Review",
            AssessmentStatus::Completed => "Completed",
            AssessmentStatus::Archived => "Archived",
        }
    }
}

/// Asset count by category for reports
#[derive(Debug, Clone)]
pub struct AssetCategoryCount {
    pub category: String,
    pub count: usize,
}

/// A finding for executive reports
#[derive(Debug, Clone)]
pub struct ExecutiveFinding {
    pub id: String,
    pub title: String,
    pub severity: String,
    pub description: String,
    pub recommendation: String,
}

/// Risk summary for executive reports
#[derive(Debug, Clone)]
pub struct RiskSummary {
    pub critical_count: usize,
    pub high_count: usize,
    pub medium_count: usize,
    pub low_count: usize,
    pub overall_risk_rating: String,
}

/// The display name and colour of a control category code of a framework;
/// an unknown code is shown as itself, in grey.
pub open spec fn category_info_spec(framework: Framework, category: Seq<char>) -> (Seq<char>, Seq<char>) {
    match framework {
        Framework::NistCsf2 => if category == "GV"@ {
            ("Govern"@, "#8b5cf6"@)
        } else if category == "ID"@ {
            ("Identify"@, "#3b82f6"@)
        } else if category == "PR"@ {
            ("Protect"@, "#22c55e"@)
        } else if category == "DE"@ {
            ("Detect"@, "#f59e0b"@)
        } else if category == "RS"@ {
            ("Respond"@, "#ef4444"@)
        } else if category == "RC"@ {
            ("Recover"@, "#06b6d4"@)
        } else {
            (category, "#64748b"@)
        },
        Framework::Soc2TypeII => if category == "CC"@ {
            ("Security"@, "#3b82f6"@)
        } else if category == "A"@ {
            ("Availability"@, "#22c55e"@)
        } else if category == "PI"@ {
            ("Processing Integrity"@, "#f59e0b"@)
        } else if category == "C"@ {
            ("Confidentiality"@, "#8b5cf6"@)
        } else if category == "P"@ {
            ("Privacy"@, "#ec4899"@)
        } else {
            (category, "#64748b"@)
        },
        Framework::Gdpr => if category == "CH2"@ {
            ("Principles"@, "#3b82f6"@)
        } else if category == "CH3"@ {
            ("Data Subject Rights"@, "#22c55e"@)
        } else if category == "CH4"@ {
            ("Controller & Processor"@, "#f59e0b"@)
        } else if category == "CH5"@ {
            ("Transfers"@, "#8b5cf6"@)
        } else if category == "CH6"@ {
            ("Supervisory Authorities"@, "#ec4899"@)
        } else if category == "CH8"@ {
            ("Remedies"@, "#ef4444"@)
        } else {
            (category, "#64748b"@)
        },
    }
}

fn pair(a: &str, b: &str) -> (r: (String, String))
    ensures
        r.0@ == a@ && r.1@ == b@,
{
    (String::from_str(a), String::from_str(b))
}

/// The display name and colour of a control category code of a framework.
pub fn get_category_info(framework: Framework, category: &str) -> (r: (String, String))
    ensures
        (r.0@, r.1@) == category_info_spec(framework, category@),
{
    match framework {
        Framework::NistCsf2 => {
            if str_eq(category, "GV") {
                return pair("Govern", "#8b5cf6");
            }
            if str_eq(category, "ID") {
                return pair("Identify", "#3b82f6");
            }
            if str_eq(category, "PR") {
                return pair("Protect", "#22c55e");
            }
            if str_eq(category, "DE") {
                return pair("Detect", "#f59e0b");
            }
            if str_eq(category, "RS") {
                return pair("Respond", "#ef4444");
            }
            if str_eq(category, "RC") {
                return pair("Recover", "#06b6d4");
            }
        },
        Framework::Soc2TypeII => {
            if str_eq(category, "CC") {
                return pair("Security", "#3b82f6");
            }
            if str_eq(category, "A") {
                return pair("Availability", "#22c55e");
            }
            if str_eq(category, "PI") {
                return pair("Processing Integrity", "#f59e0b");
            }
            if str_eq(category, "C") {
                return pair("Confidentiality", "#8b5cf6");
            }
            if str_eq(category, "P") {
                return pair("Privacy", "#ec4899");
            }
        },
        Framework::Gdpr => {
            if str_eq(category, "CH2") {
                return pair("Principles", "#3b82f6");
            }
            if str_eq(category, "CH3") {
                return pair("Data Subject Rights", "#22c55e");
            }
            if str_eq(category, "CH4") {
                return pair("Controller & Processor", "#f59e0b");
            }
            if str_eq(category, "CH5") {
                return pair("Transfers", "#8b5cf6");
            }
            if str_eq(category, "CH6") {
                return pair("Supervisory Authorities", "#ec4899");
            }
            if str_eq(category, "CH8") {
                return pair("Remedies", "#ef4444");
            }
        },
    }
    pair(category, "#64748b")
}

} // verus!
