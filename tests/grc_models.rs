use optio_scan::grc::{ComplianceStatus, Framework, GdprChapter, NistFunction, Soc2Category};

#[test]
fn framework_names() {
    assert_eq!(Framework::all(), vec![Framework::NistCsf2, Framework::Soc2TypeII, Framework::Gdpr]);
    assert_eq!(Framework::Soc2TypeII.display_name(), "SOC 2 Type II");
}

#[test]
fn category_codes_and_lists() {
    assert_eq!(NistFunction::all().len(), 6);
    assert_eq!(NistFunction::Govern.code(), "GV");
    assert_eq!(Soc2Category::all().len(), 5);
    assert!(!GdprChapter::all().is_empty());
    assert_eq!(ComplianceStatus::NonCompliant.display_name(), "Non-Compliant");
}
