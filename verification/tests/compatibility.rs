use pine_sema::compatibility::{CompatibilityReport, PineDialect, ScriptModeClassification, VersionOrigin};

#[test]
fn an_unanalyzed_script_reports_implicit_version_one() {
    let report = CompatibilityReport::default();
    assert_eq!(report.language_version, Some(1));
    assert_eq!(report.language_version_origin, VersionOrigin::ImplicitV1);
    assert_eq!(report.dialect, Some(PineDialect::V1));
    assert_eq!(report.script_mode, ScriptModeClassification::Missing);
    assert!(report.supported.is_empty() && report.unsupported.is_empty());
    assert!(report.legacy_translations.is_empty() && report.legacy_emulations.is_empty());
    assert_eq!(PineDialect::V6.version(), 6);
}
