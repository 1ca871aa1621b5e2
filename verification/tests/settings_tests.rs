use prompt_iq::errors::{Action, Severity};
use prompt_iq::profiles::default_profiles;
use prompt_iq::settings::{
    app_bootstrap, apply_settings_update, check_settings_input, default_settings, settings_summary,
};

#[test]
fn default_settings_values() {
    let s = default_settings();
    assert_eq!(s.schema_version, "1.0.0");
    assert_eq!(s.ui.theme_color, "teal");
    assert_eq!(s.ui.font_size, "medium");
    assert!(s.privacy.show_launch_notice);
    assert!(!s.assessment.default_advanced_evaluation_context);
    assert_eq!(s.export.default_markdown_directory, None);
    assert!(chrono::DateTime::parse_from_rfc3339(&s.updated_at).is_ok());
    assert!(check_settings_input(&s.ui.theme_color, &s.ui.font_size).is_ok());
}

#[test]
fn settings_input_is_checked() {
    for theme in ["teal", "amber", "slate"] {
        for font in ["small", "medium", "large"] {
            assert!(check_settings_input(theme, font).is_ok());
        }
    }
    let err = check_settings_input("pink", "huge").unwrap_err();
    assert_eq!(err.code, "SETTINGS_VALIDATION_FAILED");
    assert_eq!(err.message, "主题颜色无效");
    assert_eq!(err.severity, Severity::Warning);
    assert!(err.recoverable);
    assert_eq!(err.action, Action::NoAction);
    let err = check_settings_input("slate", "huge").unwrap_err();
    assert_eq!(err.message, "字体大小无效");
    assert!(check_settings_input("Teal", "small").is_err());
}

#[test]
fn saved_settings_are_what_the_summary_shows() {
    let mut s = default_settings();
    s.updated_at = "t0".to_string();
    apply_settings_update(
        &mut s,
        "amber".to_string(),
        "large".to_string(),
        false,
        true,
        Some("/exports".to_string()),
    );
    assert_eq!(s.schema_version, "1.0.0");
    assert_ne!(s.updated_at, "t0");
    assert!(chrono::DateTime::parse_from_rfc3339(&s.updated_at).is_ok());
    let summary = settings_summary(s);
    assert_eq!(summary.theme_color, "amber");
    assert_eq!(summary.font_size, "large");
    assert!(!summary.show_launch_notice);
    assert!(summary.default_advanced_evaluation_context);
    assert_eq!(summary.default_markdown_directory, Some("/exports".to_string()));
}

#[test]
fn bootstrap_reports_meta_settings_and_availability() {
    let mut profiles = default_profiles();
    profiles.evaluator.enabled = true;
    profiles.evaluator.base_url = "https://x".to_string();
    profiles.evaluator.model = "m".to_string();
    profiles.evaluator.api_key = Some("k".to_string());
    let boot = app_bootstrap(default_settings(), &profiles);
    assert_eq!(boot.app_meta.app_name, "Prompt IQ Test");
    assert_eq!(boot.app_meta.version, "0.1.0");
    assert_eq!(boot.app_meta.license, "Apache-2.0");
    assert_eq!(boot.settings_summary.theme_color, "teal");
    assert!(!boot.profile_availability.executor_configured);
    assert!(boot.profile_availability.evaluator_configured);
    assert!(boot.profile_availability.generator_configured);
    assert_eq!(boot.history_summary.completed_count, 0);
    assert_eq!(boot.history_summary.latest_completed_at, None);
}
