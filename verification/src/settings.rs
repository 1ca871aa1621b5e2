//! Application settings: defaults, validation and application of an update,
//! the summary the interface shows, and the start-up overview.

use vstd::prelude::*;
use vstd::string::*;

use crate::clock::now_rfc3339;
use crate::errors::{error_is, fixed_error, Action, CommandError, Severity};
use crate::profiles::{
    generator_ready, is_configured, profile_availability, ProfileAvailability, Profiles,
};
use crate::question_bank::opt_text;
use crate::text::text_eq;

verus! {

#[derive(Debug)]
pub struct SettingsUi {
    /// "teal", "amber" or "slate".
    pub theme_color: String,
    /// "small", "medium" or "large".
    pub font_size: String,
}

#[derive(Debug)]
pub struct SettingsPrivacy {
    pub show_launch_notice: bool,
}

#[derive(Debug)]
pub struct SettingsAssessment {
    pub default_advanced_evaluation_context: bool,
}

#[derive(Debug)]
pub struct SettingsExport {
    pub default_markdown_directory: Option<String>,
}

/// The stored settings.
#[derive(Debug)]
pub struct Settings {
    pub schema_version: String,
    pub ui: SettingsUi,
    pub privacy: SettingsPrivacy,
    pub assessment: SettingsAssessment,
    pub export: SettingsExport,
    pub updated_at: String,
}

/// What the interface is shown of the settings.
#[derive(Debug)]
pub struct SettingsSummary {
    pub theme_color: String,
    pub font_size: String,
    pub show_launch_notice: bool,
    pub default_advanced_evaluation_context: bool,
    pub default_markdown_directory: Option<String>,
}

/// Name, version and licence of the application.
#[derive(Debug)]
pub struct AppMeta {
    pub app_name: String,
    pub version: String,
    pub license: String,
}

/// How many assessments were completed, and when the last one was.
#[derive(Debug)]
pub struct HistorySummary {
    pub completed_count: u32,
    pub latest_completed_at: Option<String>,
}

/// Everything the interface needs at start-up.
#[derive(Debug)]
pub struct AppBootstrap {
    pub app_meta: AppMeta,
    pub settings_summary: SettingsSummary,
    pub profile_availability: ProfileAvailability,
    pub history_summary: HistorySummary,
}

/// The content of [`Settings`].
pub struct SettingsModel {
    pub schema_version: Seq<char>,
    pub theme_color: Seq<char>,
    pub font_size: Seq<char>,
    pub show_launch_notice: bool,
    pub default_advanced_evaluation_context: bool,
    pub default_markdown_directory: Option<Seq<char>>,
    pub updated_at: Seq<char>,
}

/// The content of a [`SettingsSummary`].
pub struct SettingsSummaryModel {
    pub theme_color: Seq<char>,
    pub font_size: Seq<char>,
    pub show_launch_notice: bool,
    pub default_advanced_evaluation_context: bool,
    pub default_markdown_directory: Option<Seq<char>>,
}

impl View for Settings {
    type V = SettingsModel;

    open spec fn view(&self) -> SettingsModel {
        SettingsModel {
            schema_version: self.schema_version@,
            theme_color: self.ui.theme_color@,
            font_size: self.ui.font_size@,
            show_launch_notice: self.privacy.show_launch_notice,
            default_advanced_evaluation_context: self.assessment.default_advanced_evaluation_context,
            default_markdown_directory: opt_text(self.export.default_markdown_directory),
            updated_at: self.updated_at@,
        }
    }
}

impl View for SettingsSummary {
    type V = SettingsSummaryModel;

    open spec fn view(&self) -> SettingsSummaryModel {
        SettingsSummaryModel {
            theme_color: self.theme_color@,
            font_size: self.font_size@,
            show_launch_notice: self.show_launch_notice,
            default_advanced_evaluation_context: self.default_advanced_evaluation_context,
            default_markdown_directory: opt_text(self.default_markdown_directory),
        }
    }
}

// ---------------------------------------------------------------------------
// Specifications
// ---------------------------------------------------------------------------

/// The default settings, stamped `now`.
pub open spec fn default_settings_model(now: Seq<char>) -> SettingsModel {
    SettingsModel {
        schema_version: "1.0.0"@,
        theme_color: "teal"@,
        font_size: "medium"@,
        show_launch_notice: true,
        default_advanced_evaluation_context: false,
        default_markdown_directory: None,
        updated_at: now,
    }
}

/// A theme the interface offers.
pub open spec fn allowed_theme(t: Seq<char>) -> bool {
    t == "teal"@ || t == "amber"@ || t == "slate"@
}

/// A font size the interface offers.
pub open spec fn allowed_font_size(f: Seq<char>) -> bool {
    f == "small"@ || f == "medium"@ || f == "large"@
}

/// The settings after an accepted update, stamped `now`.
pub open spec fn updated_settings(
    s: SettingsModel,
    theme_color: Seq<char>,
    font_size: Seq<char>,
    show_launch_notice: bool,
    default_advanced_evaluation_context: bool,
    default_markdown_directory: Option<Seq<char>>,
    now: Seq<char>,
) -> SettingsModel {
    SettingsModel {
        schema_version: s.schema_version,
        theme_color,
        font_size,
        show_launch_notice,
        default_advanced_evaluation_context,
        default_markdown_directory,
        updated_at: now,
    }
}

/// What is shown of the settings.
pub open spec fn summary_of_settings(s: SettingsModel) -> SettingsSummaryModel {
    SettingsSummaryModel {
        theme_color: s.theme_color,
        font_size: s.font_size,
        show_launch_notice: s.show_launch_notice,
        default_advanced_evaluation_context: s.default_advanced_evaluation_context,
        default_markdown_directory: s.default_markdown_directory,
    }
}

// ---------------------------------------------------------------------------
// Operations
// ---------------------------------------------------------------------------

/// The default settings: teal theme, medium font, launch notice shown,
/// advanced evaluation context off, no export directory; stamped with the
/// current time.
pub fn default_settings() -> (s: Settings)
    ensures
        s@ == default_settings_model(s@.updated_at),
{
    Settings {
        schema_version: String::from_str("1.0.0"),
        ui: SettingsUi {
            theme_color: String::from_str("teal"),
            font_size: String::from_str("medium"),
        },
        privacy: SettingsPrivacy { show_launch_notice: true },
        assessment: SettingsAssessment { default_advanced_evaluation_context: false },
        export: SettingsExport { default_markdown_directory: None },
        updated_at: now_rfc3339(),
    }
}

/// Checks a settings update: the theme must be teal, amber or slate, then the
/// font size small, medium or large.
pub fn check_settings_input(theme_color: &str, font_size: &str) -> (r: Result<(), CommandError>)
    ensures
        r is Ok <==> allowed_theme(theme_color@) && allowed_font_size(font_size@),
        r matches Err(e) ==> error_is(
            e,
            "SETTINGS_VALIDATION_FAILED"@,
            if !allowed_theme(theme_color@) {
                "主题颜色无效"@
            } else {
                "字体大小无效"@
            },
            Severity::Warning,
            true,
            Action::NoAction,
        ),
{
    let theme_ok = text_eq(theme_color, "teal") || text_eq(theme_color, "amber") || text_eq(
        theme_color,
        "slate",
    );
    if !theme_ok {
        return Err(
            fixed_error(
                "SETTINGS_VALIDATION_FAILED",
                "主题颜色无效",
                Severity::Warning,
                true,
                Action::NoAction,
            ),
        );
    }
    let font_ok = text_eq(font_size, "small") || text_eq(font_size, "medium") || text_eq(
        font_size,
        "large",
    );
    if !font_ok {
        return Err(
            fixed_error(
                "SETTINGS_VALIDATION_FAILED",
                "字体大小无效",
                Severity::Warning,
                true,
                Action::NoAction,
            ),
        );
    }
    Ok(())
}

/// Applies an accepted update to the stored settings and stamps them with
/// the current time.
pub fn apply_settings_update(
    settings: &mut Settings,
    theme_color: String,
    font_size: String,
    show_launch_notice: bool,
    default_advanced_evaluation_context: bool,
    default_markdown_directory: Option<String>,
)
    ensures
        final(settings)@ == updated_settings(
            old(settings)@,
            theme_color@,
            font_size@,
            show_launch_notice,
            default_advanced_evaluation_context,
            opt_text(default_markdown_directory),
            final(settings)@.updated_at,
        ),
{
    settings.ui.theme_color = theme_color;
    settings.ui.font_size = font_size;
    settings.privacy.show_launch_notice = show_launch_notice;
    settings.assessment.default_advanced_evaluation_context = default_advanced_evaluation_context;
    settings.export.default_markdown_directory = default_markdown_directory;
    settings.updated_at = now_rfc3339();
}

/// What is shown of the settings.
pub fn settings_summary(settings: Settings) -> (r: SettingsSummary)
    ensures
        r@ == summary_of_settings(settings@),
{
    SettingsSummary {
        theme_color: settings.ui.theme_color,
        font_size: settings.ui.font_size,
        show_launch_notice: settings.privacy.show_launch_notice,
        default_advanced_evaluation_context: settings.assessment.default_advanced_evaluation_context,
        default_markdown_directory: settings.export.default_markdown_directory,
    }
}

/// The start-up overview: application name, version and licence, the
/// settings summary, which model roles are ready, and an empty history.
pub fn app_bootstrap(settings: Settings, profiles: &Profiles) -> (r: AppBootstrap)
    ensures
        r.app_meta.app_name@ == "Prompt IQ Test"@,
        r.app_meta.version@ == "0.1.0"@,
        r.app_meta.license@ == "Apache-2.0"@,
        r.settings_summary@ == summary_of_settings(settings@),
        r.profile_availability.executor_configured == is_configured(profiles@.executor),
        r.profile_availability.evaluator_configured == is_configured(profiles@.evaluator),
        r.profile_availability.generator_configured == generator_ready(profiles@),
        r.history_summary.completed_count == 0,
        r.history_summary.latest_completed_at is None,
{
    let availability = profile_availability(profiles);
    AppBootstrap {
        app_meta: AppMeta {
            app_name: String::from_str("Prompt IQ Test"),
            version: String::from_str("0.1.0"),
            license: String::from_str("Apache-2.0"),
        },
        settings_summary: settings_summary(settings),
        profile_availability: availability,
        history_summary: HistorySummary { completed_count: 0, latest_completed_at: None },
    }
}

} // verus!
