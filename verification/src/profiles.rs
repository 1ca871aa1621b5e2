//! Model profiles (executor, evaluator, question generator): defaults,
//! completeness, summaries, and the rules for saving an update.
//!
//! Sampling parameters are carried as the IEEE-754 bit patterns of their
//! `f32` values; nothing here computes with them.

use vstd::prelude::*;
use vstd::string::*;

use crate::clock::now_rfc3339;
use crate::errors::{
    command_warning, error_is, fixed_error, warning_is, Action, CommandError, CommandWarning,
    Severity,
};
use crate::question_bank::opt_text;
use crate::text::{copy_opt_text, text_eq};

verus! {

/// Bit pattern of `0.7f32`, the default sampling temperature.
pub const DEFAULT_TEMPERATURE_BITS: u32 = 0x3f33_3333u32;

/// Bit pattern of `1.0f32`, the default nucleus-sampling cut-off.
pub const DEFAULT_TOP_P_BITS: u32 = 0x3f80_0000u32;

/// Bit pattern of `0.3f32`, the temperature of the shared profile.
pub const SHARED_TEMPERATURE_BITS: u32 = 0x3e99_999au32;

/// The connection settings of one model.
#[derive(Debug)]
pub struct Profile {
    pub enabled: bool,
    pub base_url: String,
    pub model: String,
    /// "plain" or "encrypted".
    pub api_key_storage_mode: String,
    pub api_key: Option<String>,
    /// Bit pattern of the `f32` sampling temperature.
    pub temperature_bits: u32,
    pub max_tokens: Option<u32>,
    /// Bit pattern of the `f32` nucleus-sampling cut-off.
    pub top_p_bits: u32,
    pub timeout_ms: u32,
    pub updated_at: String,
}

/// The three stored profiles.
#[derive(Debug)]
pub struct Profiles {
    pub schema_version: String,
    pub executor: Profile,
    pub evaluator: Profile,
    pub generator_override: Profile,
}

/// What the user interface is shown of a profile (never the key itself).
#[derive(Debug)]
pub struct ModelProfileSummary {
    pub enabled: bool,
    pub base_url: String,
    pub model: String,
    pub has_api_key: bool,
    pub api_key_storage_mode: String,
    /// Bit pattern of the `f32` sampling temperature.
    pub temperature_bits: u32,
    pub max_tokens: Option<u32>,
    /// Bit pattern of the `f32` nucleus-sampling cut-off.
    pub top_p_bits: u32,
    pub timeout_ms: u32,
    pub updated_at: String,
}

/// Which model roles are ready for use.
#[derive(Debug, PartialEq, Eq, Structural)]
pub struct ProfileAvailability {
    pub executor_configured: bool,
    pub evaluator_configured: bool,
    pub generator_configured: bool,
}

/// Where questions are generated: "dedicated" (own profile) or "evaluator".
#[derive(Debug)]
pub struct GeneratorProfileSummary {
    pub source: String,
    pub profile: Option<ModelProfileSummary>,
}

/// The complete profiles among the stored ones.
#[derive(Debug)]
pub struct SavedProfilesSummary {
    pub executor: Option<ModelProfileSummary>,
    pub evaluator: Option<ModelProfileSummary>,
    pub generator: GeneratorProfileSummary,
}

/// The content of a [`Profile`].
pub struct ProfileModel {
    pub enabled: bool,
    pub base_url: Seq<char>,
    pub model: Seq<char>,
    pub api_key_storage_mode: Seq<char>,
    pub api_key: Option<Seq<char>>,
    pub temperature_bits: u32,
    pub max_tokens: Option<u32>,
    pub top_p_bits: u32,
    pub timeout_ms: u32,
    pub updated_at: Seq<char>,
}

/// The content of a [`Profiles`].
pub struct ProfilesModel {
    pub schema_version: Seq<char>,
    pub executor: ProfileModel,
    pub evaluator: ProfileModel,
    pub generator_override: ProfileModel,
}

/// The content of a [`ModelProfileSummary`].
pub struct SummaryModel {
    pub enabled: bool,
    pub base_url: Seq<char>,
    pub model: Seq<char>,
    pub has_api_key: bool,
    pub api_key_storage_mode: Seq<char>,
    pub temperature_bits: u32,
    pub max_tokens: Option<u32>,
    pub top_p_bits: u32,
    pub timeout_ms: u32,
    pub updated_at: Seq<char>,
}

impl View for Profile {
    type V = ProfileModel;

    open spec fn view(&self) -> ProfileModel {
        ProfileModel {
            enabled: self.enabled,
            base_url: self.base_url@,
            model: self.model@,
            api_key_storage_mode: self.api_key_storage_mode@,
            api_key: opt_text(self.api_key),
            temperature_bits: self.temperature_bits,
            max_tokens: self.max_tokens,
            top_p_bits: self.top_p_bits,
            timeout_ms: self.timeout_ms,
            updated_at: self.updated_at@,
        }
    }
}

impl View for Profiles {
    type V = ProfilesModel;

    open spec fn view(&self) -> ProfilesModel {
        ProfilesModel {
            schema_version: self.schema_version@,
            executor: self.executor@,
            evaluator: self.evaluator@,
            generator_override: self.generator_override@,
        }
    }
}

impl View for ModelProfileSummary {
    type V = SummaryModel;

    open spec fn view(&self) -> SummaryModel {
        SummaryModel {
            enabled: self.enabled,
            base_url: self.base_url@,
            model: self.model@,
            has_api_key: self.has_api_key,
            api_key_storage_mode: self.api_key_storage_mode@,
            temperature_bits: self.temperature_bits,
            max_tokens: self.max_tokens,
            top_p_bits: self.top_p_bits,
            timeout_ms: self.timeout_ms,
            updated_at: self.updated_at@,
        }
    }
}

/// The content of an optional summary.
pub open spec fn opt_summary(s: Option<ModelProfileSummary>) -> Option<SummaryModel> {
    match s {
        Some(x) => Some(x@),
        None => None,
    }
}

// ---------------------------------------------------------------------------
// Specifications
// ---------------------------------------------------------------------------

/// A profile is ready for use: enabled, with a base URL, a model and a key.
pub open spec fn is_configured(p: ProfileModel) -> bool {
    p.enabled && p.base_url.len() > 0 && p.model.len() > 0 && p.api_key is Some
}

/// The default profile, stamped `now`.
pub open spec fn default_profile_model(now: Seq<char>) -> ProfileModel {
    ProfileModel {
        enabled: false,
        base_url: Seq::empty(),
        model: Seq::empty(),
        api_key_storage_mode: "plain"@,
        api_key: None,
        temperature_bits: DEFAULT_TEMPERATURE_BITS,
        max_tokens: None,
        top_p_bits: DEFAULT_TOP_P_BITS,
        timeout_ms: 60000,
        updated_at: now,
    }
}

/// What is shown of a profile.
pub open spec fn summary_of(p: ProfileModel) -> SummaryModel {
    SummaryModel {
        enabled: p.enabled,
        base_url: p.base_url,
        model: p.model,
        has_api_key: p.api_key is Some,
        api_key_storage_mode: p.api_key_storage_mode,
        temperature_bits: p.temperature_bits,
        max_tokens: p.max_tokens,
        top_p_bits: p.top_p_bits,
        timeout_ms: p.timeout_ms,
        updated_at: p.updated_at,
    }
}

/// The summary of a complete profile; nothing for an incomplete one.
pub open spec fn saved_summary_of(p: ProfileModel) -> Option<SummaryModel> {
    if is_configured(p) {
        Some(summary_of(p))
    } else {
        None
    }
}

/// The generator is ready: its own profile when that is enabled, otherwise
/// the evaluator's.
pub open spec fn generator_ready(ps: ProfilesModel) -> bool {
    if ps.generator_override.enabled {
        is_configured(ps.generator_override)
    } else {
        is_configured(ps.evaluator)
    }
}

/// The API key after an update that carries `new_key`: a non-empty key
/// replaces the stored one, an empty one clears it, none keeps it.
pub open spec fn merged_key(new_key: Option<Seq<char>>, old_key: Option<Seq<char>>) -> Option<
    Seq<char>,
> {
    match new_key {
        Some(k) => if k.len() > 0 {
            Some(k)
        } else {
            None
        },
        None => old_key,
    }
}

/// The stored profile after an update with `new`, stamped `now`.
pub open spec fn merged_profile(new: ProfileModel, existing: ProfileModel, now: Seq<char>) -> ProfileModel {
    ProfileModel {
        enabled: new.enabled,
        base_url: new.base_url,
        model: new.model,
        api_key_storage_mode: new.api_key_storage_mode,
        api_key: merged_key(new.api_key, existing.api_key),
        temperature_bits: new.temperature_bits,
        max_tokens: new.max_tokens,
        top_p_bits: new.top_p_bits,
        timeout_ms: new.timeout_ms,
        updated_at: now,
    }
}

/// Enabled but not ready.
pub open spec fn is_incomplete(p: ProfileModel) -> bool {
    p.enabled && !is_configured(p)
}

/// The warning text for a profile whose key was asked to be stored encrypted.
pub open spec fn encryption_warning_text(name: Seq<char>) -> Seq<char> {
    name + ": 加密模式暂不支持，已回退为明文存储"@
}

/// The warnings of a save, in profile order, as their messages.
pub open spec fn encryption_warnings(ps: ProfilesModel) -> Seq<Seq<char>> {
    let e = if ps.executor.api_key_storage_mode == "encrypted"@ {
        seq![encryption_warning_text("executor"@)]
    } else {
        Seq::empty()
    };
    let v = if ps.evaluator.api_key_storage_mode == "encrypted"@ {
        seq![encryption_warning_text("evaluator"@)]
    } else {
        Seq::empty()
    };
    let g = if ps.generator_override.api_key_storage_mode == "encrypted"@ {
        seq![encryption_warning_text("generator_override"@)]
    } else {
        Seq::empty()
    };
    e + v + g
}

// ---------------------------------------------------------------------------
// Operations
// ---------------------------------------------------------------------------

/// Whether a profile is ready for use.
pub fn profile_configured(p: &Profile) -> (r: bool)
    ensures
        r == is_configured(p@),
{
    p.enabled && p.base_url.as_str().unicode_len() > 0 && p.model.as_str().unicode_len() > 0
        && p.api_key.is_some()
}

/// The default profile: disabled, empty, plain key storage, temperature 0.7,
/// top-p 1.0, 60 s timeout, stamped with the current time.
pub fn default_profile() -> (p: Profile)
    ensures
        p@ == default_profile_model(p@.updated_at),
{
    let p = Profile {
        enabled: false,
        base_url: String::new(),
        model: String::new(),
        api_key_storage_mode: String::from_str("plain"),
        api_key: None,
        temperature_bits: DEFAULT_TEMPERATURE_BITS,
        max_tokens: None,
        top_p_bits: DEFAULT_TOP_P_BITS,
        timeout_ms: 60000,
        updated_at: now_rfc3339(),
    };
    assert(p.base_url@ =~= Seq::<char>::empty());
    assert(p.model@ =~= Seq::<char>::empty());
    p
}

/// The profiles used when none are stored: three default profiles, each
/// stamped with the time at which it was made.
pub fn default_profiles() -> (ps: Profiles)
    ensures
        ps@.schema_version == "1.0.0"@,
        ps@.executor == default_profile_model(ps@.executor.updated_at),
        ps@.evaluator == default_profile_model(ps@.evaluator.updated_at),
        ps@.generator_override == default_profile_model(ps@.generator_override.updated_at),
{
    Profiles {
        schema_version: String::from_str("1.0.0"),
        executor: default_profile(),
        evaluator: default_profile(),
        generator_override: default_profile(),
    }
}

/// What is shown of a profile.
pub fn profile_summary(p: &Profile) -> (s: ModelProfileSummary)
    ensures
        s@ == summary_of(p@),
        s.enabled == p.enabled,
        s.base_url@ == p.base_url@,
        s.model@ == p.model@,
        s.has_api_key == p.api_key.is_some(),
        s.api_key_storage_mode@ == p.api_key_storage_mode@,
        s.temperature_bits == p.temperature_bits,
        s.max_tokens == p.max_tokens,
        s.top_p_bits == p.top_p_bits,
        s.timeout_ms == p.timeout_ms,
        s.updated_at@ == p.updated_at@,
{
    ModelProfileSummary {
        enabled: p.enabled,
        base_url: p.base_url.clone(),
        model: p.model.clone(),
        has_api_key: p.api_key.is_some(),
        api_key_storage_mode: p.api_key_storage_mode.clone(),
        temperature_bits: p.temperature_bits,
        max_tokens: p.max_tokens,
        top_p_bits: p.top_p_bits,
        timeout_ms: p.timeout_ms,
        updated_at: p.updated_at.clone(),
    }
}

/// The summary of a complete profile; nothing for an incomplete one.
pub fn saved_profile_summary(p: &Profile) -> (s: Option<ModelProfileSummary>)
    ensures
        opt_summary(s) == saved_summary_of(p@),
{
    if profile_configured(p) {
        Some(profile_summary(p))
    } else {
        None
    }
}

/// The complete stored profiles, and where questions are generated.
pub fn saved_profiles_summary(profiles: &Profiles) -> (r: SavedProfilesSummary)
    ensures
        opt_summary(r.executor) == saved_summary_of(profiles@.executor),
        opt_summary(r.evaluator) == saved_summary_of(profiles@.evaluator),
        r.generator.source@ == (if profiles@.generator_override.enabled {
            "dedicated"@
        } else {
            "evaluator"@
        }),
        opt_summary(r.generator.profile) == saved_summary_of(profiles@.generator_override),
{
    let source = if profiles.generator_override.enabled {
        String::from_str("dedicated")
    } else {
        String::from_str("evaluator")
    };
    SavedProfilesSummary {
        executor: saved_profile_summary(&profiles.executor),
        evaluator: saved_profile_summary(&profiles.evaluator),
        generator: GeneratorProfileSummary {
            source,
            profile: saved_profile_summary(&profiles.generator_override),
        },
    }
}

/// Which roles are ready; the generator falls back on the evaluator when it
/// has no profile of its own.
pub fn profile_availability(profiles: &Profiles) -> (r: ProfileAvailability)
    ensures
        r.executor_configured == is_configured(profiles@.executor),
        r.evaluator_configured == is_configured(profiles@.evaluator),
        r.generator_configured == generator_ready(profiles@),
        !profiles.generator_override.enabled ==> r.generator_configured == r.evaluator_configured,
        r.evaluator_configured == (profiles.evaluator.enabled && profiles.evaluator.base_url@.len()
            > 0 && profiles.evaluator.model@.len() > 0 && profiles.evaluator.api_key.is_some()),
{
    let executor_configured = profile_configured(&profiles.executor);
    let evaluator_configured = profile_configured(&profiles.evaluator);
    let generator_configured = if profiles.generator_override.enabled {
        profile_configured(&profiles.generator_override)
    } else {
        evaluator_configured
    };
    ProfileAvailability { executor_configured, evaluator_configured, generator_configured }
}

/// A summary of a fixed, ready profile for `model` (OpenAI endpoint,
/// temperature 0.3, top-p 1.0, 60 s timeout).
pub fn shared_profile(model: &str) -> (s: ModelProfileSummary)
    ensures
        s@ == (SummaryModel {
            enabled: true,
            base_url: "https://api.openai.com/v1"@,
            model: model@,
            has_api_key: true,
            api_key_storage_mode: "plain"@,
            temperature_bits: SHARED_TEMPERATURE_BITS,
            max_tokens: None,
            top_p_bits: DEFAULT_TOP_P_BITS,
            timeout_ms: 60000,
            updated_at: "2026-04-13T18:20:00+08:00"@,
        }),
{
    ModelProfileSummary {
        enabled: true,
        base_url: String::from_str("https://api.openai.com/v1"),
        model: String::from_str(model),
        has_api_key: true,
        api_key_storage_mode: String::from_str("plain"),
        temperature_bits: SHARED_TEMPERATURE_BITS,
        max_tokens: None,
        top_p_bits: DEFAULT_TOP_P_BITS,
        timeout_ms: 60000,
        updated_at: String::from_str("2026-04-13T18:20:00+08:00"),
    }
}

/// Applies an update to a stored profile: every setting is taken from `new`;
/// the key is replaced by a non-empty new key, cleared by an empty one and
/// kept when the update carries none; the profile is stamped with the
/// current time.
pub fn merge_profile(new: &Profile, existing: &mut Profile)
    ensures
        final(existing)@ == merged_profile(new@, old(existing)@, final(existing)@.updated_at),
        final(existing).enabled == new.enabled,
        final(existing).base_url@ == new.base_url@,
        final(existing).model@ == new.model@,
        final(existing).api_key_storage_mode@ == new.api_key_storage_mode@,
        final(existing).temperature_bits == new.temperature_bits,
        final(existing).max_tokens == new.max_tokens,
        final(existing).top_p_bits == new.top_p_bits,
        final(existing).timeout_ms == new.timeout_ms,
{
    existing.enabled = new.enabled;
    existing.base_url = new.base_url.clone();
    existing.model = new.model.clone();
    existing.api_key_storage_mode = new.api_key_storage_mode.clone();
    existing.temperature_bits = new.temperature_bits;
    existing.max_tokens = new.max_tokens;
    existing.top_p_bits = new.top_p_bits;
    existing.timeout_ms = new.timeout_ms;
    match &new.api_key {
        Some(key) => {
            if key.as_str().unicode_len() > 0 {
                existing.api_key = Some(key.clone());
            } else {
                existing.api_key = None;
            }
        },
        None => {},
    }
    existing.updated_at = now_rfc3339();
}

fn incomplete_error(message: &str) -> (e: CommandError)
    ensures
        error_is(
            e,
            "PROFILES_VALIDATION_FAILED"@,
            message@,
            Severity::Warning,
            true,
            Action::NoAction,
        ),
{
    fixed_error("PROFILES_VALIDATION_FAILED", message, Severity::Warning, true, Action::NoAction)
}

fn push_encryption_warning(warnings: &mut Vec<CommandWarning>, name: &str, mode: &String)
    ensures
        mode@ == "encrypted"@ ==> final(warnings)@.len() == old(warnings)@.len() + 1 && warning_is(
            final(warnings)@.last(),
            "API_KEY_ENCRYPTION_FAILED"@,
            encryption_warning_text(name@),
            Severity::Warning,
            true,
            Action::NoAction,
        ),
        mode@ != "encrypted"@ ==> final(warnings)@ == old(warnings)@,
        forall|i: int| 0 <= i < old(warnings)@.len() ==> final(warnings)@[i] == old(warnings)@[i],
{
    if text_eq(mode.as_str(), "encrypted") {
        let mut message = String::from_str(name);
        message.append(": 加密模式暂不支持，已回退为明文存储");
        warnings.push(
            command_warning(
                "API_KEY_ENCRYPTION_FAILED",
                message,
                Severity::Warning,
                true,
                Action::NoAction,
            ),
        );
    }
}

/// Applies an update of the three profiles to the stored ones (see
/// [`merge_profile`]) and checks the result: an enabled profile must have a
/// base URL, a model and a key (executor first, then evaluator, then
/// generator). On success, returns one warning per profile whose key was asked
/// to be stored encrypted (keys are stored in plain text).
pub fn apply_profile_update(
    existing: &mut Profiles,
    executor: &Profile,
    evaluator: &Profile,
    generator_override: &Profile,
) -> (r: Result<Vec<CommandWarning>, CommandError>)
    ensures
        final(existing)@.schema_version == old(existing)@.schema_version,
        final(existing)@.executor == merged_profile(
            executor@,
            old(existing)@.executor,
            final(existing)@.executor.updated_at,
        ),
        final(existing)@.evaluator == merged_profile(
            evaluator@,
            old(existing)@.evaluator,
            final(existing)@.evaluator.updated_at,
        ),
        final(existing)@.generator_override == merged_profile(
            generator_override@,
            old(existing)@.generator_override,
            final(existing)@.generator_override.updated_at,
        ),
        r is Ok <==> !is_incomplete(final(existing)@.executor) && !is_incomplete(
            final(existing)@.evaluator,
        ) && !is_incomplete(final(existing)@.generator_override),
        r matches Err(e) ==> error_is(
            e,
            "PROFILES_VALIDATION_FAILED"@,
            if is_incomplete(final(existing)@.executor) {
                "执行AI配置不完整"@
            } else if is_incomplete(final(existing)@.evaluator) {
                "测评AI配置不完整"@
            } else {
                "出题AI配置不完整"@
            },
            Severity::Warning,
            true,
            Action::NoAction,
        ),
        r matches Ok(ws) ==> ws@.len() == encryption_warnings(final(existing)@).len() && forall|
            i: int,
        |
            0 <= i < ws@.len() ==> warning_is(
                #[trigger] ws@[i],
                "API_KEY_ENCRYPTION_FAILED"@,
                encryption_warnings(final(existing)@)[i],
                Severity::Warning,
                true,
                Action::NoAction,
            ),
{
    merge_profile(executor, &mut existing.executor);
    merge_profile(evaluator, &mut existing.evaluator);
    merge_profile(generator_override, &mut existing.generator_override);
    if existing.executor.enabled && !profile_configured(&existing.executor) {
        return Err(incomplete_error("执行AI配置不完整"));
    }
    if existing.evaluator.enabled && !profile_configured(&existing.evaluator) {
        return Err(incomplete_error("测评AI配置不完整"));
    }
    if existing.generator_override.enabled && !profile_configured(&existing.generator_override) {
        return Err(incomplete_error("出题AI配置不完整"));
    }
    let mut warnings: Vec<CommandWarning> = Vec::new();
    push_encryption_warning(&mut warnings, "executor", &existing.executor.api_key_storage_mode);
    push_encryption_warning(&mut warnings, "evaluator", &existing.evaluator.api_key_storage_mode);
    push_encryption_warning(
        &mut warnings,
        "generator_override",
        &existing.generator_override.api_key_storage_mode,
    );
    Ok(warnings)
}

} // verus!
