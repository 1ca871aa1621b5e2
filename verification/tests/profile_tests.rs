use prompt_iq::errors::{Action, Severity};
use prompt_iq::profiles::{
    apply_profile_update, default_profile, default_profiles, merge_profile, profile_availability,
    profile_configured, profile_summary, saved_profiles_summary, shared_profile, Profile, Profiles,
};

fn profile(enabled: bool, base_url: &str, model: &str, key: Option<&str>, mode: &str) -> Profile {
    Profile {
        enabled,
        base_url: base_url.to_string(),
        model: model.to_string(),
        api_key_storage_mode: mode.to_string(),
        api_key: key.map(|k| k.to_string()),
        temperature_bits: 0.5f32.to_bits(),
        max_tokens: Some(512),
        top_p_bits: 0.9f32.to_bits(),
        timeout_ms: 1000,
        updated_at: "then".to_string(),
    }
}

fn ready(model: &str) -> Profile {
    profile(true, "https://api.example.com/v1", model, Some("sk-1"), "plain")
}

fn is_rfc3339(stamp: &str) -> bool {
    chrono::DateTime::parse_from_rfc3339(stamp).is_ok()
}

#[test]
fn default_profile_values() {
    let p = default_profile();
    assert!(!p.enabled);
    assert_eq!(p.base_url, "");
    assert_eq!(p.model, "");
    assert_eq!(p.api_key_storage_mode, "plain");
    assert_eq!(p.api_key, None);
    assert_eq!(f32::from_bits(p.temperature_bits), 0.7f32);
    assert_eq!(p.max_tokens, None);
    assert_eq!(f32::from_bits(p.top_p_bits), 1.0f32);
    assert_eq!(p.timeout_ms, 60000);
    assert!(is_rfc3339(&p.updated_at));
    let ps = default_profiles();
    assert_eq!(ps.schema_version, "1.0.0");
    assert!(is_rfc3339(&ps.executor.updated_at));
    assert!(is_rfc3339(&ps.evaluator.updated_at));
    assert!(is_rfc3339(&ps.generator_override.updated_at));
    assert_eq!(ps.evaluator.timeout_ms, 60000);
    assert!(!ps.generator_override.enabled);
}

#[test]
fn configured_needs_everything() {
    assert!(profile_configured(&ready("m")));
    assert!(!profile_configured(&profile(false, "u", "m", Some("k"), "plain")));
    assert!(!profile_configured(&profile(true, "", "m", Some("k"), "plain")));
    assert!(!profile_configured(&profile(true, "u", "", Some("k"), "plain")));
    assert!(!profile_configured(&profile(true, "u", "m", None, "plain")));
}

#[test]
fn merge_follows_the_key_rules() {
    let mut existing = profile(false, "old", "old-model", Some("old-key"), "plain");
    let update = profile(true, "new", "new-model", None, "encrypted");
    merge_profile(&update, &mut existing);
    assert!(existing.enabled);
    assert_eq!(existing.base_url, "new");
    assert_eq!(existing.model, "new-model");
    assert_eq!(existing.api_key_storage_mode, "encrypted");
    assert_eq!(existing.api_key, Some("old-key".to_string()));
    assert_ne!(existing.updated_at, "then");
    assert!(is_rfc3339(&existing.updated_at));

    merge_profile(&profile(true, "new", "m", Some(""), "plain"), &mut existing);
    assert_eq!(existing.api_key, None);

    merge_profile(&profile(true, "new", "m", Some("fresh"), "plain"), &mut existing);
    assert_eq!(existing.api_key, Some("fresh".to_string()));
}

#[test]
fn merging_twice_is_merging_once() {
    let update = profile(true, "u", "m", Some(""), "plain");
    let mut once = ready("x");
    merge_profile(&update, &mut once);
    let mut twice = ready("x");
    merge_profile(&update, &mut twice);
    merge_profile(&update, &mut twice);
    // Equal up to the time stamp of the last save.
    once.updated_at = String::new();
    twice.updated_at = String::new();
    assert_eq!(format!("{:?}", once), format!("{:?}", twice));
}

#[test]
fn update_is_checked_in_profile_order() {
    let mut stored = default_profiles();
    let err = apply_profile_update(
        &mut stored,
        &profile(true, "", "m", Some("k"), "plain"),
        &profile(true, "u", "m", None, "plain"),
        &default_profile(),
    )
    .unwrap_err();
    assert_eq!(err.code, "PROFILES_VALIDATION_FAILED");
    assert_eq!(err.message, "执行AI配置不完整");
    assert_eq!(err.severity, Severity::Warning);
    assert!(err.recoverable);
    assert_eq!(err.action, Action::NoAction);

    let mut stored = default_profiles();
    let err = apply_profile_update(
        &mut stored,
        &ready("e"),
        &profile(true, "u", "m", None, "plain"),
        &default_profile(),
    )
    .unwrap_err();
    assert_eq!(err.message, "测评AI配置不完整");

    let mut stored = default_profiles();
    let err = apply_profile_update(
        &mut stored,
        &ready("e"),
        &ready("v"),
        &profile(true, "u", "", Some("k"), "plain"),
    )
    .unwrap_err();
    assert_eq!(err.message, "出题AI配置不完整");
}

#[test]
fn update_keeps_stored_keys_and_warns_about_encryption() {
    let mut stored = default_profiles();
    stored.evaluator.api_key = Some("kept".to_string());
    let warnings = apply_profile_update(
        &mut stored,
        &profile(true, "u", "m", Some("k"), "encrypted"),
        &profile(true, "u", "m", None, "plain"),
        &profile(false, "", "", None, "encrypted"),
    )
    .unwrap();
    assert_eq!(stored.evaluator.api_key, Some("kept".to_string()));
    assert!(is_rfc3339(&stored.executor.updated_at));
    assert_eq!(warnings.len(), 2);
    assert_eq!(warnings[0].code, "API_KEY_ENCRYPTION_FAILED");
    assert_eq!(warnings[0].message, "executor: 加密模式暂不支持，已回退为明文存储");
    assert_eq!(warnings[1].message, "generator_override: 加密模式暂不支持，已回退为明文存储");
    assert_eq!(warnings[1].severity, Severity::Warning);
    assert!(warnings[1].recoverable);
    assert_eq!(warnings[1].action, Action::NoAction);

    // After an accepted update the summary lists the enabled profiles.
    let summary = saved_profiles_summary(&stored);
    assert!(summary.executor.is_some());
    assert!(summary.evaluator.is_some());
    assert!(summary.generator.profile.is_none());
    assert_eq!(summary.generator.source, "evaluator");
}

#[test]
fn summaries_hide_the_key() {
    let s = profile_summary(&ready("gpt"));
    assert!(s.has_api_key);
    assert_eq!(s.model, "gpt");
    assert_eq!(f32::from_bits(s.temperature_bits), 0.5f32);
    assert_eq!(f32::from_bits(s.top_p_bits), 0.9f32);
    assert_eq!(s.max_tokens, Some(512));

    let mut ps = Profiles {
        schema_version: "1.0.0".to_string(),
        executor: profile(true, "u", "m", None, "plain"),
        evaluator: ready("eval"),
        generator_override: ready("gen"),
    };
    let summary = saved_profiles_summary(&ps);
    assert!(summary.executor.is_none());
    assert_eq!(summary.evaluator.as_ref().unwrap().model, "eval");
    assert_eq!(summary.generator.source, "dedicated");
    assert_eq!(summary.generator.profile.as_ref().unwrap().model, "gen");

    let availability = profile_availability(&ps);
    assert!(!availability.executor_configured);
    assert!(availability.evaluator_configured);
    assert!(availability.generator_configured);

    ps.generator_override = profile(true, "", "gen", Some("k"), "plain");
    assert!(!profile_availability(&ps).generator_configured);
    ps.generator_override.enabled = false;
    assert!(profile_availability(&ps).generator_configured);
}

#[test]
fn shared_profile_values() {
    let s = shared_profile("gpt-4o");
    assert!(s.enabled);
    assert_eq!(s.base_url, "https://api.openai.com/v1");
    assert_eq!(s.model, "gpt-4o");
    assert!(s.has_api_key);
    assert_eq!(s.api_key_storage_mode, "plain");
    assert_eq!(f32::from_bits(s.temperature_bits), 0.3f32);
    assert_eq!(f32::from_bits(s.top_p_bits), 1.0f32);
    assert_eq!(s.max_tokens, None);
    assert_eq!(s.timeout_ms, 60000);
    assert_eq!(s.updated_at, "2026-04-13T18:20:00+08:00");
}
