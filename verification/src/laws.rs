//! Properties of the library that relate several operations or hold of all
//! inputs, stated over the specifications the operations' contracts use.

use vstd::prelude::*;

use crate::ai_client::completions_url_of;
use crate::assessment::{requested_strategy, session_refusal, start_refusal, AssessmentStartRequest};
use crate::db::AssessmentSession;
use crate::errors::CommandError;
use crate::evaluation::model_failure;
use crate::text::seq_contains_run;
use crate::errors::Action;
use crate::profiles::{
    generator_ready, is_configured, is_incomplete, merged_key, merged_profile, saved_summary_of,
    summary_of, ProfileModel, ProfilesModel,
};
use crate::question_bank::{
    static_question_limit,
    accepted, distinct_task_types, in_mode_and_scope, load_error, mode_count, mode_scope_filter,
    of_task_type, validation_error, QuestionModel,
};
use crate::settings::{
    allowed_font_size, allowed_theme, default_settings_model, summary_of_settings, updated_settings,
    SettingsModel, SettingsSummaryModel,
};
use crate::text::trim_end_char;

verus! {

// ---------------------------------------------------------------------------
// Filtering
// ---------------------------------------------------------------------------

/// Every question that filtering by mode and scope keeps has that mode and
/// scope, and filtering never adds questions.
pub proof fn lemma_mode_scope_filter_sound(qs: Seq<QuestionModel>, mode: Seq<char>, scope: Seq<char>)
    ensures
        mode_scope_filter(qs, mode, scope).len() <= qs.len(),
        forall|i: int|
            0 <= i < mode_scope_filter(qs, mode, scope).len() ==> in_mode_and_scope(
                #[trigger] mode_scope_filter(qs, mode, scope)[i],
                mode,
                scope,
            ),
    decreases qs.len(),
{
    if qs.len() > 0 {
        lemma_mode_scope_filter_sound(qs.drop_last(), mode, scope);
    }
}

/// Filtering by mode and scope a second time changes nothing.
pub proof fn lemma_mode_scope_filter_idempotent(
    qs: Seq<QuestionModel>,
    mode: Seq<char>,
    scope: Seq<char>,
)
    ensures
        mode_scope_filter(mode_scope_filter(qs, mode, scope), mode, scope) == mode_scope_filter(
            qs,
            mode,
            scope,
        ),
    decreases qs.len(),
{
    if qs.len() > 0 {
        let rest = mode_scope_filter(qs.drop_last(), mode, scope);
        lemma_mode_scope_filter_idempotent(qs.drop_last(), mode, scope);
        if in_mode_and_scope(qs.last(), mode, scope) {
            assert(rest.push(qs.last()).drop_last() =~= rest);
        }
    }
}

/// Every question that filtering by task type keeps has that type, and
/// filtering never adds questions.
pub proof fn lemma_of_task_type_sound(qs: Seq<QuestionModel>, t: Seq<char>)
    ensures
        of_task_type(qs, t).len() <= qs.len(),
        forall|i: int| 0 <= i < of_task_type(qs, t).len() ==> (#[trigger] of_task_type(qs, t)[i]).task_type == t,
    decreases qs.len(),
{
    if qs.len() > 0 {
        lemma_of_task_type_sound(qs.drop_last(), t);
    }
}

/// Every question a draw returns has the requested mode and scope, and the
/// requested task type when one was given.
pub proof fn lemma_drawn_questions_match(
    qs: Seq<QuestionModel>,
    mode: Seq<char>,
    scope: Seq<char>,
    task_type: Option<Seq<char>>,
    count: nat,
)
    requires
        count <= crate::question_bank::draw_pool(qs, mode, scope, task_type).len(),
    ensures
        forall|i: int|
            0 <= i < count ==> {
                let q = #[trigger] crate::question_bank::draw_pool(
                    qs,
                    mode,
                    scope,
                    task_type,
                ).take(count as int)[i];
                &&& in_mode_and_scope(q, mode, scope)
                &&& task_type matches Some(t) ==> q.task_type == t
            },
{
    let pool = mode_scope_filter(qs, mode, scope);
    lemma_mode_scope_filter_sound(qs, mode, scope);
    match task_type {
        Some(t) => {
            lemma_of_task_type_sound(pool, t);
            assert forall|i: int| 0 <= i < of_task_type(pool, t).len() implies in_mode_and_scope(
                #[trigger] of_task_type(pool, t)[i],
                mode,
                scope,
            ) by {
                lemma_of_task_type_in(pool, t, i);
            }
        },
        None => {},
    }
}

/// Each question kept by a task-type filter occurs in the filtered sequence.
pub proof fn lemma_of_task_type_in(qs: Seq<QuestionModel>, t: Seq<char>, i: int)
    requires
        0 <= i < of_task_type(qs, t).len(),
    ensures
        qs.contains(of_task_type(qs, t)[i]),
    decreases qs.len(),
{
    if qs.len() > 0 {
        let rest = of_task_type(qs.drop_last(), t);
        lemma_of_task_type_sound(qs.drop_last(), t);
        if i < rest.len() {
            lemma_of_task_type_in(qs.drop_last(), t, i);
            let j = choose|j: int| 0 <= j < qs.drop_last().len() && qs.drop_last()[j] == rest[i];
            assert(qs[j] == rest[i]);
        } else {
            assert(qs[qs.len() - 1] == qs.last());
        }
    }
}

// ---------------------------------------------------------------------------
// Grouping and counting
// ---------------------------------------------------------------------------

/// The number of questions whose type is one of `keys`, counted per key.
pub open spec fn total_of_types(qs: Seq<QuestionModel>, keys: Seq<Seq<char>>) -> nat
    decreases keys.len(),
{
    if keys.len() == 0 {
        0
    } else {
        total_of_types(qs, keys.drop_last()) + of_task_type(qs, keys.last()).len()
    }
}

proof fn lemma_of_task_type_push(qs: Seq<QuestionModel>, q: QuestionModel, t: Seq<char>)
    ensures
        of_task_type(qs.push(q), t).len() == of_task_type(qs, t).len() + (if q.task_type == t {
            1nat
        } else {
            0nat
        }),
{
    assert(qs.push(q).drop_last() =~= qs);
}

proof fn lemma_total_push(qs: Seq<QuestionModel>, q: QuestionModel, keys: Seq<Seq<char>>)
    requires
        keys.no_duplicates(),
    ensures
        total_of_types(qs.push(q), keys) == total_of_types(qs, keys) + (if keys.contains(
            q.task_type,
        ) {
            1nat
        } else {
            0nat
        }),
    decreases keys.len(),
{
    if keys.len() > 0 {
        let init = keys.drop_last();
        assert(init.no_duplicates());
        lemma_total_push(qs, q, init);
        lemma_of_task_type_push(qs, q, keys.last());
        if keys.contains(q.task_type) {
            let j = choose|j: int| 0 <= j < keys.len() && keys[j] == q.task_type;
            if j < keys.len() - 1 {
                assert(init[j] == q.task_type);
                assert(keys.last() != q.task_type);
            } else {
                assert(!init.contains(q.task_type));
            }
        } else {
            assert(!init.contains(q.task_type)) by {
                if init.contains(q.task_type) {
                    let j = choose|j: int| 0 <= j < init.len() && init[j] == q.task_type;
                    assert(keys[j] == q.task_type);
                }
            }
        }
    }
}

/// The task types of a bank are distinct, and every question's type is
/// among them.
pub proof fn lemma_distinct_task_types(qs: Seq<QuestionModel>)
    ensures
        distinct_task_types(qs).no_duplicates(),
        forall|i: int| 0 <= i < qs.len() ==> distinct_task_types(qs).contains(#[trigger] qs[i].task_type),
        forall|k: Seq<char>|
            #![trigger distinct_task_types(qs).contains(k)]
            !distinct_task_types(qs).contains(k) ==> of_task_type(qs, k).len() == 0,
    decreases qs.len(),
{
    if qs.len() > 0 {
        let p = qs.drop_last();
        let q = qs.last();
        lemma_distinct_task_types(p);
        let d = distinct_task_types(p);
        assert forall|i: int| 0 <= i < qs.len() implies distinct_task_types(qs).contains(
            #[trigger] qs[i].task_type,
        ) by {
            if i < qs.len() - 1 {
                assert(p[i] == qs[i]);
                assert(d.contains(p[i].task_type));
                if !d.contains(q.task_type) {
                    let j = choose|j: int| 0 <= j < d.len() && d[j] == p[i].task_type;
                    assert(d.push(q.task_type)[j] == p[i].task_type);
                }
            } else {
                if !d.contains(q.task_type) {
                    assert(d.push(q.task_type)[d.len() as int] == q.task_type);
                }
            }
        }
        assert forall|k: Seq<char>|
            #![trigger distinct_task_types(qs).contains(k)]
            !distinct_task_types(qs).contains(k) implies of_task_type(qs, k).len() == 0 by {
            if !d.contains(q.task_type) {
                if d.contains(k) {
                    let j = choose|j: int| 0 <= j < d.len() && d[j] == k;
                    assert(d.push(q.task_type)[j] == k);
                }
                assert(d.push(q.task_type)[d.len() as int] == q.task_type);
            }
        }
        if !d.contains(q.task_type) {
            assert forall|a: int, b: int|
                0 <= a < d.push(q.task_type).len() && 0 <= b < d.push(q.task_type).len() && a != b
                    implies d.push(q.task_type)[a] != d.push(q.task_type)[b] by {
                if a < d.len() && b < d.len() {
                } else if a < d.len() {
                    assert(d[a] != q.task_type);
                } else if b < d.len() {
                    assert(d[b] != q.task_type);
                }
            }
        }
    }
}

/// Grouping by task type covers the bank exactly once: summed over the
/// distinct task types, the questions of each type number the whole bank.
/// With the contract of `group_by_task_type` (group `i` holds the questions
/// of the `i`-th distinct type) and that of `question_bank_summary` (entry
/// `i` counts them), every question lands in exactly one group and the
/// per-type counts add up to the total.
pub proof fn lemma_groups_cover_bank(qs: Seq<QuestionModel>)
    ensures
        total_of_types(qs, distinct_task_types(qs)) == qs.len(),
        distinct_task_types(qs).no_duplicates(),
    decreases qs.len(),
{
    lemma_distinct_task_types(qs);
    if qs.len() > 0 {
        let p = qs.drop_last();
        let q = qs.last();
        lemma_groups_cover_bank(p);
        lemma_distinct_task_types(p);
        let d = distinct_task_types(p);
        assert(p.push(q) =~= qs);
        lemma_total_push(p, q, d);
        if !d.contains(q.task_type) {
            let dk = d.push(q.task_type);
            assert(dk.drop_last() =~= d);
            lemma_of_task_type_push(p, q, q.task_type);
            assert(!distinct_task_types(p).contains(q.task_type));
        }
    }
}

/// The static and dynamic questions of a bank never outnumber it.
pub proof fn lemma_mode_counts_bounded(qs: Seq<QuestionModel>)
    ensures
        mode_count(qs, "static"@) + mode_count(qs, "dynamic"@) <= qs.len(),
    decreases qs.len(),
{
    reveal_strlit("static");
    reveal_strlit("dynamic");
    if qs.len() > 0 {
        lemma_mode_counts_bounded(qs.drop_last());
        assert("static"@ != "dynamic"@) by {
            assert("static"@[0] != "dynamic"@[0]);
        }
    }
}

// ---------------------------------------------------------------------------
// Loading
// ---------------------------------------------------------------------------

/// Every question loaded into the bank passes validation.
pub proof fn lemma_accepted_questions_valid(entries: Seq<Result<crate::question_bank::QuestionSchema, String>>)
    ensures
        forall|i: int|
            0 <= i < accepted(entries).len() ==> validation_error(#[trigger] accepted(entries)[i])
                is None,
    decreases entries.len(),
{
    if entries.len() > 0 {
        lemma_accepted_questions_valid(entries.drop_last());
    }
}

// ---------------------------------------------------------------------------
// Profiles
// ---------------------------------------------------------------------------

/// Saving the same profile update twice stores the same profile as saving
/// it once at the time of the second save.
pub proof fn lemma_merge_profile_idempotent(
    new: ProfileModel,
    existing: ProfileModel,
    first: Seq<char>,
    second: Seq<char>,
)
    ensures
        merged_profile(new, merged_profile(new, existing, first), second) == merged_profile(
            new,
            existing,
            second,
        ),
{
    assert(merged_key(new.api_key, merged_key(new.api_key, existing.api_key)) == merged_key(
        new.api_key,
        existing.api_key,
    ));
}

/// An update takes every setting but the key from the new profile and is
/// stamped with the time of the save.
pub proof fn lemma_merge_takes_update_settings(new: ProfileModel, existing: ProfileModel, now: Seq<char>)
    ensures
        merged_profile(new, existing, now).enabled == new.enabled,
        merged_profile(new, existing, now).base_url == new.base_url,
        merged_profile(new, existing, now).model == new.model,
        merged_profile(new, existing, now).api_key_storage_mode == new.api_key_storage_mode,
        merged_profile(new, existing, now).temperature_bits == new.temperature_bits,
        merged_profile(new, existing, now).max_tokens == new.max_tokens,
        merged_profile(new, existing, now).top_p_bits == new.top_p_bits,
        merged_profile(new, existing, now).timeout_ms == new.timeout_ms,
        merged_profile(new, existing, now).updated_at == now,
{
}

/// What is shown of a profile is the profile's own settings, and whether it
/// has a key.
pub proof fn lemma_summary_shows_profile(p: ProfileModel)
    ensures
        summary_of(p).enabled == p.enabled,
        summary_of(p).base_url == p.base_url,
        summary_of(p).model == p.model,
        summary_of(p).has_api_key == p.api_key is Some,
        summary_of(p).api_key_storage_mode == p.api_key_storage_mode,
        summary_of(p).temperature_bits == p.temperature_bits,
        summary_of(p).max_tokens == p.max_tokens,
        summary_of(p).top_p_bits == p.top_p_bits,
        summary_of(p).timeout_ms == p.timeout_ms,
        summary_of(p).updated_at == p.updated_at,
{
}

/// A profile is ready exactly when it is enabled and has a base URL, a
/// model and a key; the generator is ready when its own profile is, or, when
/// it has none enabled, when the evaluator is.
pub proof fn lemma_readiness(ps: ProfilesModel)
    ensures
        forall|p: ProfileModel|
            #[trigger] is_configured(p) <==> (p.enabled && p.base_url.len() > 0 && p.model.len() > 0
                && p.api_key is Some),
        ps.generator_override.enabled ==> (generator_ready(ps) <==> (ps.generator_override.base_url.len()
            > 0 && ps.generator_override.model.len() > 0 && ps.generator_override.api_key is Some)),
        !ps.generator_override.enabled ==> (generator_ready(ps) <==> (ps.evaluator.enabled
            && ps.evaluator.base_url.len() > 0 && ps.evaluator.model.len() > 0
            && ps.evaluator.api_key is Some)),
{
}

/// The key rules of an update: a non-empty key is stored, an empty key
/// clears the stored one, and an update without a key keeps it.
pub proof fn lemma_merge_profile_key_rules(new: ProfileModel, existing: ProfileModel, now: Seq<char>)
    ensures
        match new.api_key {
            Some(k) => if k.len() > 0 {
                merged_profile(new, existing, now).api_key == Some(k)
            } else {
                merged_profile(new, existing, now).api_key is None
            },
            None => true,
        },
        new.api_key is None ==> merged_profile(new, existing, now).api_key == existing.api_key,
{
}

/// After an accepted profile update, every enabled profile is complete, so
/// the saved-profiles summary lists exactly the enabled ones.
pub proof fn lemma_saved_profiles_listed(ps: ProfilesModel)
    requires
        !is_incomplete(ps.executor),
        !is_incomplete(ps.evaluator),
        !is_incomplete(ps.generator_override),
    ensures
        saved_summary_of(ps.executor) is Some <==> ps.executor.enabled,
        saved_summary_of(ps.evaluator) is Some <==> ps.evaluator.enabled,
        saved_summary_of(ps.generator_override) is Some <==> ps.generator_override.enabled,
{
}

/// A start request that is accepted leaves the evaluator enabled with a key,
/// so the answers of the session can be evaluated with the same profiles;
/// with the "execute_then_evaluate" strategy the executor is ready as well.
pub proof fn lemma_started_sessions_can_be_evaluated(
    request: AssessmentStartRequest,
    profiles: crate::profiles::Profiles,
)
    requires
        start_refusal(request, profiles) is None,
    ensures
        profiles.evaluator.enabled && profiles.evaluator.api_key is Some,
        requested_strategy(request) == "execute_then_evaluate"@ ==> profiles.executor.enabled
            && profiles.executor.api_key is Some,
        requested_strategy(request) == "prompt_only"@ || requested_strategy(request)
            == "execute_then_evaluate"@,
{
}

/// A static request is refused for its strategy exactly when it names a
/// strategy other than "prompt_only" and "execute_then_evaluate"; no strategy
/// means "prompt_only".
pub proof fn lemma_strategy_refusal(request: AssessmentStartRequest, profiles: crate::profiles::Profiles)
    requires
        request.interaction_mode@ == "static"@,
    ensures
        (start_refusal(request, profiles) == Some(
            (
                "ASSESSMENT_CONFIG_INVALID"@,
                "静态策略必须为 prompt_only 或 execute_then_evaluate"@,
                false,
                Action::NoAction,
            ),
        )) <==> (request.static_strategy matches Some(x) && x@ != "prompt_only"@ && x@
            != "execute_then_evaluate"@),
        request.static_strategy is None ==> requested_strategy(request) == "prompt_only"@,
{
    reveal_strlit("ASSESSMENT_CONFIG_INVALID");
    reveal_strlit("CONFIG_MISSING_EVALUATOR");
    reveal_strlit("CONFIG_MISSING_EXECUTOR");
    reveal_strlit("prompt_only");
    reveal_strlit("execute_then_evaluate");
    assert("ASSESSMENT_CONFIG_INVALID"@[0] != "CONFIG_MISSING_EVALUATOR"@[0]);
    assert("ASSESSMENT_CONFIG_INVALID"@[0] != "CONFIG_MISSING_EXECUTOR"@[0]);
    assert("prompt_only"@[0] != "execute_then_evaluate"@[0]);
}

// ---------------------------------------------------------------------------
// Settings
// ---------------------------------------------------------------------------

/// What a settings update writes is what the settings summary shows
/// afterwards.
pub proof fn lemma_settings_round_trip(
    s: SettingsModel,
    theme_color: Seq<char>,
    font_size: Seq<char>,
    show_launch_notice: bool,
    default_advanced_evaluation_context: bool,
    default_markdown_directory: Option<Seq<char>>,
    now: Seq<char>,
)
    ensures
        summary_of_settings(
            updated_settings(
                s,
                theme_color,
                font_size,
                show_launch_notice,
                default_advanced_evaluation_context,
                default_markdown_directory,
                now,
            ),
        ) == (SettingsSummaryModel {
            theme_color,
            font_size,
            show_launch_notice,
            default_advanced_evaluation_context,
            default_markdown_directory,
        }),
{
}

/// The default settings pass the checks of a settings update.
pub proof fn lemma_default_settings_allowed(now: Seq<char>)
    ensures
        allowed_theme(default_settings_model(now).theme_color),
        allowed_font_size(default_settings_model(now).font_size),
{
}

// ---------------------------------------------------------------------------
// Endpoints
// ---------------------------------------------------------------------------

/// Trimming trailing characters twice is trimming once.
pub proof fn lemma_trim_end_idempotent(s: Seq<char>, c: char)
    ensures
        trim_end_char(trim_end_char(s, c), c) == trim_end_char(s, c),
        trim_end_char(s, c).len() == 0 || trim_end_char(s, c).last() != c,
    decreases s.len(),
{
    if s.len() > 0 && s.last() == c {
        lemma_trim_end_idempotent(s.drop_last(), c);
    }
}

/// A trailing slash on the base URL does not change the endpoint.
pub proof fn lemma_completions_url_ignores_trailing_slash(base_url: Seq<char>)
    ensures
        completions_url_of(base_url.push('/')) == completions_url_of(base_url),
{
    assert(base_url.push('/').drop_last() =~= base_url);
}

// ---------------------------------------------------------------------------
// Question rules and session checks
// ---------------------------------------------------------------------------

/// A question is valid exactly when its five weights add up to 100, it has
/// a visible requirement, a dynamic question has task-done signals and a
/// static one has none.
pub proof fn lemma_validation_rules(q: QuestionModel)
    ensures
        validation_error(q) is None <==> ({
            let f = q.hidden_reference.dimension_focus;
            &&& f.clarity_output + f.structuring + f.context_constraints + f.gap_risk
                + f.iteration_acceptance == 100
            &&& q.visible_prompt.requirements.len() > 0
            &&& q.assessment_mode == "dynamic"@ ==> q.hidden_reference.task_done_signals is Some
            &&& q.assessment_mode == "static"@ ==> q.hidden_reference.task_done_signals is None
        }),
{
}

/// A quick ("fun") session draws at most 3 questions, any other at most 5.
pub proof fn lemma_static_question_limits(scope: Seq<char>)
    ensures
        scope == "fun"@ ==> static_question_limit(scope) == 3,
        scope != "fun"@ ==> static_question_limit(scope) == 5,
{
}

/// A session accepts work exactly when it exists and is running, and, for
/// presenting a static question, is a static session.
pub proof fn lemma_session_checks(session: Option<AssessmentSession>, static_only: bool)
    ensures
        session is None ==> session_refusal(session, static_only) is Some,
        session matches Some(s) ==> (session_refusal(session, static_only) is None <==> (s.status@
            == "running"@ && (static_only ==> s.interaction_mode@ == "static"@))),
{
}

/// An error text that mentions "401" or "Unauthorized" is an authentication
/// failure; otherwise one that mentions "timeout" is a time-out.
pub proof fn lemma_model_failure_kinds(e: CommandError, m: Seq<char>)
    requires
        model_failure(e, m),
    ensures
        seq_contains_run(m, "401"@) || seq_contains_run(m, "Unauthorized"@) ==> e.code@
            == "MODEL_AUTH_FAILED"@ && e.action == Action::GoToSettings,
        !(seq_contains_run(m, "401"@) || seq_contains_run(m, "Unauthorized"@)) && seq_contains_run(
            m,
            "timeout"@,
        ) ==> e.code@ == "MODEL_TIMEOUT"@ && e.action == Action::RetrySameAction,
        e.recoverable,
{
}

// ---------------------------------------------------------------------------
// Settings values
// ---------------------------------------------------------------------------

/// An accepted settings update stores exactly the submitted choices, keeps
/// the schema version and is stamped with the time of the save.
pub proof fn lemma_settings_update_takes_input(
    s: SettingsModel,
    theme_color: Seq<char>,
    font_size: Seq<char>,
    show_launch_notice: bool,
    default_advanced_evaluation_context: bool,
    default_markdown_directory: Option<Seq<char>>,
    now: Seq<char>,
)
    ensures
        ({
            let u = updated_settings(
                s,
                theme_color,
                font_size,
                show_launch_notice,
                default_advanced_evaluation_context,
                default_markdown_directory,
                now,
            );
            &&& u.schema_version == s.schema_version
            &&& u.theme_color == theme_color
            &&& u.font_size == font_size
            &&& u.show_launch_notice == show_launch_notice
            &&& u.default_advanced_evaluation_context == default_advanced_evaluation_context
            &&& u.default_markdown_directory == default_markdown_directory
            &&& u.updated_at == now
        }),
        forall|x: SettingsModel|
            #[trigger] summary_of_settings(x) == (SettingsSummaryModel {
                theme_color: x.theme_color,
                font_size: x.font_size,
                show_launch_notice: x.show_launch_notice,
                default_advanced_evaluation_context: x.default_advanced_evaluation_context,
                default_markdown_directory: x.default_markdown_directory,
            }),
{
}

/// The default settings: schema 1.0.0, teal theme, medium font, launch
/// notice shown, advanced evaluation context off, no export directory.
pub proof fn lemma_default_settings_values(now: Seq<char>)
    ensures
        default_settings_model(now).schema_version == "1.0.0"@,
        default_settings_model(now).theme_color == "teal"@,
        default_settings_model(now).font_size == "medium"@,
        default_settings_model(now).show_launch_notice,
        !default_settings_model(now).default_advanced_evaluation_context,
        default_settings_model(now).default_markdown_directory is None,
        default_settings_model(now).updated_at == now,
{
}

// ---------------------------------------------------------------------------
// Endpoint shape
// ---------------------------------------------------------------------------

/// The endpoint is the base URL without trailing slashes followed by
/// "/chat/completions".
pub proof fn lemma_completions_url_shape(base_url: Seq<char>)
    ensures
        completions_url_of(base_url).len() == trim_end_char(base_url, '/').len() + 17,
        completions_url_of(base_url).subrange(0, trim_end_char(base_url, '/').len() as int)
            == trim_end_char(base_url, '/'),
        completions_url_of(base_url).subrange(
            trim_end_char(base_url, '/').len() as int,
            completions_url_of(base_url).len() as int,
        ) == "/chat/completions"@,
{
    reveal_strlit("/chat/completions");
    let t = trim_end_char(base_url, '/');
    assert(completions_url_of(base_url).subrange(0, t.len() as int) =~= t);
    assert(completions_url_of(base_url).subrange(t.len() as int, completions_url_of(base_url).len() as int)
        =~= "/chat/completions"@);
}

} // verus!
