//! The flow of a static assessment session: starting it, presenting the next
//! question, and accounting for a submitted answer. Each step takes what the
//! application read (profiles, stored records, the evaluator's verdict) and
//! returns what it should store or answer.

use vstd::prelude::*;
use vstd::string::*;

use crate::ai_client::ChatCompletionResponse;
use crate::clock::{new_identifier, now_rfc3339};
use crate::db::{AssessmentSession, AssessmentTask};
use crate::errors::{command_error, detailed_error, error_is, fixed_error, Action, CommandError, Severity};
use crate::evaluation::{
    core_scores_of, extract_confidence, extract_core_scores, evaluation_summary, parse_evaluation_response,
    ConfidenceSummary, CoreScoresSummary,
};
use crate::json::{
    extract_string_array, json_field, json_parse_result, number_field, number_of, parse_string_list,
    string_list_of, text_items_of, text_of, JsonValue,
};
use crate::profiles::{
    opt_summary, profile_summary, summary_of, ModelProfileSummary, Profiles, SummaryModel,
};
use crate::question_bank::{opt_text, QuestionSchema};
use crate::text::{copy_opt_text, text_eq};

verus! {

/// What the user chose when starting an assessment.
#[derive(Debug)]
pub struct AssessmentStartRequest {
    pub scope: String,
    pub interaction_mode: String,
    pub question_source: String,
    pub static_strategy: Option<String>,
    pub dynamic_end_strategy: Option<String>,
    pub fixed_round_limit: Option<i32>,
    pub task_type: Option<String>,
    pub generation_constraints: Option<String>,
    pub advanced_evaluation_context: bool,
    pub runtime_model_overrides: Option<RuntimeModelOverrides>,
}

/// Per-session model choices that override the profiles.
#[derive(Debug)]
pub struct RuntimeModelOverrides {
    pub executor_model_override: Option<String>,
    pub evaluator_model_override: Option<String>,
    pub generator_model_override: Option<String>,
}

/// The profiles a session was started with.
#[derive(Debug)]
pub struct ModelSnapshots {
    pub executor: Option<ModelProfileSummary>,
    pub evaluator: ModelProfileSummary,
    pub generator: Option<ModelProfileSummary>,
}

/// What the interface is shown of a new session.
#[derive(Debug)]
pub struct SessionSummary {
    pub session_id: String,
    pub scope: String,
    pub interaction_mode: String,
    pub question_source: String,
    pub status: String,
    pub question_count: i32,
    pub effective_round_count: i32,
    pub advanced_evaluation_context: bool,
    pub static_strategy: Option<String>,
    pub executor_model_snapshot: Option<ModelProfileSummary>,
    pub evaluator_model_snapshot: ModelProfileSummary,
    pub generator_model_snapshot: Option<ModelProfileSummary>,
    pub created_at: String,
}

/// The answer to a started assessment.
#[derive(Debug)]
pub struct StartAssessmentSuccess {
    pub entry_mode: String,
    pub session: SessionSummary,
    pub initial_task_ready: bool,
}

/// Where a session stands.
#[derive(Debug, PartialEq, Eq, Structural)]
pub struct TaskProgress {
    pub current_index: i32,
    pub total_count: i32,
    pub completed_count: i32,
    pub remaining_count: i32,
}

/// The question shown to the user.
#[derive(Debug)]
pub struct StaticTaskData {
    pub task_id: String,
    pub sequence_no: i32,
    pub title: String,
    pub task: String,
    pub requirements: Vec<String>,
}

/// The answer to a request for the next question.
#[derive(Debug)]
pub struct StaticTaskPresentation {
    pub state: String,
    pub task: Option<StaticTaskData>,
    pub progress: TaskProgress,
}

/// The score of the question just answered.
#[derive(Debug)]
pub struct ScoredTaskSummary {
    pub task_id: String,
    /// Bit pattern of the `f64` final score.
    pub final_score_bits: u64,
    pub executor_output_preview: Option<String>,
}

/// The report shown when the last question was answered.
#[derive(Debug)]
pub struct FinalReportSummary {
    pub session_id: String,
    pub scope: String,
    pub interaction_mode: String,
    pub static_strategy: Option<String>,
    /// Bit pattern of the `f64` total score.
    pub total_score_bits: u64,
    pub core_scores: CoreScoresSummary,
    pub strengths: Vec<String>,
    pub issues: Vec<String>,
    pub suggestions: Vec<String>,
    pub summary: String,
    pub confidence: ConfidenceSummary,
    pub question_count: i32,
    pub effective_round_count: i32,
}

/// The answer to a submitted prompt.
#[derive(Debug)]
pub struct SubmitStaticPromptSuccess {
    /// "continue" or "show_result".
    pub next_action: String,
    pub scored_task: Option<ScoredTaskSummary>,
    pub progress: Option<TaskProgress>,
    pub final_report: Option<FinalReportSummary>,
}

// ---------------------------------------------------------------------------
// Starting a session
// ---------------------------------------------------------------------------

/// The static strategy a request asks for ("prompt_only" by default).
pub open spec fn requested_strategy(request: AssessmentStartRequest) -> Seq<char> {
    match request.static_strategy {
        Some(s) => s@,
        None => "prompt_only"@,
    }
}

/// The first reason a start request is refused, as (code, message, recoverable,
/// action), or `None` when it is accepted. Every refusal is a warning.
pub open spec fn start_refusal(request: AssessmentStartRequest, profiles: Profiles) -> Option<
    (Seq<char>, Seq<char>, bool, Action),
> {
    let strategy = requested_strategy(request);
    if request.interaction_mode@ != "static"@ {
        Some(
            ("ASSESSMENT_CONFIG_INVALID"@, "当前仅支持静态测评模式"@, false, Action::NoAction),
        )
    } else if strategy != "prompt_only"@ && strategy != "execute_then_evaluate"@ {
        Some(
            (
                "ASSESSMENT_CONFIG_INVALID"@,
                "静态策略必须为 prompt_only 或 execute_then_evaluate"@,
                false,
                Action::NoAction,
            ),
        )
    } else if !profiles.evaluator.enabled || profiles.evaluator.api_key is None {
        Some(
            (
                "CONFIG_MISSING_EVALUATOR"@,
                "测评AI配置缺失，请先在设置页配置"@,
                true,
                Action::GoToSettings,
            ),
        )
    } else if strategy == "execute_then_evaluate"@ && (!profiles.executor.enabled
        || profiles.executor.api_key is None) {
        Some(
            (
                "CONFIG_MISSING_EXECUTOR"@,
                "执行AI配置缺失，请先在设置页配置"@,
                true,
                Action::GoToSettings,
            ),
        )
    } else {
        None
    }
}

/// A static request with a known strategy, whose evaluator (and, when the
/// answers are executed, executor) is enabled with a key, is accepted.
pub proof fn lemma_start_accepted(request: AssessmentStartRequest, profiles: Profiles)
    requires
        request.interaction_mode@ == "static"@,
        match request.static_strategy {
            None => true,
            Some(x) => x@ == "prompt_only"@ || x@ == "execute_then_evaluate"@,
        },
        profiles.evaluator.enabled,
        profiles.evaluator.api_key is Some,
        (request.static_strategy matches Some(x) && x@ == "execute_then_evaluate"@)
            ==> profiles.executor.enabled && profiles.executor.api_key is Some,
    ensures
        start_refusal(request, profiles) is None,
        requested_strategy(request) == (match request.static_strategy {
            Some(y) => y@,
            None => "prompt_only"@,
        }),
{
    reveal_strlit("prompt_only");
    reveal_strlit("execute_then_evaluate");
    assert("prompt_only"@ != "execute_then_evaluate"@) by {
        assert("prompt_only"@[0] != "execute_then_evaluate"@[0]);
    }
}

/// Checks a start request against the stored profiles: only the static mode
/// is offered; the strategy must be "prompt_only" or
/// "execute_then_evaluate"; the evaluator must be enabled with a key, and so
/// must the executor when the answer is executed. Returns the strategy.
pub fn check_start_request(request: &AssessmentStartRequest, profiles: &Profiles) -> (r: Result<
    String,
    CommandError,
>)
    ensures
        match start_refusal(*request, *profiles) {
            None => r matches Ok(s) && s@ == requested_strategy(*request),
            Some((code, message, recoverable, action)) => r matches Err(e) && error_is(
                e,
                code,
                message,
                Severity::Warning,
                recoverable,
                action,
            ),
        },
        ({
            let executes = request.static_strategy matches Some(x) && x@ == "execute_then_evaluate"@;
            let known = match request.static_strategy {
                None => true,
                Some(x) => x@ == "prompt_only"@ || x@ == "execute_then_evaluate"@,
            };
            request.interaction_mode@ == "static"@ && known && profiles.evaluator.enabled
                && profiles.evaluator.api_key is Some && (executes ==> profiles.executor.enabled
                && profiles.executor.api_key is Some) ==> (r matches Ok(x) && x@ == (match request.static_strategy {
                Some(y) => y@,
                None => "prompt_only"@,
            }))
        }),
{
    proof {
        let ghost req = *request;
        let ghost ps = *profiles;
        let executes = req.static_strategy matches Some(x) && x@ == "execute_then_evaluate"@;
        let known = match req.static_strategy {
            None => true,
            Some(x) => x@ == "prompt_only"@ || x@ == "execute_then_evaluate"@,
        };
        if req.interaction_mode@ == "static"@ && known && ps.evaluator.enabled
            && ps.evaluator.api_key is Some && (executes ==> ps.executor.enabled
            && ps.executor.api_key is Some) {
            lemma_start_accepted(req, ps);
        }
    }
    if !text_eq(request.interaction_mode.as_str(), "static") {
        return Err(
            fixed_error(
                "ASSESSMENT_CONFIG_INVALID",
                "当前仅支持静态测评模式",
                Severity::Warning,
                false,
                Action::NoAction,
            ),
        );
    }
    let strategy = match &request.static_strategy {
        Some(s) => s.clone(),
        None => String::from_str("prompt_only"),
    };
    let executes = text_eq(strategy.as_str(), "execute_then_evaluate");
    if !text_eq(strategy.as_str(), "prompt_only") && !executes {
        return Err(
            fixed_error(
                "ASSESSMENT_CONFIG_INVALID",
                "静态策略必须为 prompt_only 或 execute_then_evaluate",
                Severity::Warning,
                false,
                Action::NoAction,
            ),
        );
    }
    if !profiles.evaluator.enabled || profiles.evaluator.api_key.is_none() {
        return Err(
            fixed_error(
                "CONFIG_MISSING_EVALUATOR",
                "测评AI配置缺失，请先在设置页配置",
                Severity::Warning,
                true,
                Action::GoToSettings,
            ),
        );
    }
    if executes && (!profiles.executor.enabled || profiles.executor.api_key.is_none()) {
        return Err(
            fixed_error(
                "CONFIG_MISSING_EXECUTOR",
                "执行AI配置缺失，请先在设置页配置",
                Severity::Warning,
                true,
                Action::GoToSettings,
            ),
        );
    }
    Ok(strategy)
}

/// The profiles recorded with a new session: the evaluator's always, the
/// executor's and the generator's when enabled.
pub fn model_snapshots(profiles: &Profiles) -> (r: ModelSnapshots)
    ensures
        r.evaluator@ == summary_of(profiles@.evaluator),
        opt_summary(r.executor) == (if profiles@.executor.enabled {
            Some(summary_of(profiles@.executor))
        } else {
            None
        }),
        opt_summary(r.generator) == (if profiles@.generator_override.enabled {
            Some(summary_of(profiles@.generator_override))
        } else {
            None
        }),
{
    let executor = if profiles.executor.enabled {
        Some(profile_summary(&profiles.executor))
    } else {
        None
    };
    let generator = if profiles.generator_override.enabled {
        Some(profile_summary(&profiles.generator_override))
    } else {
        None
    };
    ModelSnapshots { executor, evaluator: profile_summary(&profiles.evaluator), generator }
}

/// The record of a new static session: running, with the request's choices,
/// the accepted strategy, the number of drawn questions, the serialised model
/// snapshots, the current rubric and bundle versions, not yet scored; it gets
/// a fresh identifier and is created and updated at the current time.
pub fn new_static_session(
    request: &AssessmentStartRequest,
    static_strategy: &str,
    question_count: i32,
    executor_model_snapshot_json: Option<String>,
    evaluator_model_snapshot_json: String,
    generator_model_snapshot_json: Option<String>,
) -> (s: AssessmentSession)
    ensures
        s.id@.len() == 36,
        s.scope@ == request.scope@,
        s.interaction_mode@ == request.interaction_mode@,
        s.question_source@ == request.question_source@,
        opt_text(s.static_strategy) == Some(static_strategy@),
        s.dynamic_end_strategy is None,
        s.fixed_round_limit is None,
        opt_text(s.task_type) == opt_text(request.task_type),
        s.generation_constraints is None,
        s.advanced_eval_context == (if request.advanced_evaluation_context {
            1i32
        } else {
            0i32
        }),
        s.executor_model_snapshot_json == executor_model_snapshot_json,
        s.evaluator_model_snapshot_json == evaluator_model_snapshot_json,
        s.generator_model_snapshot_json == generator_model_snapshot_json,
        s.total_score_bits is None,
        s.confidence_level is None,
        s.confidence_note is None,
        s.question_count == question_count,
        s.effective_round_count == 0,
        s.status@ == "running"@,
        s.rubric_version@ == "rubric-v1"@,
        s.prompt_bundle_version@ == "eval-static-prompt-only-v1"@,
        opt_text(s.question_bundle_version) == Some("builtin-v1"@),
        s.completed_at is None,
        s.updated_at@ == s.created_at@,
{
    let now = now_rfc3339();
    AssessmentSession {
        id: new_identifier(),
        scope: request.scope.clone(),
        interaction_mode: request.interaction_mode.clone(),
        question_source: request.question_source.clone(),
        static_strategy: Some(String::from_str(static_strategy)),
        dynamic_end_strategy: None,
        fixed_round_limit: None,
        task_type: copy_opt_text(&request.task_type),
        generation_constraints: None,
        advanced_eval_context: if request.advanced_evaluation_context {
            1
        } else {
            0
        },
        executor_model_snapshot_json,
        evaluator_model_snapshot_json,
        generator_model_snapshot_json,
        total_score_bits: None,
        confidence_level: None,
        confidence_note: None,
        question_count,
        effective_round_count: 0,
        status: String::from_str("running"),
        rubric_version: String::from_str("rubric-v1"),
        prompt_bundle_version: String::from_str("eval-static-prompt-only-v1"),
        question_bundle_version: Some(String::from_str("builtin-v1")),
        created_at: now.clone(),
        completed_at: None,
        updated_at: now,
    }
}

/// The record of the `index`-th (from 0) drawn question of a new session:
/// numbered `index + 1` (cast to `i32`), from the built-in bank, with the question's type,
/// title and visible task, the serialised parts, not yet answered; it gets a
/// fresh identifier and belongs to `session`, created when the session was.
pub fn new_static_task(
    session: &AssessmentSession,
    index: usize,
    question: &QuestionSchema,
    visible_requirements_json: String,
    raw_question_json: String,
    hidden_reference_json: String,
    dimension_focus_json: String,
) -> (t: AssessmentTask)
    requires
        index < usize::MAX,
    ensures
        t.id@.len() == 36,
        t.session_id@ == session.id@,
        t.sequence_no == (index + 1) as i32,
        t.source@ == "builtin"@,
        t.task_type@ == question.task_type@,
        t.title@ == question.title@,
        t.visible_task@ == question.visible_prompt.task@,
        t.visible_requirements_json == visible_requirements_json,
        t.raw_question_json == raw_question_json,
        t.hidden_reference_json == hidden_reference_json,
        t.dimension_focus_json == dimension_focus_json,
        t.user_prompt is None,
        t.executor_output is None,
        t.prompt_score_bits is None,
        t.execution_score_bits is None,
        t.final_score_bits is None,
        t.created_at@ == session.created_at@,
        t.completed_at is None,
{
    AssessmentTask {
        id: new_identifier(),
        session_id: session.id.clone(),
        sequence_no: #[verifier::truncate] ((index + 1) as i32),
        source: String::from_str("builtin"),
        task_type: question.task_type.clone(),
        title: question.title.clone(),
        visible_task: question.visible_prompt.task.clone(),
        visible_requirements_json,
        raw_question_json,
        hidden_reference_json,
        dimension_focus_json,
        user_prompt: None,
        executor_output: None,
        prompt_score_bits: None,
        execution_score_bits: None,
        final_score_bits: None,
        created_at: session.created_at.clone(),
        completed_at: None,
    }
}

/// The answer to a started session: static entry, the session's summary
/// (running, no rounds yet), first question ready.
pub fn start_success(
    session_id: String,
    request: &AssessmentStartRequest,
    static_strategy: &str,
    question_count: i32,
    snapshots: ModelSnapshots,
    now: String,
) -> (r: StartAssessmentSuccess)
    ensures
        r.entry_mode@ == "static"@,
        r.initial_task_ready,
        r.session.session_id == session_id,
        r.session.scope@ == request.scope@,
        r.session.interaction_mode@ == request.interaction_mode@,
        r.session.question_source@ == request.question_source@,
        r.session.status@ == "running"@,
        r.session.question_count == question_count,
        r.session.effective_round_count == 0,
        r.session.advanced_evaluation_context == request.advanced_evaluation_context,
        opt_text(r.session.static_strategy) == Some(static_strategy@),
        r.session.executor_model_snapshot == snapshots.executor,
        r.session.evaluator_model_snapshot == snapshots.evaluator,
        r.session.generator_model_snapshot == snapshots.generator,
        r.session.created_at == now,
{
    StartAssessmentSuccess {
        entry_mode: String::from_str("static"),
        session: SessionSummary {
            session_id,
            scope: request.scope.clone(),
            interaction_mode: request.interaction_mode.clone(),
            question_source: request.question_source.clone(),
            status: String::from_str("running"),
            question_count,
            effective_round_count: 0,
            advanced_evaluation_context: request.advanced_evaluation_context,
            static_strategy: Some(String::from_str(static_strategy)),
            executor_model_snapshot: snapshots.executor,
            evaluator_model_snapshot: snapshots.evaluator,
            generator_model_snapshot: snapshots.generator,
            created_at: now,
        },
        initial_task_ready: true,
    }
}

// ---------------------------------------------------------------------------
// Looking up sessions and tasks
// ---------------------------------------------------------------------------

/// A stored session, or the "not found" warning shown on the history page.
pub fn session_or_not_found(session: Option<AssessmentSession>) -> (r: Result<
    AssessmentSession,
    CommandError,
>)
    ensures
        match session {
            Some(s) => r == Ok::<AssessmentSession, CommandError>(s),
            None => r matches Err(e) && error_is(
                e,
                "SESSION_NOT_FOUND"@,
                "会话不存在"@,
                Severity::Warning,
                true,
                Action::NoAction,
            ),
        },
{
    match session {
        Some(s) => Ok(s),
        None => Err(
            fixed_error("SESSION_NOT_FOUND", "会话不存在", Severity::Warning, true, Action::NoAction),
        ),
    }
}

/// The first reason a stored session cannot go on, as (code, message,
/// severity); `None` when it can. `static_only` adds the mode check.
pub open spec fn session_refusal(session: Option<AssessmentSession>, static_only: bool) -> Option<
    (Seq<char>, Seq<char>, Severity),
> {
    match session {
        None => Some(("SESSION_NOT_FOUND"@, "会话不存在"@, Severity::Error)),
        Some(s) => if s.status@ != "running"@ {
            Some(("ASSESSMENT_NOT_ACTIVE"@, "会话已结束或已放弃"@, Severity::Warning))
        } else if static_only && s.interaction_mode@ != "static"@ {
            Some(("SESSION_MODE_MISMATCH"@, "当前会话不是静态测评"@, Severity::Error))
        } else {
            None
        },
    }
}

fn check_session(session: &Option<AssessmentSession>, static_only: bool) -> (r: Result<
    (),
    CommandError,
>)
    ensures
        match session_refusal(*session, static_only) {
            None => r is Ok,
            Some((code, message, severity)) => r matches Err(e) && error_is(
                e,
                code,
                message,
                severity,
                false,
                Action::BackToHome,
            ),
        },
{
    match session {
        None => Err(
            fixed_error("SESSION_NOT_FOUND", "会话不存在", Severity::Error, false, Action::BackToHome),
        ),
        Some(s) => {
            if !text_eq(s.status.as_str(), "running") {
                return Err(
                    fixed_error(
                        "ASSESSMENT_NOT_ACTIVE",
                        "会话已结束或已放弃",
                        Severity::Warning,
                        false,
                        Action::BackToHome,
                    ),
                );
            }
            if static_only && !text_eq(s.interaction_mode.as_str(), "static") {
                return Err(
                    fixed_error(
                        "SESSION_MODE_MISMATCH",
                        "当前会话不是静态测评",
                        Severity::Error,
                        false,
                        Action::BackToHome,
                    ),
                );
            }
            Ok(())
        },
    }
}

/// Checks that a session exists, is running and is static before its next
/// question is shown.
pub fn check_session_for_next_task(session: &Option<AssessmentSession>) -> (r: Result<
    (),
    CommandError,
>)
    ensures
        match session_refusal(*session, true) {
            None => r is Ok,
            Some((code, message, severity)) => r matches Err(e) && error_is(
                e,
                code,
                message,
                severity,
                false,
                Action::BackToHome,
            ),
        },
{
    check_session(session, true)
}

/// Checks that a session exists and is running before an answer is scored.
pub fn check_session_for_submission(session: &Option<AssessmentSession>) -> (r: Result<
    (),
    CommandError,
>)
    ensures
        match session_refusal(*session, false) {
            None => r is Ok,
            Some((code, message, severity)) => r matches Err(e) && error_is(
                e,
                code,
                message,
                severity,
                false,
                Action::BackToHome,
            ),
        },
{
    check_session(session, false)
}

/// The next unanswered question, or the error that there is none.
pub fn require_next_task(next: Option<AssessmentTask>) -> (r: Result<AssessmentTask, CommandError>)
    ensures
        match next {
            Some(t) => r == Ok::<AssessmentTask, CommandError>(t),
            None => r matches Err(e) && error_is(
                e,
                "QUESTION_NOT_FOUND"@,
                "没有未提交的题目"@,
                Severity::Error,
                true,
                Action::ReloadCurrentPage,
            ),
        },
{
    match next {
        Some(t) => Ok(t),
        None => Err(
            fixed_error(
                "QUESTION_NOT_FOUND",
                "没有未提交的题目",
                Severity::Error,
                true,
                Action::ReloadCurrentPage,
            ),
        ),
    }
}

/// The question shown next, with the session's progress: `total_count`
/// questions, `completed_count` answered; the requirements are the stored
/// list when it reads as a JSON list of strings, empty otherwise.
pub fn static_task_presentation(task: AssessmentTask, total_count: i32, completed_count: i32) -> (r:
    StaticTaskPresentation)
    requires
        i32::MIN <= total_count - completed_count <= i32::MAX,
    ensures
        r.state@ == "ready"@,
        r.task matches Some(d) && {
            &&& d.task_id == task.id
            &&& d.sequence_no == task.sequence_no
            &&& d.title == task.title
            &&& d.task == task.visible_task
            &&& d.requirements.deep_view() == (match string_list_of(
                task.visible_requirements_json@,
            ) {
                Some(reqs) => reqs,
                None => Seq::<Seq<char>>::empty(),
            })
        },
        r.progress == (TaskProgress {
            current_index: task.sequence_no,
            total_count,
            completed_count,
            remaining_count: (total_count - completed_count) as i32,
        }),
{
    let requirements = match parse_string_list(task.visible_requirements_json.as_str()) {
        Some(reqs) => reqs,
        None => {
            let v: Vec<String> = Vec::new();
            assert(v.deep_view() =~= Seq::<Seq<char>>::empty());
            v
        },
    };
    let sequence_no = task.sequence_no;
    StaticTaskPresentation {
        state: String::from_str("ready"),
        task: Some(
            StaticTaskData {
                task_id: task.id,
                sequence_no,
                title: task.title,
                task: task.visible_task,
                requirements,
            },
        ),
        progress: TaskProgress {
            current_index: sequence_no,
            total_count,
            completed_count,
            remaining_count: total_count - completed_count,
        },
    }
}

/// Checks that the answered question exists and was not answered before.
pub fn check_task_for_submission(task: &Option<AssessmentTask>) -> (r: Result<(), CommandError>)
    ensures
        match task {
            None => r matches Err(e) && error_is(
                e,
                "QUESTION_NOT_FOUND"@,
                "题目不存在"@,
                Severity::Error,
                true,
                Action::ReloadCurrentPage,
            ),
            Some(t) => if t.user_prompt is Some {
                r matches Err(e) && error_is(
                    e,
                    "TASK_ALREADY_SUBMITTED"@,
                    "本题已提交过"@,
                    Severity::Warning,
                    true,
                    Action::ReloadCurrentPage,
                )
            } else {
                r is Ok
            },
        },
{
    match task {
        None => Err(
            fixed_error(
                "QUESTION_NOT_FOUND",
                "题目不存在",
                Severity::Error,
                true,
                Action::ReloadCurrentPage,
            ),
        ),
        Some(t) => {
            if t.user_prompt.is_some() {
                Err(
                    fixed_error(
                        "TASK_ALREADY_SUBMITTED",
                        "本题已提交过",
                        Severity::Warning,
                        true,
                        Action::ReloadCurrentPage,
                    ),
                )
            } else {
                Ok(())
            }
        },
    }
}

/// Checks that the evaluator is enabled and has a key before an answer is
/// scored.
pub fn check_evaluator_for_submission(profiles: &Profiles) -> (r: Result<(), CommandError>)
    ensures
        (profiles.evaluator.enabled && profiles.evaluator.api_key is Some) ==> r is Ok,
        !(profiles.evaluator.enabled && profiles.evaluator.api_key is Some) ==> (r matches Err(e)
            && error_is(
            e,
            "CONFIG_MISSING_EVALUATOR"@,
            "测评AI配置缺失，请在设置页配置"@,
            Severity::Warning,
            true,
            Action::GoToSettings,
        )),
{
    if !profiles.evaluator.enabled || profiles.evaluator.api_key.is_none() {
        return Err(
            fixed_error(
                "CONFIG_MISSING_EVALUATOR",
                "测评AI配置缺失，请在设置页配置",
                Severity::Warning,
                true,
                Action::GoToSettings,
            ),
        );
    }
    Ok(())
}

// ---------------------------------------------------------------------------
// Scoring a submission
// ---------------------------------------------------------------------------


/// Checks a submission in the order the answer is accepted: the session (it
/// exists and is running), then the question (it exists and was not answered
/// before), then the evaluator profile (enabled, with a key). The first
/// refusal is reported.
pub fn check_submission(
    session: &Option<AssessmentSession>,
    task: &Option<AssessmentTask>,
    profiles: &Profiles,
) -> (r: Result<(), CommandError>)
    ensures
        match session_refusal(*session, false) {
            Some((code, message, severity)) => r matches Err(e) && error_is(
                e,
                code,
                message,
                severity,
                false,
                Action::BackToHome,
            ),
            None => match task {
                None => r matches Err(e) && error_is(
                    e,
                    "QUESTION_NOT_FOUND"@,
                    "题目不存在"@,
                    Severity::Error,
                    true,
                    Action::ReloadCurrentPage,
                ),
                Some(t) => if t.user_prompt is Some {
                    r matches Err(e) && error_is(
                        e,
                        "TASK_ALREADY_SUBMITTED"@,
                        "本题已提交过"@,
                        Severity::Warning,
                        true,
                        Action::ReloadCurrentPage,
                    )
                } else if !(profiles.evaluator.enabled && profiles.evaluator.api_key is Some) {
                    r matches Err(e) && error_is(
                        e,
                        "CONFIG_MISSING_EVALUATOR"@,
                        "测评AI配置缺失，请在设置页配置"@,
                        Severity::Warning,
                        true,
                        Action::GoToSettings,
                    )
                } else {
                    r is Ok
                },
            },
        },
{
    match check_session_for_submission(session) {
        Err(e) => {
            return Err(e);
        },
        Ok(()) => {},
    }
    match check_task_for_submission(task) {
        Err(e) => {
            return Err(e);
        },
        Ok(()) => {},
    }
    check_evaluator_for_submission(profiles)
}

/// The error reported when the evaluator client cannot be created.
pub fn client_creation_error(detail: &str) -> (e: CommandError)
    ensures
        error_is(
            e,
            "MODEL_AUTH_FAILED"@,
            "无法创建AI客户端: "@ + detail@,
            Severity::Error,
            true,
            Action::GoToSettings,
        ),
{
    detailed_error(
        "MODEL_AUTH_FAILED",
        "无法创建AI客户端: ",
        detail,
        Severity::Error,
        true,
        Action::GoToSettings,
    )
}

/// The error reported when the asynchronous runtime cannot be created.
pub fn runtime_creation_error(detail: &str) -> (e: CommandError)
    ensures
        error_is(
            e,
            "MODEL_REQUEST_FAILED"@,
            "无法创建异步运行时: "@ + detail@,
            Severity::Error,
            true,
            Action::RetrySameAction,
        ),
{
    detailed_error(
        "MODEL_REQUEST_FAILED",
        "无法创建异步运行时: ",
        detail,
        Severity::Error,
        true,
        Action::RetrySameAction,
    )
}

/// The evaluator's reply text: the content of its first alternative, or the
/// error that the reply is empty.
pub fn evaluator_reply_content(response: &ChatCompletionResponse) -> (r: Result<String, CommandError>)
    ensures
        response.choices@.len() > 0 ==> (r matches Ok(c) && c@
            == response.choices@[0].message.content@),
        response.choices@.len() == 0 ==> (r matches Err(e) && error_is(
            e,
            "MODEL_EMPTY_RESPONSE"@,
            "AI返回空响应"@,
            Severity::Error,
            true,
            Action::RetrySameAction,
        )),
{
    match crate::ai_client::first_choice_content(response) {
        Some(c) => Ok(c),
        None => Err(
            fixed_error(
                "MODEL_EMPTY_RESPONSE",
                "AI返回空响应",
                Severity::Error,
                true,
                Action::RetrySameAction,
            ),
        ),
    }
}

/// The evaluator's verdict as a JSON document, or the error that it is not
/// one.
pub fn read_verdict(content: &str) -> (r: Result<JsonValue, CommandError>)
    ensures
        match (r, json_parse_result(content@)) {
            (Ok(v), Ok(w)) => v == w,
            (Err(e), Err(m)) => error_is(
                e,
                "MODEL_INVALID_JSON"@,
                "无法解析评分JSON: "@ + ("无法解析测评AI返回的JSON: "@ + m),
                Severity::Error,
                true,
                Action::RetrySameAction,
            ),
            _ => false,
        },
{
    match parse_evaluation_response(content) {
        Ok(v) => Ok(v),
        Err(e) => Err(
            detailed_error(
                "MODEL_INVALID_JSON",
                "无法解析评分JSON: ",
                e.as_str(),
                Severity::Error,
                true,
                Action::RetrySameAction,
            ),
        ),
    }
}

/// The prompt score (`rubricScore`) and execution score
/// (`executionOutcomeScore`) of a verdict, as `f64` bit patterns.
pub fn verdict_scores(eval: &JsonValue) -> (r: (Option<u64>, Option<u64>))
    ensures
        r.0 == number_of(json_field(*eval, "rubricScore"@)),
        r.1 == number_of(json_field(*eval, "executionOutcomeScore"@)),
{
    (number_field(eval, "rubricScore"), number_field(eval, "executionOutcomeScore"))
}

/// The all-zero core scores reported when a verdict lacks them.
pub open spec fn zero_core_scores() -> CoreScoresSummary {
    CoreScoresSummary {
        clarity_output_bits: 0,
        structuring_bits: 0,
        context_constraints_bits: 0,
        gap_risk_bits: 0,
        iteration_acceptance_bits: 0,
    }
}

/// The answer to a scored submission. `completed_count` answers of the
/// session's `question_count` are in. When all are in, the result is shown:
/// the final report carries the verdict's core scores (zero when missing),
/// strengths, issues, suggestions, summary and confidence, and the task's
/// final score (0.0 when it could not be computed) as total. Otherwise the
/// session continues with the number of questions left.
pub fn submission_outcome(
    session: &AssessmentSession,
    session_id: &str,
    task_id: &str,
    eval: &JsonValue,
    final_score_bits: Option<u64>,
    completed_count: i32,
) -> (r: SubmitStaticPromptSuccess)
    requires
        completed_count < session.question_count ==> session.question_count - completed_count
            <= i32::MAX,
    ensures
        ({
            let total = session.question_count;
            let score = match final_score_bits {
                Some(b) => b,
                None => 0u64,
            };
            &&& r.scored_task matches Some(st) && st.task_id@ == task_id@ && st.final_score_bits
                == score && st.executor_output_preview is None
            &&& if completed_count >= total {
                &&& r.next_action@ == "show_result"@
                &&& r.progress == Some(
                    TaskProgress {
                        current_index: completed_count,
                        total_count: total,
                        completed_count,
                        remaining_count: 0,
                    },
                )
                &&& r.final_report matches Some(f) && {
                    &&& f.session_id@ == session_id@
                    &&& f.scope@ == session.scope@
                    &&& f.interaction_mode@ == session.interaction_mode@
                    &&& opt_text(f.static_strategy) == opt_text(session.static_strategy)
                    &&& f.total_score_bits == score
                    &&& f.core_scores == (match core_scores_of(*eval) {
                        Some(c) => c,
                        None => zero_core_scores(),
                    })
                    &&& f.strengths.deep_view() == text_items_of(*eval, "strengths"@)
                    &&& f.issues.deep_view() == text_items_of(*eval, "issues"@)
                    &&& f.suggestions.deep_view() == text_items_of(*eval, "suggestions"@)
                    &&& f.summary@ == (match text_of(json_field(*eval, "summary"@)) {
                        Some(s) => s,
                        None => Seq::<char>::empty(),
                    })
                    &&& f.confidence.level@ == (match crate::evaluation::confidence_text(
                        *eval,
                        "level"@,
                    ) {
                        Some(l) => l,
                        None => "low"@,
                    })
                    &&& f.confidence.note@ == (match crate::evaluation::confidence_text(
                        *eval,
                        "note"@,
                    ) {
                        Some(n) => n,
                        None => Seq::<char>::empty(),
                    })
                    &&& f.question_count == total
                    &&& f.effective_round_count == 0
                }
            } else {
                &&& r.next_action@ == "continue"@
                &&& r.progress == Some(
                    TaskProgress {
                        current_index: completed_count,
                        total_count: total,
                        completed_count,
                        remaining_count: (total - completed_count) as i32,
                    },
                )
                &&& r.final_report is None
            }
        }),
{
    let total = session.question_count;
    let score: u64 = match final_score_bits {
        Some(b) => b,
        None => 0,
    };
    let scored = ScoredTaskSummary {
        task_id: String::from_str(task_id),
        final_score_bits: score,
        executor_output_preview: None,
    };
    if completed_count >= total {
        let core_scores = match extract_core_scores(eval) {
            Some(c) => c,
            None => CoreScoresSummary {
                clarity_output_bits: 0,
                structuring_bits: 0,
                context_constraints_bits: 0,
                gap_risk_bits: 0,
                iteration_acceptance_bits: 0,
            },
        };
        let report = FinalReportSummary {
            session_id: String::from_str(session_id),
            scope: session.scope.clone(),
            interaction_mode: session.interaction_mode.clone(),
            static_strategy: copy_opt_text(&session.static_strategy),
            total_score_bits: score,
            core_scores,
            strengths: extract_string_array(eval, "strengths"),
            issues: extract_string_array(eval, "issues"),
            suggestions: extract_string_array(eval, "suggestions"),
            summary: evaluation_summary(eval),
            confidence: extract_confidence(eval),
            question_count: total,
            effective_round_count: 0,
        };
        return SubmitStaticPromptSuccess {
            next_action: String::from_str("show_result"),
            scored_task: Some(scored),
            progress: Some(
                TaskProgress {
                    current_index: completed_count,
                    total_count: total,
                    completed_count,
                    remaining_count: 0,
                },
            ),
            final_report: Some(report),
        };
    }
    SubmitStaticPromptSuccess {
        next_action: String::from_str("continue"),
        scored_task: Some(scored),
        progress: Some(
            TaskProgress {
                current_index: completed_count,
                total_count: total,
                completed_count,
                remaining_count: total - completed_count,
            },
        ),
        final_report: None,
    }
}

} // verus!
