use prompt_iq::ai_client::{ChatCompletionResponse, ChatMessage, Choice};
use prompt_iq::assessment::{
    check_evaluator_for_submission, check_session_for_next_task, check_session_for_submission,
    check_start_request, check_submission, check_task_for_submission, client_creation_error, evaluator_reply_content,
    model_snapshots, new_static_session, new_static_task, read_verdict, require_next_task,
    runtime_creation_error, session_or_not_found, start_success, static_task_presentation,
    submission_outcome, verdict_scores, AssessmentStartRequest, TaskProgress,
};
use prompt_iq::db::{status_change_stamps, AssessmentSession, AssessmentTask};
use prompt_iq::errors::{Action, Severity};
use prompt_iq::evaluation::parse_evaluation_response;
use prompt_iq::profiles::{default_profiles, Profiles};
use prompt_iq::question_bank::{DimensionFocus, HiddenReference, QuestionSchema, VersionInfo, VisiblePrompt};

fn request(mode: &str, strategy: Option<&str>, scope: &str) -> AssessmentStartRequest {
    AssessmentStartRequest {
        scope: scope.to_string(),
        interaction_mode: mode.to_string(),
        question_source: "builtin".to_string(),
        static_strategy: strategy.map(|s| s.to_string()),
        dynamic_end_strategy: None,
        fixed_round_limit: None,
        task_type: Some("writing".to_string()),
        generation_constraints: Some("ignored".to_string()),
        advanced_evaluation_context: true,
        runtime_model_overrides: None,
    }
}

fn profiles(evaluator_ready: bool, executor_ready: bool) -> Profiles {
    let mut ps = default_profiles();
    if evaluator_ready {
        ps.evaluator.enabled = true;
        ps.evaluator.api_key = Some("k".to_string());
    }
    if executor_ready {
        ps.executor.enabled = true;
        ps.executor.api_key = Some("k".to_string());
    }
    ps
}

fn session(status: &str, mode: &str, question_count: i32) -> AssessmentSession {
    let mut s = new_static_session(
        &AssessmentStartRequest { interaction_mode: mode.to_string(), ..request("static", None, "fun") },
        "prompt_only",
        question_count,
        None,
        "{}".to_string(),
        None,
    );
    s.id = "s1".to_string();
    s.created_at = "t0".to_string();
    s.updated_at = "t0".to_string();
    s.status = status.to_string();
    s
}

fn question() -> QuestionSchema {
    QuestionSchema {
        id: "q1".to_string(),
        source: "builtin".to_string(),
        assessment_mode: "static".to_string(),
        task_type: "writing".to_string(),
        scope_fit: vec!["fun".to_string()],
        title: "A title".to_string(),
        version_info: VersionInfo {
            question_schema_version: "1".to_string(),
            question_version: "1".to_string(),
            rubric_version: "r".to_string(),
            generator_version: None,
        },
        visible_prompt: VisiblePrompt { task: "Do it".to_string(), requirements: vec!["r".to_string()] },
        hidden_reference: HiddenReference {
            dimension_focus: DimensionFocus {
                clarity_output: 30,
                structuring: 25,
                context_constraints: 20,
                gap_risk: 15,
                iteration_acceptance: 10,
            },
            ideal_elements: vec![],
            completion_criteria: vec![],
            notes_for_evaluator: String::new(),
            task_done_signals: None,
        },
    }
}

fn stored_task(user_prompt: Option<&str>) -> AssessmentTask {
    let mut t = new_static_task(
        &session("running", "static", 3),
        1,
        &question(),
        "[\"Be brief\"]".to_string(),
        "{}".to_string(),
        "{}".to_string(),
        "{}".to_string(),
    );
    t.id = "t1".to_string();
    t.user_prompt = user_prompt.map(|s| s.to_string());
    t
}

#[test]
fn start_requests_are_checked_in_order() {
    let e = check_start_request(&request("dynamic", None, "fun"), &profiles(true, true)).unwrap_err();
    assert_eq!(e.code, "ASSESSMENT_CONFIG_INVALID");
    assert_eq!(e.message, "当前仅支持静态测评模式");
    assert_eq!(e.severity, Severity::Warning);
    assert!(!e.recoverable);
    assert_eq!(e.action, Action::NoAction);

    let e = check_start_request(&request("static", Some("guess"), "fun"), &profiles(true, true)).unwrap_err();
    assert_eq!(e.message, "静态策略必须为 prompt_only 或 execute_then_evaluate");

    let e = check_start_request(&request("static", None, "fun"), &profiles(false, true)).unwrap_err();
    assert_eq!(e.code, "CONFIG_MISSING_EVALUATOR");
    assert_eq!(e.message, "测评AI配置缺失，请先在设置页配置");
    assert!(e.recoverable);
    assert_eq!(e.action, Action::GoToSettings);

    let e = check_start_request(&request("static", Some("execute_then_evaluate"), "fun"), &profiles(true, false))
        .unwrap_err();
    assert_eq!(e.code, "CONFIG_MISSING_EXECUTOR");
    assert_eq!(e.message, "执行AI配置缺失，请先在设置页配置");

    assert_eq!(check_start_request(&request("static", None, "fun"), &profiles(true, false)).unwrap(), "prompt_only");
    assert_eq!(
        check_start_request(&request("static", Some("execute_then_evaluate"), "fun"), &profiles(true, true)).unwrap(),
        "execute_then_evaluate"
    );
    // A session that could be started can have its answers evaluated.
    assert!(check_evaluator_for_submission(&profiles(true, false)).is_ok());
}

#[test]
fn snapshots_record_enabled_profiles() {
    let s = model_snapshots(&profiles(true, false));
    assert!(s.executor.is_none());
    assert!(s.generator.is_none());
    assert!(s.evaluator.enabled);
    assert!(s.evaluator.has_api_key);
    let mut ps = profiles(true, true);
    ps.generator_override.enabled = true;
    let s = model_snapshots(&ps);
    assert!(s.executor.is_some());
    assert!(s.generator.as_ref().unwrap().enabled);
    assert!(!s.generator.as_ref().unwrap().has_api_key);
}

#[test]
fn new_records_are_fresh() {
    let s = new_static_session(
        &request("static", None, "fun"),
        "prompt_only",
        3,
        Some("{\"e\":1}".to_string()),
        "{\"v\":1}".to_string(),
        None,
    );
    assert_eq!(s.id.len(), 36);
    assert_eq!(s.id.matches('-').count(), 4);
    let other = new_static_session(&request("static", None, "fun"), "prompt_only", 3, None, String::new(), None);
    assert_ne!(s.id, other.id);
    assert_eq!(s.scope, "fun");
    assert_eq!(s.static_strategy.as_deref(), Some("prompt_only"));
    assert_eq!(s.task_type.as_deref(), Some("writing"));
    assert_eq!(s.generation_constraints, None);
    assert_eq!(s.advanced_eval_context, 1);
    assert_eq!(s.executor_model_snapshot_json.as_deref(), Some("{\"e\":1}"));
    assert_eq!(s.evaluator_model_snapshot_json, "{\"v\":1}");
    assert_eq!(s.question_count, 3);
    assert_eq!(s.status, "running");
    assert_eq!(s.rubric_version, "rubric-v1");
    assert_eq!(s.prompt_bundle_version, "eval-static-prompt-only-v1");
    assert_eq!(s.question_bundle_version.as_deref(), Some("builtin-v1"));
    assert!(chrono::DateTime::parse_from_rfc3339(&s.created_at).is_ok());
    assert_eq!(s.updated_at, s.created_at);
    assert_eq!(s.completed_at, None);
    assert_eq!(s.total_score_bits, None);

    let t = new_static_task(&s, 1, &question(), "[]".to_string(), "{}".to_string(), "{}".to_string(), "{}".to_string());
    assert_eq!(t.id.len(), 36);
    assert_ne!(t.id, s.id);
    assert_eq!(t.created_at, s.created_at);
    assert_eq!(t.sequence_no, 2);
    assert_eq!(t.session_id, s.id);
    assert_eq!(t.source, "builtin");
    assert_eq!(t.title, "A title");
    assert_eq!(t.visible_task, "Do it");
    assert_eq!(t.final_score_bits, None);
}

#[test]
fn start_answer_summarises_the_session() {
    let r = start_success(
        "id".to_string(),
        &request("static", None, "fun"),
        "prompt_only",
        3,
        model_snapshots(&profiles(true, false)),
        "now".to_string(),
    );
    assert_eq!(r.entry_mode, "static");
    assert!(r.initial_task_ready);
    assert_eq!(r.session.session_id, "id");
    assert_eq!(r.session.status, "running");
    assert_eq!(r.session.question_count, 3);
    assert_eq!(r.session.effective_round_count, 0);
    assert!(r.session.advanced_evaluation_context);
    assert_eq!(r.session.static_strategy.as_deref(), Some("prompt_only"));
    assert_eq!(r.session.created_at, "now");
}

#[test]
fn sessions_are_checked() {
    let e = check_session_for_next_task(&None).unwrap_err();
    assert_eq!(e.code, "SESSION_NOT_FOUND");
    assert_eq!(e.message, "会话不存在");
    assert_eq!(e.severity, Severity::Error);
    assert!(!e.recoverable);
    assert_eq!(e.action, Action::BackToHome);
    let e = check_session_for_next_task(&Some(session("completed", "static", 3))).unwrap_err();
    assert_eq!(e.code, "ASSESSMENT_NOT_ACTIVE");
    assert_eq!(e.message, "会话已结束或已放弃");
    assert_eq!(e.severity, Severity::Warning);
    let e = check_session_for_next_task(&Some(session("running", "dynamic", 3))).unwrap_err();
    assert_eq!(e.code, "SESSION_MODE_MISMATCH");
    assert_eq!(e.message, "当前会话不是静态测评");
    assert!(check_session_for_next_task(&Some(session("running", "static", 3))).is_ok());
    assert!(check_session_for_submission(&Some(session("running", "dynamic", 3))).is_ok());
    assert_eq!(check_session_for_submission(&Some(session("failed", "static", 3))).unwrap_err().code, "ASSESSMENT_NOT_ACTIVE");

    let e = session_or_not_found(None).unwrap_err();
    assert_eq!(e.code, "SESSION_NOT_FOUND");
    assert_eq!(e.severity, Severity::Warning);
    assert!(e.recoverable);
    assert_eq!(e.action, Action::NoAction);
    assert_eq!(session_or_not_found(Some(session("running", "static", 1))).unwrap().id, "s1");
}

#[test]
fn next_task_is_presented_with_progress() {
    let e = require_next_task(None).unwrap_err();
    assert_eq!(e.code, "QUESTION_NOT_FOUND");
    assert_eq!(e.message, "没有未提交的题目");
    assert_eq!(e.action, Action::ReloadCurrentPage);
    let t = require_next_task(Some(stored_task(None))).unwrap();
    let p = static_task_presentation(t, 5, 1);
    assert_eq!(p.state, "ready");
    let d = p.task.unwrap();
    assert_eq!(d.task_id, "t1");
    assert_eq!(d.sequence_no, 2);
    assert_eq!(d.title, "A title");
    assert_eq!(d.task, "Do it");
    assert_eq!(d.requirements, vec!["Be brief".to_string()]);
    assert_eq!(p.progress, TaskProgress { current_index: 2, total_count: 5, completed_count: 1, remaining_count: 4 });

    let mut unreadable = stored_task(None);
    unreadable.visible_requirements_json = "oops".to_string();
    assert!(static_task_presentation(unreadable, 1, 0).task.unwrap().requirements.is_empty());
}

#[test]
fn submissions_are_checked() {
    let e = check_task_for_submission(&None).unwrap_err();
    assert_eq!(e.code, "QUESTION_NOT_FOUND");
    assert_eq!(e.message, "题目不存在");
    let e = check_task_for_submission(&Some(stored_task(Some("done")))).unwrap_err();
    assert_eq!(e.code, "TASK_ALREADY_SUBMITTED");
    assert_eq!(e.message, "本题已提交过");
    assert_eq!(e.severity, Severity::Warning);
    assert!(check_task_for_submission(&Some(stored_task(None))).is_ok());

    let e = check_evaluator_for_submission(&profiles(false, false)).unwrap_err();
    assert_eq!(e.code, "CONFIG_MISSING_EVALUATOR");
    assert_eq!(e.message, "测评AI配置缺失，请在设置页配置");
    assert!(check_evaluator_for_submission(&profiles(true, false)).is_ok());

    let e = client_creation_error("API key is missing for profile");
    assert_eq!(e.code, "MODEL_AUTH_FAILED");
    assert_eq!(e.message, "无法创建AI客户端: API key is missing for profile");
    let e = runtime_creation_error("no threads");
    assert_eq!(e.code, "MODEL_REQUEST_FAILED");
    assert_eq!(e.message, "无法创建异步运行时: no threads");
}

#[test]
fn replies_and_verdicts_are_read() {
    let empty = ChatCompletionResponse { id: None, choices: vec![], usage: None };
    let e = evaluator_reply_content(&empty).unwrap_err();
    assert_eq!(e.code, "MODEL_EMPTY_RESPONSE");
    assert_eq!(e.message, "AI返回空响应");
    let reply = ChatCompletionResponse {
        id: None,
        choices: vec![Choice {
            message: ChatMessage { role: "assistant".to_string(), content: "{}".to_string() },
            finish_reason: Some("stop".to_string()),
            index: 0,
        }],
        usage: None,
    };
    assert_eq!(evaluator_reply_content(&reply).unwrap(), "{}");

    let e = read_verdict("nope").unwrap_err();
    assert_eq!(e.code, "MODEL_INVALID_JSON");
    assert!(e.message.starts_with("无法解析评分JSON: 无法解析测评AI返回的JSON: "));
    let v = read_verdict("{\"rubricScore\": 90, \"executionOutcomeScore\": null}").unwrap();
    let (prompt, execution) = verdict_scores(&v);
    assert_eq!(prompt.map(f64::from_bits), Some(90.0));
    assert_eq!(execution, None);
}

#[test]
fn submission_continues_until_all_answers_are_in() {
    let eval = parse_evaluation_response("{}").unwrap();
    let s = session("running", "static", 3);
    let r = submission_outcome(&s, "s1", "t1", &eval, Some(77.0f64.to_bits()), 1);
    assert_eq!(r.next_action, "continue");
    let scored = r.scored_task.unwrap();
    assert_eq!(scored.task_id, "t1");
    assert_eq!(f64::from_bits(scored.final_score_bits), 77.0);
    let p = r.progress.unwrap();
    assert_eq!(p, TaskProgress { current_index: 1, total_count: 3, completed_count: 1, remaining_count: 2 });
    assert_eq!(p.completed_count + p.remaining_count, p.total_count);
    assert!(r.final_report.is_none());
}

#[test]
fn last_submission_shows_the_report() {
    let eval = parse_evaluation_response(
        r#"{"coreScores": {"clarity_output": {"final": 1}, "structuring": {"final": 2},
            "context_constraints": {"final": 3}, "gap_risk": {"final": 4}, "iteration_acceptance": {"final": 5}},
            "strengths": ["s"], "issues": ["i"], "suggestions": ["g"], "summary": "sum",
            "confidence": {"level": "medium"}}"#,
    )
    .unwrap();
    let s = session("running", "static", 2);
    let r = submission_outcome(&s, "s1", "t2", &eval, None, 2);
    assert_eq!(r.next_action, "show_result");
    assert_eq!(r.scored_task.unwrap().final_score_bits, 0.0f64.to_bits());
    assert_eq!(r.progress.unwrap(), TaskProgress { current_index: 2, total_count: 2, completed_count: 2, remaining_count: 0 });
    let f = r.final_report.unwrap();
    assert_eq!(f.session_id, "s1");
    assert_eq!(f.scope, "fun");
    assert_eq!(f.static_strategy.as_deref(), Some("prompt_only"));
    assert_eq!(f.total_score_bits, 0.0f64.to_bits());
    assert_eq!(f64::from_bits(f.core_scores.iteration_acceptance_bits), 5.0);
    assert_eq!(f.strengths, vec!["s"]);
    assert_eq!(f.issues, vec!["i"]);
    assert_eq!(f.suggestions, vec!["g"]);
    assert_eq!(f.summary, "sum");
    assert_eq!(f.confidence.level, "medium");
    assert_eq!(f.confidence.note, "");
    assert_eq!(f.question_count, 2);
    assert_eq!(f.effective_round_count, 0);

    let bare = parse_evaluation_response("{}").unwrap();
    let f = submission_outcome(&s, "s1", "t2", &bare, None, 5).final_report.unwrap();
    assert_eq!(f.core_scores.clarity_output_bits, 0);
    assert_eq!(f.confidence.level, "low");
    assert!(f.strengths.is_empty());
}

#[test]
fn completion_stamps_only_completed_sessions() {
    let (completed_at, updated_at) = status_change_stamps("completed");
    assert!(chrono::DateTime::parse_from_rfc3339(&updated_at).is_ok());
    assert_eq!(completed_at, Some(updated_at));
    let (completed_at, updated_at) = status_change_stamps("failed");
    assert_eq!(completed_at, None);
    assert!(chrono::DateTime::parse_from_rfc3339(&updated_at).is_ok());
}

#[test]
fn submissions_are_refused_in_order() {
    let ready = profiles(true, false);
    let unready = profiles(false, false);
    let open = Some(session("running", "static", 3));
    let closed = Some(session("completed", "static", 3));
    let fresh = Some(stored_task(None));
    let answered = Some(stored_task(Some("done")));

    let e = check_submission(&None, &None, &unready).unwrap_err();
    assert_eq!(e.code, "SESSION_NOT_FOUND");
    let e = check_submission(&closed, &answered, &unready).unwrap_err();
    assert_eq!(e.code, "ASSESSMENT_NOT_ACTIVE");
    assert_eq!(e.action, Action::BackToHome);
    let e = check_submission(&open, &None, &unready).unwrap_err();
    assert_eq!(e.code, "QUESTION_NOT_FOUND");
    assert_eq!(e.message, "题目不存在");
    let e = check_submission(&open, &answered, &unready).unwrap_err();
    assert_eq!(e.code, "TASK_ALREADY_SUBMITTED");
    let e = check_submission(&open, &fresh, &unready).unwrap_err();
    assert_eq!(e.code, "CONFIG_MISSING_EVALUATOR");
    assert_eq!(e.message, "测评AI配置缺失，请在设置页配置");
    assert_eq!(e.action, Action::GoToSettings);
    assert!(check_submission(&open, &fresh, &ready).is_ok());
}
