use prompt_iq::db::AssessmentTask;
use prompt_iq::errors::{Action, Severity};
use prompt_iq::evaluation::{
    build_evaluator_prompt, classify_model_error, evaluation_summary, evaluator_messages,
    extract_confidence, extract_core_scores, final_score_inputs, parse_evaluation_response,
};
use prompt_iq::json::{extract_string_array, parse_string_list, JsonValue};

fn task(requirements_json: &str) -> AssessmentTask {
    AssessmentTask {
        id: "t1".to_string(),
        session_id: "s1".to_string(),
        sequence_no: 1,
        source: "builtin".to_string(),
        task_type: "writing".to_string(),
        title: "Title".to_string(),
        visible_task: "Write a short note.".to_string(),
        visible_requirements_json: requirements_json.to_string(),
        raw_question_json: "{}".to_string(),
        hidden_reference_json: "{\"ideal\":1}".to_string(),
        dimension_focus_json: "{}".to_string(),
        user_prompt: None,
        executor_output: None,
        prompt_score_bits: None,
        execution_score_bits: None,
        final_score_bits: None,
        created_at: "t".to_string(),
        completed_at: None,
    }
}

fn expected_prompt(task_type: &str, visible: &str, reqs: Option<&[&str]>, user: &str, hidden: &str, advanced: bool) -> String {
    let core_dimensions = r#"Core Dimensions:
1. clarity_output (weight 30): How clearly does the user specify the expected output?
2. structuring (weight 25): How well does the user structure vague requests?
3. context_constraints (weight 20): How sufficient are the context and constraints?
4. gap_risk (weight 15): How well does the user identify missing conditions?
5. iteration_acceptance (weight 10): How open is the user to iteration and feedback?"#;
    let mut prompt = format!(
        r#"[RUN META]
promptTemplateVersion=eval-static-prompt-only-v1
rubricVersion=rubric-v1
schemaVersion=static-eval-v1
responseLanguage=zh-CN

[ASSESSMENT META]
mode=static
staticStrategy=prompt_only
scope=comprehensive
questionSource=builtin
taskType={}
advancedEvaluationContext={}

[VISIBLE TASK]
{}
"#,
        task_type,
        if advanced { "true" } else { "false" },
        visible,
    );
    if let Some(reqs) = reqs {
        prompt.push_str("\nRequirements:\n");
        for r in reqs {
            prompt.push_str(&format!("- {}\n", r));
        }
    }
    prompt.push_str(&format!(
        r#"

[USER SUBMISSION]
{}

[CORE DIMENSIONS]
{}

"#,
        user, core_dimensions,
    ));
    if advanced {
        prompt.push_str("[DETAILED RUBRIC]\n");
        prompt.push_str("Scoring Guide:\n");
        prompt.push_str("- 90-100: Exceptional. Clear, complete, well-structured.\n");
        prompt.push_str("- 70-89: Good. Mostly clear with minor gaps.\n");
        prompt.push_str("- 50-69: Average. Some clarity but notable omissions.\n");
        prompt.push_str("- 30-49: Below average. Significant gaps or confusion.\n");
        prompt.push_str("- 0-29: Poor. Unclear, incomplete, or off-target.\n\n");
        prompt.push_str("[HIDDEN REFERENCE]\n");
        prompt.push_str(hidden);
        prompt.push('\n');
    }
    prompt.push_str(r#"
[OUTPUT CONTRACT]
Return JSON only.
Use schemaVersion=static-eval-v1.
Use promptTemplateVersion=eval-static-prompt-only-v1.
Set staticStrategy=prompt_only.
Set executionOutcomeScore=null.
Compute finalScore = round(rubricScore * 0.85 + holisticScore * 0.15).
For each core dimension, provide rubric, holistic, and final.
For each subdimension item, include id, name, score, reason, and evidence[].
Natural-language fields summary / strengths / issues / suggestions must use Simplified Chinese. If uncertain, use Simplified Chinese.
"#);
    prompt
}

#[test]
fn evaluator_prompt_plain() {
    let t = task("[\"Be brief\",\"Use bullet points\"]");
    let got = build_evaluator_prompt(&t, "Please write...", false);
    let want = expected_prompt("writing", "Write a short note.", Some(&["Be brief", "Use bullet points"]), "Please write...", "", false);
    assert_eq!(got, want);
}

#[test]
fn evaluator_prompt_advanced_and_unreadable_requirements() {
    let t = task("not json");
    let got = build_evaluator_prompt(&t, "我的提示词", true);
    let want = expected_prompt("writing", "Write a short note.", None, "我的提示词", "{\"ideal\":1}", true);
    assert_eq!(got, want);
    let t = task("[\"ok\", 3]");
    let got = build_evaluator_prompt(&t, "x", false);
    assert_eq!(got, expected_prompt("writing", "Write a short note.", None, "x", "", false));
    let t = task("[]");
    let got = build_evaluator_prompt(&t, "x", false);
    assert_eq!(got, expected_prompt("writing", "Write a short note.", Some(&[]), "x", "", false));
}

#[test]
fn evaluator_messages_are_system_then_user() {
    let m = evaluator_messages("P".to_string());
    assert_eq!(m.len(), 2);
    assert_eq!(m[0].role, "system");
    assert!(m[0].content.starts_with("You are the evaluator model inside Prompt IQ Test."));
    assert!(m[0].content.ends_with("Be strict, stable, and reproducible."));
    assert_eq!(m[1].role, "user");
    assert_eq!(m[1].content, "P");
}

#[test]
fn json_documents_are_read() {
    match parse_evaluation_response("{\"a\": [1, \"x\", null, true]}").unwrap() {
        JsonValue::Object(members) => {
            assert_eq!(members.len(), 1);
            assert_eq!(members[0].key, "a");
            match &members[0].value {
                JsonValue::Array(items) => {
                    assert_eq!(items.len(), 4);
                    match &items[0] {
                        JsonValue::Number(Some(bits)) => assert_eq!(f64::from_bits(*bits), 1.0),
                        other => panic!("unexpected {:?}", other),
                    }
                    assert!(matches!(&items[1], JsonValue::Text(s) if s == "x"));
                    assert!(matches!(&items[2], JsonValue::Null));
                    assert!(matches!(&items[3], JsonValue::Bool(true)));
                }
                other => panic!("unexpected {:?}", other),
            }
        }
        other => panic!("unexpected {:?}", other),
    }
    assert!(parse_evaluation_response("{").is_err());
    assert_eq!(parse_string_list("[\"a\",\"b\"]"), Some(vec!["a".to_string(), "b".to_string()]));
    assert_eq!(parse_string_list("[\"a\",1]"), None);
    assert_eq!(parse_string_list("{}"), None);
    assert_eq!(parse_string_list("[] x"), None);
}

#[test]
fn evaluation_reply_must_be_json() {
    let err = parse_evaluation_response("not json").unwrap_err();
    assert!(err.starts_with("无法解析测评AI返回的JSON: "));
    assert!(err.len() > "无法解析测评AI返回的JSON: ".len());
    assert!(parse_evaluation_response("{\"rubricScore\": 80}").is_ok());
}

#[test]
fn verdict_fields_are_extracted() {
    let eval = parse_evaluation_response(
        r#"{
            "rubricScore": 80, "holisticScore": 70.5,
            "coreScores": {
                "clarity_output": {"final": 81}, "structuring": {"final": 72},
                "context_constraints": {"final": 63}, "gap_risk": {"final": 54},
                "iteration_acceptance": {"final": 45.5}
            },
            "strengths": ["clear", 3, "structured"],
            "issues": "not a list",
            "summary": "总结",
            "confidence": {"level": "high", "note": "enough evidence"}
        }"#,
    )
    .unwrap();
    let (rubric, holistic) = final_score_inputs(&eval).unwrap();
    assert_eq!(f64::from_bits(rubric), 80.0);
    assert_eq!(f64::from_bits(holistic), 70.5);
    let core = extract_core_scores(&eval).unwrap();
    assert_eq!(f64::from_bits(core.clarity_output_bits), 81.0);
    assert_eq!(f64::from_bits(core.structuring_bits), 72.0);
    assert_eq!(f64::from_bits(core.context_constraints_bits), 63.0);
    assert_eq!(f64::from_bits(core.gap_risk_bits), 54.0);
    assert_eq!(f64::from_bits(core.iteration_acceptance_bits), 45.5);
    assert_eq!(extract_string_array(&eval, "strengths"), vec!["clear", "structured"]);
    assert!(extract_string_array(&eval, "issues").is_empty());
    assert!(extract_string_array(&eval, "missing").is_empty());
    assert_eq!(evaluation_summary(&eval), "总结");
    let c = extract_confidence(&eval);
    assert_eq!(c.level, "high");
    assert_eq!(c.note, "enough evidence");
}

#[test]
fn verdict_defaults_when_fields_are_missing() {
    let eval = parse_evaluation_response(r#"{"holisticScore": 1, "coreScores": {"clarity_output": {"final": 1}}, "confidence": {"level": 3}}"#).unwrap();
    assert_eq!(final_score_inputs(&eval), Err("缺少 rubricScore".to_string()));
    let eval2 = parse_evaluation_response(r#"{"rubricScore": 1}"#).unwrap();
    assert_eq!(final_score_inputs(&eval2), Err("缺少 holisticScore".to_string()));
    assert_eq!(extract_core_scores(&eval), None);
    let c = extract_confidence(&eval);
    assert_eq!(c.level, "low");
    assert_eq!(c.note, "");
    assert_eq!(evaluation_summary(&eval), "");
    let not_object = parse_evaluation_response("[1,2]").unwrap();
    assert_eq!(extract_core_scores(&not_object), None);
}

#[test]
fn model_errors_are_classified() {
    let e = classify_model_error("AI API error: HTTP 401 Unauthorized - nope");
    assert_eq!(e.code, "MODEL_AUTH_FAILED");
    assert_eq!(e.message, "API认证失败，请检查API Key");
    assert_eq!(e.severity, Severity::Error);
    assert!(e.recoverable);
    assert_eq!(e.action, Action::GoToSettings);
    let e = classify_model_error("operation timeout");
    assert_eq!(e.code, "MODEL_TIMEOUT");
    assert_eq!(e.message, "AI请求超时");
    assert_eq!(e.action, Action::RetrySameAction);
    let e = classify_model_error("AI API error: The model `x` does not exist");
    assert_eq!(e.code, "MODEL_NOT_FOUND");
    assert_eq!(e.message, "模型调用失败: AI API error: The model `x` does not exist");
    assert_eq!(e.action, Action::GoToSettings);
    let e = classify_model_error("Failed to send request to AI API");
    assert_eq!(e.code, "MODEL_REQUEST_FAILED");
    assert_eq!(e.message, "AI请求失败: Failed to send request to AI API");
    assert_eq!(e.action, Action::RetrySameAction);
    // Authorisation is checked before the model.
    assert_eq!(classify_model_error("Model 401").code, "MODEL_AUTH_FAILED");
}
