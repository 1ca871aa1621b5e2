use prompt_iq::errors::{Action, Severity};
use prompt_iq::question_bank::{
    draw_questions, filter_questions, group_by_task_type, load_builtin_questions,
    load_questions_from_entries, question_bank_summary, select_static_questions, BankDirectory,
    DimensionFocus, HiddenReference, QuestionSchema, VersionInfo, VisiblePrompt,
};

fn question(
    id: &str,
    mode: &str,
    task_type: &str,
    scopes: &[&str],
    focus: [u32; 5],
    requirements: &[&str],
    signals: Option<&[&str]>,
) -> QuestionSchema {
    QuestionSchema {
        id: id.to_string(),
        source: "builtin".to_string(),
        assessment_mode: mode.to_string(),
        task_type: task_type.to_string(),
        scope_fit: scopes.iter().map(|s| s.to_string()).collect(),
        title: format!("Title {}", id),
        version_info: VersionInfo {
            question_schema_version: "1".to_string(),
            question_version: "1".to_string(),
            rubric_version: "rubric-v1".to_string(),
            generator_version: None,
        },
        visible_prompt: VisiblePrompt {
            task: format!("Task {}", id),
            requirements: requirements.iter().map(|s| s.to_string()).collect(),
        },
        hidden_reference: HiddenReference {
            dimension_focus: DimensionFocus {
                clarity_output: focus[0],
                structuring: focus[1],
                context_constraints: focus[2],
                gap_risk: focus[3],
                iteration_acceptance: focus[4],
            },
            ideal_elements: vec!["a".to_string()],
            completion_criteria: vec!["b".to_string()],
            notes_for_evaluator: "notes".to_string(),
            task_done_signals: signals.map(|s| s.iter().map(|x| x.to_string()).collect()),
        },
    }
}

const FOCUS: [u32; 5] = [30, 25, 20, 15, 10];

fn static_q(id: &str, task_type: &str, scopes: &[&str]) -> QuestionSchema {
    question(id, "static", task_type, scopes, FOCUS, &["r1"], None)
}

fn dynamic_q(id: &str, task_type: &str, scopes: &[&str]) -> QuestionSchema {
    question(id, "dynamic", task_type, scopes, FOCUS, &["r1"], Some(&["done"]))
}

fn ids(qs: &[QuestionSchema]) -> Vec<String> {
    qs.iter().map(|q| q.id.clone()).collect()
}

#[test]
fn validate_accepts_well_formed_questions() {
    assert_eq!(static_q("s1", "writing", &["fun"]).validate(), Ok(()));
    assert_eq!(dynamic_q("d1", "writing", &["fun"]).validate(), Ok(()));
    let other_mode = question("o", "hybrid", "x", &["fun"], FOCUS, &["r"], None);
    assert_eq!(other_mode.validate(), Ok(()));
}

#[test]
fn validate_reports_each_rule() {
    let bad_sum = question("a", "static", "x", &["fun"], [30, 25, 20, 15, 11], &["r"], None);
    assert_eq!(bad_sum.validate(), Err("Dimension focus sum must be 100, got 101".to_string()));
    let zero = question("a", "static", "x", &["fun"], [0, 0, 0, 0, 0], &["r"], None);
    assert_eq!(zero.validate(), Err("Dimension focus sum must be 100, got 0".to_string()));
    let no_reqs = question("b", "static", "x", &["fun"], FOCUS, &[], None);
    assert_eq!(no_reqs.validate(), Err("Visible prompt requirements cannot be empty".to_string()));
    let dyn_no_signals = question("c", "dynamic", "x", &["fun"], FOCUS, &["r"], None);
    assert_eq!(
        dyn_no_signals.validate(),
        Err("Dynamic questions must have task_done_signals".to_string())
    );
    let static_signals = question("d", "static", "x", &["fun"], FOCUS, &["r"], Some(&["s"]));
    assert_eq!(
        static_signals.validate(),
        Err("Static questions should not have task_done_signals".to_string())
    );
    // The sum is checked first.
    let both = question("e", "dynamic", "x", &["fun"], [50, 0, 0, 0, 0], &[], None);
    assert_eq!(both.validate(), Err("Dimension focus sum must be 100, got 50".to_string()));
}

#[test]
fn weights_that_overflow_are_detected() {
    assert!(static_q("s1", "writing", &["fun"]).focus_weights_fit());
    let at_limit = question("m", "static", "x", &["fun"], [u32::MAX, 0, 0, 0, 0], &["r"], None);
    assert!(at_limit.focus_weights_fit());
    assert_eq!(
        at_limit.validate(),
        Err(format!("Dimension focus sum must be 100, got {}", u32::MAX))
    );
    let over = question("o", "static", "x", &["fun"], [u32::MAX, 1, 0, 0, 0], &["r"], None);
    assert!(!over.focus_weights_fit());
}

#[test]
fn filter_keeps_mode_and_scope_in_order() {
    let bank = vec![
        static_q("s1", "writing", &["fun", "full"]),
        dynamic_q("d1", "writing", &["fun"]),
        static_q("s2", "daily_qa", &["full"]),
        static_q("s3", "daily_qa", &["fun"]),
    ];
    assert_eq!(ids(&filter_questions(&bank, "static", "fun")), vec!["s1", "s3"]);
    assert_eq!(ids(&filter_questions(&bank, "static", "full")), vec!["s1", "s2"]);
    assert_eq!(ids(&filter_questions(&bank, "dynamic", "fun")), vec!["d1"]);
    assert!(filter_questions(&bank, "dynamic", "full").is_empty());
    // Filtering again changes nothing.
    let once = filter_questions(&bank, "static", "fun");
    assert_eq!(ids(&filter_questions(&once, "static", "fun")), ids(&once));
}

#[test]
fn grouping_covers_every_question_once() {
    let bank = vec![
        static_q("s1", "writing", &["fun"]),
        static_q("s2", "daily_qa", &["fun"]),
        dynamic_q("d1", "writing", &["fun"]),
        static_q("s3", "coding", &["fun"]),
    ];
    let groups = group_by_task_type(&bank);
    let keys: Vec<&str> = groups.iter().map(|g| g.task_type.as_str()).collect();
    assert_eq!(keys, vec!["writing", "daily_qa", "coding"]);
    assert_eq!(ids(&groups[0].questions), vec!["s1", "d1"]);
    assert_eq!(ids(&groups[1].questions), vec!["s2"]);
    assert_eq!(ids(&groups[2].questions), vec!["s3"]);
    let total: usize = groups.iter().map(|g| g.questions.len()).sum();
    assert_eq!(total, bank.len());
    assert!(group_by_task_type(&[]).is_empty());
}

#[test]
fn summary_counts_modes_and_types() {
    let bank = vec![
        static_q("s1", "writing", &["fun"]),
        static_q("s2", "daily_qa", &["fun"]),
        dynamic_q("d1", "writing", &["fun"]),
        question("o", "other", "coding", &["fun"], FOCUS, &["r"], None),
    ];
    let summary = question_bank_summary(&bank);
    assert_eq!(summary.total_questions, 4);
    assert_eq!(summary.static_questions, 2);
    assert_eq!(summary.dynamic_questions, 1);
    let counts: Vec<(&str, u32)> =
        summary.by_task_type.iter().map(|c| (c.task_type.as_str(), c.count)).collect();
    assert_eq!(counts, vec![("writing", 2), ("daily_qa", 1), ("coding", 1)]);
    let sum: u32 = summary.by_task_type.iter().map(|c| c.count).sum();
    assert_eq!(sum, summary.total_questions);
}

#[test]
fn draw_takes_the_first_matching_questions() {
    let bank = vec![
        static_q("s1", "writing", &["fun"]),
        static_q("s2", "daily_qa", &["fun"]),
        static_q("s3", "writing", &["fun"]),
        dynamic_q("d1", "writing", &["fun"]),
    ];
    let drawn = draw_questions(&bank, "static", "fun", 2, &None).unwrap();
    assert_eq!(ids(&drawn), vec!["s1", "s2"]);
    let drawn = draw_questions(&bank, "static", "fun", 2, &Some("writing".to_string())).unwrap();
    assert_eq!(ids(&drawn), vec!["s1", "s3"]);
    let none = draw_questions(&bank, "static", "fun", 0, &None).unwrap();
    assert!(none.is_empty());
}

#[test]
fn draw_reports_insufficient_questions() {
    let bank = vec![static_q("s1", "writing", &["fun"]), static_q("s2", "writing", &["full"])];
    let err = draw_questions(&bank, "static", "fun", 3, &None).unwrap_err();
    assert_eq!(err.code, "INSUFFICIENT_QUESTIONS");
    assert_eq!(err.message, "符合条件的题目不足，需要 3 题，但只有 1 题");
    assert_eq!(err.severity, Severity::Warning);
    assert!(err.recoverable);
    assert_eq!(err.action, Action::NoAction);
    let err = draw_questions(&bank, "static", "fun", 1, &Some("coding".to_string())).unwrap_err();
    assert_eq!(err.message, "符合条件的题目不足，需要 1 题，但只有 0 题");
}

#[test]
fn static_selection_limits_by_scope() {
    let bank: Vec<QuestionSchema> =
        (0..7).map(|i| static_q(&format!("s{}", i), "writing", &["fun", "comprehensive"])).collect();
    assert_eq!(ids(&select_static_questions(&bank, "fun").unwrap()), vec!["s0", "s1", "s2"]);
    assert_eq!(
        ids(&select_static_questions(&bank, "comprehensive").unwrap()),
        vec!["s0", "s1", "s2", "s3", "s4"]
    );
    let small = vec![static_q("only", "writing", &["comprehensive"]), dynamic_q("d", "w", &["comprehensive"])];
    assert_eq!(ids(&select_static_questions(&small, "comprehensive").unwrap()), vec!["only"]);
    let err = select_static_questions(&small, "fun").unwrap_err();
    assert_eq!(err.code, "QUESTION_BANK_EMPTY");
    assert_eq!(err.message, "没有符合条件的题目");
    assert_eq!(err.severity, Severity::Warning);
    assert!(!err.recoverable);
    assert_eq!(err.action, Action::NoAction);
}

#[test]
fn entries_load_in_order_until_the_first_problem() {
    let mut questions = vec![static_q("existing", "w", &["fun"])];
    let entries = vec![Ok(static_q("a", "w", &["fun"])), Ok(dynamic_q("b", "w", &["fun"]))];
    assert_eq!(load_questions_from_entries(&mut questions, &entries), Ok(()));
    assert_eq!(ids(&questions), vec!["existing", "a", "b"]);

    let mut questions = Vec::new();
    let entries = vec![
        Ok(static_q("a", "w", &["fun"])),
        Ok(question("bad", "static", "w", &["fun"], FOCUS, &[], None)),
        Ok(static_q("c", "w", &["fun"])),
    ];
    assert_eq!(
        load_questions_from_entries(&mut questions, &entries),
        Err("Invalid question bad: Visible prompt requirements cannot be empty".to_string())
    );
    assert_eq!(ids(&questions), vec!["a"]);

    let mut questions = Vec::new();
    let entries = vec![Err("Failed to parse JSON from \"x.json\": boom".to_string()), Ok(static_q("c", "w", &["fun"]))];
    assert_eq!(
        load_questions_from_entries(&mut questions, &entries),
        Err("Failed to parse JSON from \"x.json\": boom".to_string())
    );
    assert!(questions.is_empty());
}

#[test]
fn bank_loads_static_then_dynamic() {
    let static_dir = BankDirectory::Files(vec![Ok(static_q("s", "w", &["fun"]))]);
    let dynamic_dir = BankDirectory::Files(vec![Ok(dynamic_q("d", "w", &["fun"]))]);
    let all = load_builtin_questions("\"/bank\"", true, &static_dir, &dynamic_dir).unwrap();
    assert_eq!(ids(&all), vec!["s", "d"]);

    let only_dynamic = load_builtin_questions("\"/bank\"", true, &BankDirectory::Absent, &dynamic_dir).unwrap();
    assert_eq!(ids(&only_dynamic), vec!["d"]);

    assert_eq!(
        load_builtin_questions("\"/bank\"", false, &static_dir, &dynamic_dir).unwrap_err(),
        "Question bank directory not found at \"/bank\""
    );
    let unreadable = BankDirectory::Unreadable("Failed to read directory \"/bank/static\": denied".to_string());
    assert_eq!(
        load_builtin_questions("\"/bank\"", true, &unreadable, &dynamic_dir).unwrap_err(),
        "Failed to read directory \"/bank/static\": denied"
    );
    let bad_dynamic = BankDirectory::Files(vec![Ok(question("x", "dynamic", "w", &["fun"], FOCUS, &["r"], None))]);
    assert_eq!(
        load_builtin_questions("\"/bank\"", true, &static_dir, &bad_dynamic).unwrap_err(),
        "Invalid question x: Dynamic questions must have task_done_signals"
    );
}

#[test]
fn duplicate_copies_every_field() {
    let q = dynamic_q("d", "writing", &["fun", "full"]);
    let c = q.duplicate();
    assert_eq!(format!("{:?}", q), format!("{:?}", c));
}
