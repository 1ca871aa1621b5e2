//! The evaluator side of a static assessment: the prompt sent to the
//! evaluator model, and what is read back from its JSON verdict.
//!
//! Scores are carried as the IEEE-754 bit patterns of their `f64` values;
//! nothing here computes with them.

use vstd::prelude::*;
use vstd::string::*;

use crate::ai_client::{request_matches, AiClient, ChatCompletionRequest, ChatMessage};
use crate::db::AssessmentTask;
use crate::errors::{error_is, command_error, fixed_error, Action, CommandError, Severity};
use crate::json::{
    extract_string_array, field, json_field, number_field, number_of, parse_json,
    parse_string_list, string_list_of, text_field, text_of, JsonValue,
};
use crate::question_bank::opt_text;
use crate::text::{contains_text, lemma_run_in_middle, lemma_run_in_part, seq_contains_run};

verus! {

/// The final scores of the five core dimensions, as `f64` bit patterns.
#[derive(Debug, PartialEq, Eq, Structural)]
pub struct CoreScoresSummary {
    pub clarity_output_bits: u64,
    pub structuring_bits: u64,
    pub context_constraints_bits: u64,
    pub gap_risk_bits: u64,
    pub iteration_acceptance_bits: u64,
}

/// How sure the evaluator is of its verdict.
#[derive(Debug)]
pub struct ConfidenceSummary {
    pub level: String,
    pub note: String,
}

// ---------------------------------------------------------------------------
// The evaluator prompt
// ---------------------------------------------------------------------------

/// The "- item" lines of the visible requirements.
pub open spec fn requirement_lines(reqs: Seq<Seq<char>>) -> Seq<char>
    decreases reqs.len(),
{
    if reqs.len() == 0 {
        Seq::empty()
    } else {
        requirement_lines(reqs.drop_last()) + "- "@ + reqs.last() + "\n"@
    }
}

/// The opening meta block and the visible task.
pub open spec fn prompt_head(task_type: Seq<char>, visible_task: Seq<char>, advanced: bool) -> Seq<
    char,
> {
    "[RUN META]\npromptTemplateVersion=eval-static-prompt-only-v1\nrubricVersion=rubric-v1\nschemaVersion=static-eval-v1\nresponseLanguage=zh-CN\n\n[ASSESSMENT META]\nmode=static\nstaticStrategy=prompt_only\nscope=comprehensive\nquestionSource=builtin\ntaskType="@
        + task_type + "\nadvancedEvaluationContext="@ + (if advanced {
        "true"@
    } else {
        "false"@
    }) + "\n\n[VISIBLE TASK]\n"@ + visible_task + "\n"@
}

/// The requirements block, present when the stored requirements read as a
/// JSON list of strings.
pub open spec fn prompt_requirements(requirements_json: Seq<char>) -> Seq<char> {
    match string_list_of(requirements_json) {
        Some(reqs) => "\nRequirements:\n"@ + requirement_lines(reqs),
        None => Seq::empty(),
    }
}

/// The user's submission and the core dimensions.
pub open spec fn prompt_submission(user_prompt: Seq<char>) -> Seq<char> {
    "\n\n[USER SUBMISSION]\n"@ + user_prompt + "\n\n[CORE DIMENSIONS]\n"@
        + "Core Dimensions:\n1. clarity_output (weight 30): How clearly does the user specify the expected output?\n2. structuring (weight 25): How well does the user structure vague requests?\n3. context_constraints (weight 20): How sufficient are the context and constraints?\n4. gap_risk (weight 15): How well does the user identify missing conditions?\n5. iteration_acceptance (weight 10): How open is the user to iteration and feedback?"@
        + "\n\n"@
}

/// The detailed rubric and the hidden reference, sent only with the
/// advanced evaluation context.
pub open spec fn prompt_advanced(hidden_reference_json: Seq<char>, advanced: bool) -> Seq<char> {
    if advanced {
        "[DETAILED RUBRIC]\nScoring Guide:\n- 90-100: Exceptional. Clear, complete, well-structured.\n- 70-89: Good. Mostly clear with minor gaps.\n- 50-69: Average. Some clarity but notable omissions.\n- 30-49: Below average. Significant gaps or confusion.\n- 0-29: Poor. Unclear, incomplete, or off-target.\n\n"@
            + "[HIDDEN REFERENCE]\n"@ + hidden_reference_json + "\n"@
    } else {
        Seq::empty()
    }
}

/// The closing output contract.
pub open spec fn prompt_contract() -> Seq<char> {
    "\n[OUTPUT CONTRACT]\nReturn JSON only.\nUse schemaVersion=static-eval-v1.\nUse promptTemplateVersion=eval-static-prompt-only-v1.\nSet staticStrategy=prompt_only.\nSet executionOutcomeScore=null.\nCompute finalScore = round(rubricScore * 0.85 + holisticScore * 0.15).\nFor each core dimension, provide rubric, holistic, and final.\nFor each subdimension item, include id, name, score, reason, and evidence[].\nNatural-language fields summary / strengths / issues / suggestions must use Simplified Chinese. If uncertain, use Simplified Chinese.\n"@
}

/// The whole evaluator prompt for a task and a submission.
pub open spec fn evaluator_prompt_text(
    task_type: Seq<char>,
    visible_task: Seq<char>,
    requirements_json: Seq<char>,
    hidden_reference_json: Seq<char>,
    user_prompt: Seq<char>,
    advanced: bool,
) -> Seq<char> {
    prompt_head(task_type, visible_task, advanced) + prompt_requirements(requirements_json)
        + prompt_submission(user_prompt) + prompt_advanced(hidden_reference_json, advanced)
        + prompt_contract()
}

/// Each requirement has its own "- item" line among the requirement lines.
pub proof fn lemma_requirement_line_listed(reqs: Seq<Seq<char>>, i: int)
    requires
        0 <= i < reqs.len(),
    ensures
        seq_contains_run(requirement_lines(reqs), "- "@ + reqs[i] + "\n"@),
    decreases reqs.len(),
{
    let init = reqs.drop_last();
    let line = "- "@ + reqs[i] + "\n"@;
    let last_line = "- "@ + reqs.last() + "\n"@;
    assert(requirement_lines(reqs) =~= requirement_lines(init) + last_line + Seq::<char>::empty());
    if i == reqs.len() - 1 {
        lemma_run_in_middle(requirement_lines(init), last_line, Seq::<char>::empty());
    } else {
        assert(init[i] == reqs[i]);
        lemma_requirement_line_listed(init, i);
        assert(requirement_lines(reqs) =~= Seq::<char>::empty() + requirement_lines(init) + last_line);
        lemma_run_in_part(Seq::<char>::empty(), requirement_lines(init), last_line, line);
    }
}

/// Whatever the advanced flag, when the stored requirements read as a JSON
/// list of strings the evaluator prompt holds the "Requirements:" heading
/// and one "- item" line for every requirement.
pub proof fn lemma_prompt_lists_requirements(
    task_type: Seq<char>,
    visible_task: Seq<char>,
    requirements_json: Seq<char>,
    hidden_reference_json: Seq<char>,
    user_prompt: Seq<char>,
    advanced: bool,
    reqs: Seq<Seq<char>>,
)
    requires
        string_list_of(requirements_json) == Some(reqs),
    ensures
        seq_contains_run(
            evaluator_prompt_text(
                task_type,
                visible_task,
                requirements_json,
                hidden_reference_json,
                user_prompt,
                advanced,
            ),
            "\nRequirements:\n"@,
        ),
        forall|i: int|
            0 <= i < reqs.len() ==> seq_contains_run(
                evaluator_prompt_text(
                    task_type,
                    visible_task,
                    requirements_json,
                    hidden_reference_json,
                    user_prompt,
                    advanced,
                ),
                #[trigger] ("- "@ + reqs[i] + "\n"@),
            ),
{
    let head = prompt_head(task_type, visible_task, advanced);
    let block = prompt_requirements(requirements_json);
    let rest = prompt_submission(user_prompt) + prompt_advanced(hidden_reference_json, advanced)
        + prompt_contract();
    let whole = evaluator_prompt_text(
        task_type,
        visible_task,
        requirements_json,
        hidden_reference_json,
        user_prompt,
        advanced,
    );
    assert(whole =~= head + block + rest);
    assert(block =~= "\nRequirements:\n"@ + requirement_lines(reqs));
    lemma_run_in_middle(Seq::<char>::empty(), "\nRequirements:\n"@, requirement_lines(reqs));
    assert(Seq::<char>::empty() + "\nRequirements:\n"@ + requirement_lines(reqs) =~= block);
    lemma_run_in_part(head, block, rest, "\nRequirements:\n"@);
    assert forall|i: int| 0 <= i < reqs.len() implies seq_contains_run(
        whole,
        #[trigger] ("- "@ + reqs[i] + "\n"@),
    ) by {
        lemma_requirement_line_listed(reqs, i);
        lemma_run_in_part("\nRequirements:\n"@, requirement_lines(reqs), Seq::<char>::empty(), "- "@ + reqs[i] + "\n"@);
        assert("\nRequirements:\n"@ + requirement_lines(reqs) + Seq::<char>::empty() =~= block);
        lemma_run_in_part(head, block, rest, "- "@ + reqs[i] + "\n"@);
    }
}

/// The prompt that asks the evaluator model to score `user_prompt` as an
/// answer to `task`: meta block, visible task, its requirements (when they
/// read as a JSON list of strings), the submission, the core dimensions,
/// with the advanced context also the detailed rubric and hidden reference,
/// and the output contract.
pub fn build_evaluator_prompt(task: &AssessmentTask, user_prompt: &str, advanced_eval_context: bool) -> (r:
    String)
    ensures
        r@ == evaluator_prompt_text(
            task.task_type@,
            task.visible_task@,
            task.visible_requirements_json@,
            task.hidden_reference_json@,
            user_prompt@,
            advanced_eval_context,
        ),
        string_list_of(task.visible_requirements_json@) matches Some(reqs) ==> {
            &&& seq_contains_run(r@, "\nRequirements:\n"@)
            &&& forall|i: int|
                0 <= i < reqs.len() ==> seq_contains_run(r@, #[trigger] ("- "@ + reqs[i] + "\n"@))
        },
{
    let mut prompt = String::from_str(
        "[RUN META]\npromptTemplateVersion=eval-static-prompt-only-v1\nrubricVersion=rubric-v1\nschemaVersion=static-eval-v1\nresponseLanguage=zh-CN\n\n[ASSESSMENT META]\nmode=static\nstaticStrategy=prompt_only\nscope=comprehensive\nquestionSource=builtin\ntaskType=",
    );
    prompt.append(task.task_type.as_str());
    prompt.append("\nadvancedEvaluationContext=");
    if advanced_eval_context {
        prompt.append("true");
    } else {
        prompt.append("false");
    }
    prompt.append("\n\n[VISIBLE TASK]\n");
    prompt.append(task.visible_task.as_str());
    prompt.append("\n");
    let ghost head = prompt@;
    assert(head =~= prompt_head(task.task_type@, task.visible_task@, advanced_eval_context));
    match parse_string_list(task.visible_requirements_json.as_str()) {
        Some(reqs) => {
            prompt.append("\nRequirements:\n");
            let ghost opened = prompt@;
            let ghost items = reqs.deep_view();
            let mut i: usize = 0;
            assert(items.take(0) =~= Seq::<Seq<char>>::empty());
            while i < reqs.len()
                invariant
                    items == reqs.deep_view(),
                    i <= reqs@.len(),
                    prompt@ == opened + requirement_lines(items.take(i as int)),
                decreases reqs.len() - i,
            {
                let ghost before = prompt@;
                prompt.append("- ");
                prompt.append(reqs[i].as_str());
                prompt.append("\n");
                assert(items.take(i + 1).drop_last() =~= items.take(i as int));
                assert(items[i as int] == reqs@[i as int]@);
                assert(prompt@ =~= opened + requirement_lines(items.take(i + 1)));
                i = i + 1;
            }
            assert(items.take(reqs@.len() as int) =~= items);
            assert(prompt@ =~= head + prompt_requirements(task.visible_requirements_json@));
        },
        None => {
            assert(prompt@ =~= head + prompt_requirements(task.visible_requirements_json@));
        },
    }
    let ghost with_reqs = prompt@;
    prompt.append("\n\n[USER SUBMISSION]\n");
    prompt.append(user_prompt);
    prompt.append("\n\n[CORE DIMENSIONS]\n");
    prompt.append(
        "Core Dimensions:\n1. clarity_output (weight 30): How clearly does the user specify the expected output?\n2. structuring (weight 25): How well does the user structure vague requests?\n3. context_constraints (weight 20): How sufficient are the context and constraints?\n4. gap_risk (weight 15): How well does the user identify missing conditions?\n5. iteration_acceptance (weight 10): How open is the user to iteration and feedback?",
    );
    prompt.append("\n\n");
    assert(prompt@ =~= with_reqs + prompt_submission(user_prompt@));
    let ghost with_submission = prompt@;
    if advanced_eval_context {
        prompt.append(
            "[DETAILED RUBRIC]\nScoring Guide:\n- 90-100: Exceptional. Clear, complete, well-structured.\n- 70-89: Good. Mostly clear with minor gaps.\n- 50-69: Average. Some clarity but notable omissions.\n- 30-49: Below average. Significant gaps or confusion.\n- 0-29: Poor. Unclear, incomplete, or off-target.\n\n",
        );
        prompt.append("[HIDDEN REFERENCE]\n");
        prompt.append(task.hidden_reference_json.as_str());
        prompt.append("\n");
    }
    assert(prompt@ =~= with_submission + prompt_advanced(
        task.hidden_reference_json@,
        advanced_eval_context,
    ));
    let ghost with_advanced = prompt@;
    prompt.append(
        "\n[OUTPUT CONTRACT]\nReturn JSON only.\nUse schemaVersion=static-eval-v1.\nUse promptTemplateVersion=eval-static-prompt-only-v1.\nSet staticStrategy=prompt_only.\nSet executionOutcomeScore=null.\nCompute finalScore = round(rubricScore * 0.85 + holisticScore * 0.15).\nFor each core dimension, provide rubric, holistic, and final.\nFor each subdimension item, include id, name, score, reason, and evidence[].\nNatural-language fields summary / strengths / issues / suggestions must use Simplified Chinese. If uncertain, use Simplified Chinese.\n",
    );
    assert(prompt@ =~= with_advanced + prompt_contract());
    proof {
        if let Some(reqs) = string_list_of(task.visible_requirements_json@) {
            lemma_prompt_lists_requirements(
                task.task_type@,
                task.visible_task@,
                task.visible_requirements_json@,
                task.hidden_reference_json@,
                user_prompt@,
                advanced_eval_context,
                reqs,
            );
        }
    }
    prompt
}

/// The system and user messages sent to the evaluator model.
pub fn evaluator_messages(prompt: String) -> (r: Vec<ChatMessage>)
    ensures
        r@.len() == 2,
        r@[0].role@ == "system"@,
        r@[0].content@ == "You are the evaluator model inside Prompt IQ Test. Evaluate the human user's ability to drive LLM/Agent systems. Score only from provided evidence. Return only valid JSON. All scores must be integers from 0 to 100. Be strict, stable, and reproducible."@,
        r@[1].role@ == "user"@,
        r@[1].content == prompt,
{
    let mut r: Vec<ChatMessage> = Vec::new();
    r.push(
        ChatMessage {
            role: String::from_str("system"),
            content: String::from_str(
                "You are the evaluator model inside Prompt IQ Test. Evaluate the human user's ability to drive LLM/Agent systems. Score only from provided evidence. Return only valid JSON. All scores must be integers from 0 to 100. Be strict, stable, and reproducible.",
            ),
        },
    );
    r.push(ChatMessage { role: String::from_str("user"), content: prompt });
    r
}

/// Bit pattern of `0.2f32`, the evaluator's sampling temperature.
pub const EVALUATOR_TEMPERATURE_BITS: u32 = 0x3e4c_cccdu32;

/// The token limit of the evaluator's reply.
pub const EVALUATOR_MAX_TOKENS: u32 = 4096u32;

/// The request sent to the evaluator model: `messages` on the client's
/// model, asking for a JSON object, with temperature 0.2 for a stable verdict
/// and at most 4096 tokens.
pub fn evaluator_request(client: &AiClient, messages: Vec<ChatMessage>) -> (r: ChatCompletionRequest)
    ensures
        request_matches(
            r,
            *client,
            messages,
            Some(EVALUATOR_TEMPERATURE_BITS),
            Some(EVALUATOR_MAX_TOKENS),
            "json_object"@,
        ),
{
    client.chat_completion_json_request(
        messages,
        Some(EVALUATOR_TEMPERATURE_BITS),
        Some(EVALUATOR_MAX_TOKENS),
    )
}

// ---------------------------------------------------------------------------
// Reading the verdict
// ---------------------------------------------------------------------------

/// Reads the evaluator's reply as a JSON document; the error message names
/// the parser's complaint.
pub fn parse_evaluation_response(response_text: &str) -> (r: Result<JsonValue, String>)
    ensures
        match (r, crate::json::json_parse_result(response_text@)) {
            (Ok(v), Ok(w)) => v == w,
            (Err(e), Err(m)) => e@ == "无法解析测评AI返回的JSON: "@ + m,
            _ => false,
        },
{
    match parse_json(response_text) {
        Ok(v) => Ok(v),
        Err(e) => {
            let mut message = String::from_str("无法解析测评AI返回的JSON: ");
            message.append(e.as_str());
            Err(message)
        },
    }
}

/// The rubric and holistic scores of a verdict (as `f64` bit patterns), from
/// which the final score is computed; fails naming the first one missing.
pub fn final_score_inputs(eval: &JsonValue) -> (r: Result<(u64, u64), String>)
    ensures
        match (
            number_of(json_field(*eval, "rubricScore"@)),
            number_of(json_field(*eval, "holisticScore"@)),
        ) {
            (Some(rubric), Some(holistic)) => r == Ok::<(u64, u64), String>((rubric, holistic)),
            (None, _) => r matches Err(e) && e@ == "缺少 rubricScore"@,
            (Some(_), None) => r matches Err(e) && e@ == "缺少 holisticScore"@,
        },
{
    let rubric = match number_field(eval, "rubricScore") {
        Some(x) => x,
        None => {
            return Err(String::from_str("缺少 rubricScore"));
        },
    };
    let holistic = match number_field(eval, "holisticScore") {
        Some(x) => x,
        None => {
            return Err(String::from_str("缺少 holisticScore"));
        },
    };
    Ok((rubric, holistic))
}

/// The `final` score of dimension `dim` under the core scores `cs`.
pub open spec fn dimension_final(cs: JsonValue, dim: Seq<char>) -> Option<u64> {
    match json_field(cs, dim) {
        Some(d) => number_of(json_field(d, "final"@)),
        None => None,
    }
}

/// The five core dimension scores of a verdict, when all are present.
pub open spec fn core_scores_of(eval: JsonValue) -> Option<CoreScoresSummary> {
    match json_field(eval, "coreScores"@) {
        None => None,
        Some(cs) => match (
            dimension_final(cs, "clarity_output"@),
            dimension_final(cs, "structuring"@),
            dimension_final(cs, "context_constraints"@),
            dimension_final(cs, "gap_risk"@),
            dimension_final(cs, "iteration_acceptance"@),
        ) {
            (Some(a), Some(b), Some(c), Some(d), Some(e)) => Some(
                CoreScoresSummary {
                    clarity_output_bits: a,
                    structuring_bits: b,
                    context_constraints_bits: c,
                    gap_risk_bits: d,
                    iteration_acceptance_bits: e,
                },
            ),
            _ => None,
        },
    }
}

fn final_of(cs: &JsonValue, dim: &str) -> (r: Option<u64>)
    ensures
        r == dimension_final(*cs, dim@),
{
    match field(cs, dim) {
        Some(d) => number_field(d, "final"),
        None => None,
    }
}

/// The final score of each core dimension under `coreScores`, when all
/// five are present.
pub fn extract_core_scores(eval: &JsonValue) -> (r: Option<CoreScoresSummary>)
    ensures
        r == core_scores_of(*eval),
{
    let cs = match field(eval, "coreScores") {
        Some(cs) => cs,
        None => {
            return None;
        },
    };
    let a = match final_of(cs, "clarity_output") {
        Some(x) => x,
        None => {
            return None;
        },
    };
    let b = match final_of(cs, "structuring") {
        Some(x) => x,
        None => {
            return None;
        },
    };
    let c = match final_of(cs, "context_constraints") {
        Some(x) => x,
        None => {
            return None;
        },
    };
    let d = match final_of(cs, "gap_risk") {
        Some(x) => x,
        None => {
            return None;
        },
    };
    let e = match final_of(cs, "iteration_acceptance") {
        Some(x) => x,
        None => {
            return None;
        },
    };
    Some(
        CoreScoresSummary {
            clarity_output_bits: a,
            structuring_bits: b,
            context_constraints_bits: c,
            gap_risk_bits: d,
            iteration_acceptance_bits: e,
        },
    )
}

/// `confidence.<key>` of a verdict when it is a string.
pub open spec fn confidence_text(eval: JsonValue, key: Seq<char>) -> Option<Seq<char>> {
    match json_field(eval, "confidence"@) {
        Some(c) => text_of(json_field(c, key)),
        None => None,
    }
}

fn confidence_field(eval: &JsonValue, key: &str) -> (r: Option<String>)
    ensures
        opt_text(r) == confidence_text(*eval, key@),
{
    match field(eval, "confidence") {
        Some(c) => text_field(c, key),
        None => None,
    }
}

/// The evaluator's confidence: `confidence.level` (default "low") and
/// `confidence.note` (default empty).
pub fn extract_confidence(eval: &JsonValue) -> (r: ConfidenceSummary)
    ensures
        r.level@ == (match confidence_text(*eval, "level"@) {
            Some(l) => l,
            None => "low"@,
        }),
        r.note@ == (match confidence_text(*eval, "note"@) {
            Some(n) => n,
            None => Seq::<char>::empty(),
        }),
{
    let level = match confidence_field(eval, "level") {
        Some(l) => l,
        None => String::from_str("low"),
    };
    let note = match confidence_field(eval, "note") {
        Some(n) => n,
        None => String::new(),
    };
    ConfidenceSummary { level, note }
}

/// The verdict's `summary` text, empty when absent.
pub fn evaluation_summary(eval: &JsonValue) -> (r: String)
    ensures
        r@ == (match text_of(json_field(*eval, "summary"@)) {
            Some(s) => s,
            None => Seq::<char>::empty(),
        }),
{
    match text_field(eval, "summary") {
        Some(s) => s,
        None => String::new(),
    }
}

// ---------------------------------------------------------------------------
// Model failures
// ---------------------------------------------------------------------------

/// The error reported for a failed evaluator call whose error reads `m`:
/// an authorisation failure ("401" or "Unauthorized"), a time-out
/// ("timeout"), a model problem ("model" or "Model"), or else a generic
/// request failure, checked in that order.
pub open spec fn model_failure(e: CommandError, m: Seq<char>) -> bool {
    if seq_contains_run(m, "401"@) || seq_contains_run(m, "Unauthorized"@) {
        error_is(
            e,
            "MODEL_AUTH_FAILED"@,
            "API认证失败，请检查API Key"@,
            Severity::Error,
            true,
            Action::GoToSettings,
        )
    } else if seq_contains_run(m, "timeout"@) {
        error_is(e, "MODEL_TIMEOUT"@, "AI请求超时"@, Severity::Error, true, Action::RetrySameAction)
    } else if seq_contains_run(m, "model"@) || seq_contains_run(m, "Model"@) {
        error_is(
            e,
            "MODEL_NOT_FOUND"@,
            "模型调用失败: "@ + m,
            Severity::Error,
            true,
            Action::GoToSettings,
        )
    } else {
        error_is(
            e,
            "MODEL_REQUEST_FAILED"@,
            "AI请求失败: "@ + m,
            Severity::Error,
            true,
            Action::RetrySameAction,
        )
    }
}

/// Classifies a failed evaluator call by its error text (see
/// [`model_failure`]).
pub fn classify_model_error(message: &str) -> (e: CommandError)
    ensures
        model_failure(e, message@),
{
    if contains_text(message, "401") || contains_text(message, "Unauthorized") {
        fixed_error(
            "MODEL_AUTH_FAILED",
            "API认证失败，请检查API Key",
            Severity::Error,
            true,
            Action::GoToSettings,
        )
    } else if contains_text(message, "timeout") {
        fixed_error("MODEL_TIMEOUT", "AI请求超时", Severity::Error, true, Action::RetrySameAction)
    } else if contains_text(message, "model") || contains_text(message, "Model") {
        crate::errors::detailed_error(
            "MODEL_NOT_FOUND",
            "模型调用失败: ",
            message,
            Severity::Error,
            true,
            Action::GoToSettings,
        )
    } else {
        crate::errors::detailed_error(
            "MODEL_REQUEST_FAILED",
            "AI请求失败: ",
            message,
            Severity::Error,
            true,
            Action::RetrySameAction,
        )
    }
}

} // verus!
