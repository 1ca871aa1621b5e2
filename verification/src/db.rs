//! The records the application stores in its database, and the time stamps a
//! status change writes. Reading and writing the database happen in the
//! application.
//!
//! Scores are carried as the IEEE-754 bit patterns of their `f64` values;
//! nothing here computes with them.

use vstd::prelude::*;
use vstd::string::*;

use crate::clock::now_rfc3339;
use crate::question_bank::opt_text;
use crate::text::text_eq;

verus! {

/// One assessment session.
#[derive(Debug)]
pub struct AssessmentSession {
    pub id: String,
    /// "fun" or "comprehensive".
    pub scope: String,
    /// "static" or "dynamic".
    pub interaction_mode: String,
    /// "builtin" or "ai_generated".
    pub question_source: String,
    /// "prompt_only" or "execute_then_evaluate".
    pub static_strategy: Option<String>,
    /// "fixed_rounds" or "manual_with_evaluator_suggestion".
    pub dynamic_end_strategy: Option<String>,
    pub fixed_round_limit: Option<i32>,
    pub task_type: Option<String>,
    pub generation_constraints: Option<String>,
    /// 0 or 1.
    pub advanced_eval_context: i32,
    pub executor_model_snapshot_json: Option<String>,
    pub evaluator_model_snapshot_json: String,
    pub generator_model_snapshot_json: Option<String>,
    /// Bit pattern of the `f64` total score.
    pub total_score_bits: Option<u64>,
    pub confidence_level: Option<String>,
    pub confidence_note: Option<String>,
    pub question_count: i32,
    pub effective_round_count: i32,
    /// "draft", "running", "completed", "failed" or "abandoned".
    pub status: String,
    pub rubric_version: String,
    pub prompt_bundle_version: String,
    pub question_bundle_version: Option<String>,
    pub created_at: String,
    pub completed_at: Option<String>,
    pub updated_at: String,
}

/// One question of a session, with the user's answer and its scores.
#[derive(Debug)]
pub struct AssessmentTask {
    pub id: String,
    pub session_id: String,
    pub sequence_no: i32,
    /// "builtin" or "ai_generated".
    pub source: String,
    pub task_type: String,
    pub title: String,
    pub visible_task: String,
    pub visible_requirements_json: String,
    pub raw_question_json: String,
    pub hidden_reference_json: String,
    pub dimension_focus_json: String,
    pub user_prompt: Option<String>,
    pub executor_output: Option<String>,
    /// Bit pattern of the `f64` prompt score.
    pub prompt_score_bits: Option<u64>,
    /// Bit pattern of the `f64` execution score.
    pub execution_score_bits: Option<u64>,
    /// Bit pattern of the `f64` final score.
    pub final_score_bits: Option<u64>,
    pub created_at: String,
    pub completed_at: Option<String>,
}

/// One stored chat message of a session.
#[derive(Debug)]
pub struct ChatMessage {
    pub id: String,
    pub session_id: String,
    pub task_id: Option<String>,
    pub round_no: i32,
    pub message_index: i32,
    /// "user", "assistant" or "system_internal".
    pub role: String,
    /// "user", "executor", "evaluator" or "app".
    pub actor_kind: String,
    pub content: String,
    pub model_name: Option<String>,
    pub created_at: String,
}

/// One evaluation snapshot of a session.
#[derive(Debug)]
pub struct EvaluationSnapshot {
    pub id: String,
    pub session_id: String,
    pub task_id: Option<String>,
    pub round_no: Option<i32>,
    /// "static_result", "dynamic_live" or "dynamic_final".
    pub snapshot_type: String,
    /// Bit pattern of the `f64` current total score.
    pub current_total_score_bits: u64,
    pub core_scores_json: String,
    pub short_comment: Option<String>,
    /// 0 or 1.
    pub suggest_finish: i32,
    pub trend: Option<String>,
    pub raw_json: String,
    pub created_at: String,
}

/// The final report of a session.
#[derive(Debug)]
pub struct FinalReport {
    pub session_id: String,
    /// Bit pattern of the `f64` total score.
    pub total_score_bits: u64,
    pub confidence_level: String,
    pub confidence_note: String,
    /// Bit pattern of the `f64` rubric score.
    pub rubric_score_bits: u64,
    /// Bit pattern of the `f64` holistic score.
    pub holistic_score_bits: u64,
    /// Bit pattern of the `f64` task-completion score.
    pub task_completion_score_bits: Option<u64>,
    pub core_scores_json: String,
    pub subdimension_scores_json: String,
    pub strengths_json: String,
    pub issues_json: String,
    pub suggestions_json: String,
    pub evidence_json: String,
    pub evaluator_summary: String,
    pub markdown_cache: Option<String>,
    pub raw_json: String,
    pub created_at: String,
}

/// One Markdown export of a session.
#[derive(Debug)]
pub struct MarkdownExport {
    pub id: String,
    pub session_id: String,
    pub export_path: String,
    /// "markdown".
    pub export_format: String,
    pub created_at: String,
}

/// The time stamps a status change to `status` writes, read from the clock
/// once: the session is updated at that time, and completed at that same
/// time only when the new status is "completed".
pub fn status_change_stamps(status: &str) -> (r: (Option<String>, String))
    ensures
        opt_text(r.0) == (if status@ == "completed"@ {
            Some(r.1@)
        } else {
            None
        }),
{
    let now = now_rfc3339();
    let completed_at = if text_eq(status, "completed") {
        Some(now.clone())
    } else {
        None
    };
    (completed_at, now)
}

} // verus!
