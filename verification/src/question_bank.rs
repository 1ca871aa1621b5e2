//! The question bank: question records, their validity rules, and the
//! filtering, grouping and drawing of questions.

use vstd::prelude::*;
use vstd::string::*;

use crate::errors::{error_is, command_error, Action, CommandError, Severity};
use crate::text::{
    copy_opt_text, copy_texts, decimal, decimal_text, text_eq, vec_contains_text,
};

verus! {

/// How the evaluation weight of a question is spread over the five core
/// dimensions (percentages).
#[derive(Clone, Copy, Debug)]
pub struct DimensionFocus {
    pub clarity_output: u32,
    pub structuring: u32,
    pub context_constraints: u32,
    pub gap_risk: u32,
    pub iteration_acceptance: u32,
}

/// Version stamps of a question.
#[derive(Debug)]
pub struct VersionInfo {
    pub question_schema_version: String,
    pub question_version: String,
    pub rubric_version: String,
    pub generator_version: Option<String>,
}

/// What the user sees of a question.
#[derive(Debug)]
pub struct VisiblePrompt {
    pub task: String,
    pub requirements: Vec<String>,
}

/// What only the evaluator sees of a question.
#[derive(Debug)]
pub struct HiddenReference {
    pub dimension_focus: DimensionFocus,
    pub ideal_elements: Vec<String>,
    pub completion_criteria: Vec<String>,
    pub notes_for_evaluator: String,
    pub task_done_signals: Option<Vec<String>>,
}

/// One question of the bank.
#[derive(Debug)]
pub struct QuestionSchema {
    /// Stable identifier.
    pub id: String,
    /// "builtin" or "ai_generated".
    pub source: String,
    /// "static" or "dynamic".
    pub assessment_mode: String,
    /// "daily_qa", "writing", and so on.
    pub task_type: String,
    /// The scopes ("fun", "full", ...) the question is meant for.
    pub scope_fit: Vec<String>,
    pub title: String,
    pub version_info: VersionInfo,
    pub visible_prompt: VisiblePrompt,
    pub hidden_reference: HiddenReference,
}

/// The questions of one task type, in bank order.
#[derive(Debug)]
pub struct TaskTypeGroup {
    pub task_type: String,
    pub questions: Vec<QuestionSchema>,
}

/// The number of questions of one task type.
#[derive(Debug)]
pub struct TaskTypeCount {
    pub task_type: String,
    pub count: u32,
}

/// Counts over a loaded question bank.
#[derive(Debug)]
pub struct QuestionBankSummary {
    pub total_questions: u32,
    pub static_questions: u32,
    pub dynamic_questions: u32,
    /// One entry per task type, in order of first appearance.
    pub by_task_type: Vec<TaskTypeCount>,
}

// ---------------------------------------------------------------------------
// Models
// ---------------------------------------------------------------------------

/// The content of a [`VersionInfo`].
pub struct VersionModel {
    pub question_schema_version: Seq<char>,
    pub question_version: Seq<char>,
    pub rubric_version: Seq<char>,
    pub generator_version: Option<Seq<char>>,
}

/// The content of a [`VisiblePrompt`].
pub struct VisibleModel {
    pub task: Seq<char>,
    pub requirements: Seq<Seq<char>>,
}

/// The content of a [`HiddenReference`].
pub struct HiddenModel {
    pub dimension_focus: DimensionFocus,
    pub ideal_elements: Seq<Seq<char>>,
    pub completion_criteria: Seq<Seq<char>>,
    pub notes_for_evaluator: Seq<char>,
    pub task_done_signals: Option<Seq<Seq<char>>>,
}

/// The content of a [`QuestionSchema`].
pub struct QuestionModel {
    pub id: Seq<char>,
    pub source: Seq<char>,
    pub assessment_mode: Seq<char>,
    pub task_type: Seq<char>,
    pub scope_fit: Seq<Seq<char>>,
    pub title: Seq<char>,
    pub version_info: VersionModel,
    pub visible_prompt: VisibleModel,
    pub hidden_reference: HiddenModel,
}

/// The content of an optional string.
pub open spec fn opt_text(o: Option<String>) -> Option<Seq<char>> {
    match o {
        Some(s) => Some(s@),
        None => None,
    }
}

/// The content of an optional list of strings.
pub open spec fn opt_texts(o: Option<Vec<String>>) -> Option<Seq<Seq<char>>> {
    match o {
        Some(v) => Some(v.deep_view()),
        None => None,
    }
}

impl View for VersionInfo {
    type V = VersionModel;

    open spec fn view(&self) -> VersionModel {
        VersionModel {
            question_schema_version: self.question_schema_version@,
            question_version: self.question_version@,
            rubric_version: self.rubric_version@,
            generator_version: opt_text(self.generator_version),
        }
    }
}

impl View for VisiblePrompt {
    type V = VisibleModel;

    open spec fn view(&self) -> VisibleModel {
        VisibleModel { task: self.task@, requirements: self.requirements.deep_view() }
    }
}

impl View for HiddenReference {
    type V = HiddenModel;

    open spec fn view(&self) -> HiddenModel {
        HiddenModel {
            dimension_focus: self.dimension_focus,
            ideal_elements: self.ideal_elements.deep_view(),
            completion_criteria: self.completion_criteria.deep_view(),
            notes_for_evaluator: self.notes_for_evaluator@,
            task_done_signals: opt_texts(self.task_done_signals),
        }
    }
}

impl View for QuestionSchema {
    type V = QuestionModel;

    open spec fn view(&self) -> QuestionModel {
        QuestionModel {
            id: self.id@,
            source: self.source@,
            assessment_mode: self.assessment_mode@,
            task_type: self.task_type@,
            scope_fit: self.scope_fit.deep_view(),
            title: self.title@,
            version_info: self.version_info@,
            visible_prompt: self.visible_prompt@,
            hidden_reference: self.hidden_reference@,
        }
    }
}

impl DeepView for QuestionSchema {
    type V = QuestionModel;

    open spec fn deep_view(&self) -> QuestionModel {
        self@
    }
}

// ---------------------------------------------------------------------------
// Specifications
// ---------------------------------------------------------------------------

/// The sum of the five dimension weights.
pub open spec fn focus_sum(f: DimensionFocus) -> int {
    f.clarity_output + f.structuring + f.context_constraints + f.gap_risk + f.iteration_acceptance
}

/// The five weights can be added in `u32` without overflow.
pub open spec fn focus_sum_fits(q: QuestionModel) -> bool {
    focus_sum(q.hidden_reference.dimension_focus) <= u32::MAX
}

/// The first rule a question breaks, as the message that reports it; `None`
/// when the question is valid.
pub open spec fn validation_error(q: QuestionModel) -> Option<Seq<char>> {
    let sum = focus_sum(q.hidden_reference.dimension_focus);
    if sum != 100 {
        Some("Dimension focus sum must be 100, got "@ + decimal_text(sum as nat))
    } else if q.visible_prompt.requirements.len() == 0 {
        Some("Visible prompt requirements cannot be empty"@)
    } else if q.assessment_mode == "dynamic"@ && q.hidden_reference.task_done_signals is None {
        Some("Dynamic questions must have task_done_signals"@)
    } else if q.assessment_mode == "static"@ && q.hidden_reference.task_done_signals is Some {
        Some("Static questions should not have task_done_signals"@)
    } else {
        None
    }
}

/// The question has assessment mode `mode` and is meant for `scope`.
pub open spec fn in_mode_and_scope(q: QuestionModel, mode: Seq<char>, scope: Seq<char>) -> bool {
    q.assessment_mode == mode && q.scope_fit.contains(scope)
}

/// The questions of `qs` in mode `mode` and meant for `scope`, in order.
pub open spec fn mode_scope_filter(qs: Seq<QuestionModel>, mode: Seq<char>, scope: Seq<char>) -> Seq<
    QuestionModel,
>
    decreases qs.len(),
{
    if qs.len() == 0 {
        Seq::empty()
    } else {
        let rest = mode_scope_filter(qs.drop_last(), mode, scope);
        if in_mode_and_scope(qs.last(), mode, scope) {
            rest.push(qs.last())
        } else {
            rest
        }
    }
}

/// The questions of `qs` with task type `task_type`, in order.
pub open spec fn of_task_type(qs: Seq<QuestionModel>, task_type: Seq<char>) -> Seq<
    QuestionModel,
>
    decreases qs.len(),
{
    if qs.len() == 0 {
        Seq::empty()
    } else {
        let rest = of_task_type(qs.drop_last(), task_type);
        if qs.last().task_type == task_type {
            rest.push(qs.last())
        } else {
            rest
        }
    }
}

/// The number of questions of `qs` in mode `mode`.
pub open spec fn mode_count(qs: Seq<QuestionModel>, mode: Seq<char>) -> nat
    decreases qs.len(),
{
    if qs.len() == 0 {
        0
    } else {
        mode_count(qs.drop_last(), mode) + if qs.last().assessment_mode == mode {
            1nat
        } else {
            0nat
        }
    }
}

/// The task types of `qs`, each once, in order of first appearance.
pub open spec fn distinct_task_types(qs: Seq<QuestionModel>) -> Seq<Seq<char>>
    decreases qs.len(),
{
    if qs.len() == 0 {
        Seq::empty()
    } else {
        let d = distinct_task_types(qs.drop_last());
        if d.contains(qs.last().task_type) {
            d
        } else {
            d.push(qs.last().task_type)
        }
    }
}

/// `groups` holds, for each task type of `qs` in order of first appearance,
/// exactly the questions of that type in bank order.
pub open spec fn groups_of(groups: Seq<TaskTypeGroup>, qs: Seq<QuestionModel>) -> bool {
    let keys = distinct_task_types(qs);
    &&& groups.len() == keys.len()
    &&& forall|i: int|
        0 <= i < groups.len() ==> {
            &&& (#[trigger] groups[i]).task_type@ == keys[i]
            &&& groups[i].questions.deep_view() == of_task_type(qs, keys[i])
        }
}

// ---------------------------------------------------------------------------
// Copies
// ---------------------------------------------------------------------------

fn copy_opt_texts(v: &Option<Vec<String>>) -> (r: Option<Vec<String>>)
    ensures
        opt_texts(r) == opt_texts(*v),
{
    match v {
        Some(items) => Some(copy_texts(items)),
        None => None,
    }
}

impl VersionInfo {
    /// A field-by-field copy.
    pub fn duplicate(&self) -> (r: Self)
        ensures
            r@ == self@,
    {
        VersionInfo {
            question_schema_version: self.question_schema_version.clone(),
            question_version: self.question_version.clone(),
            rubric_version: self.rubric_version.clone(),
            generator_version: copy_opt_text(&self.generator_version),
        }
    }
}

impl VisiblePrompt {
    /// A field-by-field copy.
    pub fn duplicate(&self) -> (r: Self)
        ensures
            r@ == self@,
    {
        VisiblePrompt { task: self.task.clone(), requirements: copy_texts(&self.requirements) }
    }
}

impl HiddenReference {
    /// A field-by-field copy.
    pub fn duplicate(&self) -> (r: Self)
        ensures
            r@ == self@,
    {
        HiddenReference {
            dimension_focus: self.dimension_focus,
            ideal_elements: copy_texts(&self.ideal_elements),
            completion_criteria: copy_texts(&self.completion_criteria),
            notes_for_evaluator: self.notes_for_evaluator.clone(),
            task_done_signals: copy_opt_texts(&self.task_done_signals),
        }
    }
}

impl QuestionSchema {
    /// A field-by-field copy.
    pub fn duplicate(&self) -> (r: Self)
        ensures
            r@ == self@,
    {
        QuestionSchema {
            id: self.id.clone(),
            source: self.source.clone(),
            assessment_mode: self.assessment_mode.clone(),
            task_type: self.task_type.clone(),
            scope_fit: copy_texts(&self.scope_fit),
            title: self.title.clone(),
            version_info: self.version_info.duplicate(),
            visible_prompt: self.visible_prompt.duplicate(),
            hidden_reference: self.hidden_reference.duplicate(),
        }
    }

    /// Whether the five dimension weights can be added in `u32`, as
    /// [`QuestionSchema::validate`] adds them.
    pub fn focus_weights_fit(&self) -> (r: bool)
        ensures
            r == focus_sum_fits(self@),
    {
        let f = self.hidden_reference.dimension_focus;
        let sum: u64 = f.clarity_output as u64 + f.structuring as u64 + f.context_constraints as u64
            + f.gap_risk as u64 + f.iteration_acceptance as u64;
        sum <= 0xffff_ffffu64
    }

    /// Checks the question against the bank's rules, in this order: the five
    /// dimension weights add up to 100; there is at least one visible
    /// requirement; a dynamic question has task-done signals; a static one
    /// has none. The first broken rule is reported.
    pub fn validate(&self) -> (r: Result<(), String>)
        requires
            focus_sum_fits(self@),
        ensures
            r is Ok <==> validation_error(self@) is None,
            r matches Err(e) ==> validation_error(self@) == Some(e@),
    {
        let f = self.hidden_reference.dimension_focus;
        let sum: u32 = f.clarity_output + f.structuring + f.context_constraints + f.gap_risk
            + f.iteration_acceptance;
        if sum != 100 {
            let mut message = String::from_str("Dimension focus sum must be 100, got ");
            let digits = decimal(sum as u64);
            message.append(digits.as_str());
            return Err(message);
        }
        if self.visible_prompt.requirements.len() == 0 {
            return Err(String::from_str("Visible prompt requirements cannot be empty"));
        }
        let is_dynamic = text_eq(self.assessment_mode.as_str(), "dynamic");
        let is_static = text_eq(self.assessment_mode.as_str(), "static");
        if is_dynamic && self.hidden_reference.task_done_signals.is_none() {
            return Err(String::from_str("Dynamic questions must have task_done_signals"));
        }
        if is_static && self.hidden_reference.task_done_signals.is_some() {
            return Err(String::from_str("Static questions should not have task_done_signals"));
        }
        Ok(())
    }
}

// ---------------------------------------------------------------------------
// Filtering and grouping
// ---------------------------------------------------------------------------

/// The questions in `assessment_mode` that are meant for `scope`, in bank order.
pub fn filter_questions(questions: &[QuestionSchema], assessment_mode: &str, scope: &str) -> (r:
    Vec<QuestionSchema>)
    ensures
        r.deep_view() == mode_scope_filter(questions.deep_view(), assessment_mode@, scope@),
{
    let ghost all = questions.deep_view();
    let mut r: Vec<QuestionSchema> = Vec::new();
    let mut i: usize = 0;
    while i < questions.len()
        invariant
            all == questions.deep_view(),
            i <= questions@.len(),
            r.deep_view() == mode_scope_filter(all.subrange(0, i as int), assessment_mode@, scope@),
        decreases questions.len() - i,
    {
        let q = &questions[i];
        assert(all[i as int] == q@);
        let wanted = text_eq(q.assessment_mode.as_str(), assessment_mode) && vec_contains_text(
            &q.scope_fit,
            scope,
        );
        let ghost before = r.deep_view();
        if wanted {
            r.push(q.duplicate());
            assert(r.deep_view() =~= before.push(q@));
        }
        assert(all.subrange(0, i + 1).drop_last() =~= all.subrange(0, i as int));
        i = i + 1;
    }
    assert(all.subrange(0, all.len() as int) =~= all);
    r
}

/// The questions of one task type, in bank order.
pub fn questions_of_type(questions: &[QuestionSchema], task_type: &str) -> (r: Vec<QuestionSchema>)
    ensures
        r.deep_view() == of_task_type(questions.deep_view(), task_type@),
{
    let ghost all = questions.deep_view();
    let mut r: Vec<QuestionSchema> = Vec::new();
    let mut i: usize = 0;
    while i < questions.len()
        invariant
            all == questions.deep_view(),
            i <= questions@.len(),
            r.deep_view() == of_task_type(all.subrange(0, i as int), task_type@),
        decreases questions.len() - i,
    {
        let q = &questions[i];
        assert(all[i as int] == q@);
        let ghost before = r.deep_view();
        if text_eq(q.task_type.as_str(), task_type) {
            r.push(q.duplicate());
            assert(r.deep_view() =~= before.push(q@));
        }
        assert(all.subrange(0, i + 1).drop_last() =~= all.subrange(0, i as int));
        i = i + 1;
    }
    assert(all.subrange(0, all.len() as int) =~= all);
    r
}

/// The task types of the questions, each once, in order of first appearance.
pub fn task_types_in_order(questions: &[QuestionSchema]) -> (r: Vec<String>)
    ensures
        r.deep_view() == distinct_task_types(questions.deep_view()),
{
    let ghost all = questions.deep_view();
    let mut keys: Vec<String> = Vec::new();
    let mut i: usize = 0;
    while i < questions.len()
        invariant
            all == questions.deep_view(),
            i <= questions@.len(),
            keys.deep_view() == distinct_task_types(all.subrange(0, i as int)),
        decreases questions.len() - i,
    {
        let q = &questions[i];
        assert(all[i as int] == q@);
        let known = vec_contains_text(&keys, q.task_type.as_str());
        assert(all.subrange(0, i + 1).drop_last() =~= all.subrange(0, i as int));
        let ghost before = keys.deep_view();
        if !known {
            keys.push(q.task_type.clone());
            assert(keys.deep_view() =~= before.push(q.task_type@));
        }
        i = i + 1;
    }
    assert(all.subrange(0, all.len() as int) =~= all);
    keys
}

/// The questions grouped by task type: one group per task type in order of
/// first appearance, each holding that type's questions in bank order.
pub fn group_by_task_type(questions: &[QuestionSchema]) -> (r: Vec<TaskTypeGroup>)
    ensures
        groups_of(r@, questions.deep_view()),
{
    let keys = task_types_in_order(questions);
    let ghost want = distinct_task_types(questions.deep_view());
    let mut r: Vec<TaskTypeGroup> = Vec::new();
    let mut k: usize = 0;
    while k < keys.len()
        invariant
            k <= keys@.len(),
            keys.deep_view() == want,
            want == distinct_task_types(questions.deep_view()),
            r@.len() == k,
            forall|j: int|
                0 <= j < k ==> {
                    &&& (#[trigger] r@[j]).task_type@ == want[j]
                    &&& r@[j].questions.deep_view() == of_task_type(
                        questions.deep_view(),
                        want[j],
                    )
                },
        decreases keys.len() - k,
    {
        assert(keys.deep_view()[k as int] == keys@[k as int]@);
        let members = questions_of_type(questions, keys[k].as_str());
        r.push(TaskTypeGroup { task_type: keys[k].clone(), questions: members });
        k = k + 1;
    }
    r
}

// ---------------------------------------------------------------------------
// Loading
// ---------------------------------------------------------------------------

/// What was found in one directory of the bank: nothing, a directory that
/// could not be listed (with the message reporting it), or one entry per JSON
/// file, in listing order: the parsed question or the message reporting why
/// the file could not be read or parsed.
#[derive(Debug)]
pub enum BankDirectory {
    Absent,
    Unreadable(String),
    Files(Vec<Result<QuestionSchema, String>>),
}

/// Every parsed question of `entries` that loading reaches (no entry before
/// it was refused) has weights that add up in `u32`.
pub open spec fn entries_fit(entries: Seq<Result<QuestionSchema, String>>) -> bool {
    forall|i: int|
        0 <= i < entries.len() && load_error(entries.take(i)) is None ==> (#[trigger] entries[i] matches Ok(
            q,
        ) ==> focus_sum_fits(q@))
}

/// The directory's entries, if any, fit.
pub open spec fn directory_fits(d: BankDirectory) -> bool {
    d matches BankDirectory::Files(entries) ==> entries_fit(entries@)
}

/// Why one entry is refused, if it is.
pub open spec fn entry_error(entry: Result<QuestionSchema, String>) -> Option<Seq<char>> {
    match entry {
        Err(e) => Some(e@),
        Ok(q) => match validation_error(q@) {
            Some(m) => Some("Invalid question "@ + q.id@ + ": "@ + m),
            None => None,
        },
    }
}

/// The first refusal among `entries`, if any.
pub open spec fn load_error(entries: Seq<Result<QuestionSchema, String>>) -> Option<Seq<char>>
    decreases entries.len(),
{
    if entries.len() == 0 {
        None
    } else {
        match load_error(entries.drop_last()) {
            Some(e) => Some(e),
            None => entry_error(entries.last()),
        }
    }
}

/// The questions accepted from `entries` before the first refusal.
pub open spec fn accepted(entries: Seq<Result<QuestionSchema, String>>) -> Seq<QuestionModel>
    decreases entries.len(),
{
    if entries.len() == 0 {
        Seq::empty()
    } else {
        let before = accepted(entries.drop_last());
        if load_error(entries.drop_last()) is Some {
            before
        } else {
            match entries.last() {
                Ok(q) => if validation_error(q@) is None {
                    before.push(q@)
                } else {
                    before
                },
                Err(_) => before,
            }
        }
    }
}

/// The outcome of loading one directory after `done` was loaded.
pub open spec fn directory_outcome(done: Seq<QuestionModel>, d: BankDirectory) -> Result<
    Seq<QuestionModel>,
    Seq<char>,
> {
    match d {
        BankDirectory::Absent => Ok(done),
        BankDirectory::Unreadable(e) => Err(e@),
        BankDirectory::Files(entries) => match load_error(entries@) {
            Some(e) => Err(e),
            None => Ok(done + accepted(entries@)),
        },
    }
}

/// The outcome of loading the whole bank: the static directory, then the
/// dynamic one.
pub open spec fn bank_outcome(
    bank_root: Seq<char>,
    bank_exists: bool,
    static_dir: BankDirectory,
    dynamic_dir: BankDirectory,
) -> Result<Seq<QuestionModel>, Seq<char>> {
    if !bank_exists {
        Err("Question bank directory not found at "@ + bank_root)
    } else {
        match directory_outcome(Seq::empty(), static_dir) {
            Err(e) => Err(e),
            Ok(done) => directory_outcome(done, dynamic_dir),
        }
    }
}

/// Once a refusal is found, later entries change neither the refusal nor
/// the accepted questions.
pub proof fn lemma_load_stops_at_error(entries: Seq<Result<QuestionSchema, String>>, k: int)
    requires
        0 <= k <= entries.len(),
        load_error(entries.subrange(0, k)) is Some,
    ensures
        load_error(entries) == load_error(entries.subrange(0, k)),
        accepted(entries) == accepted(entries.subrange(0, k)),
    decreases entries.len() - k,
{
    if k < entries.len() {
        assert(entries.drop_last().subrange(0, k) =~= entries.subrange(0, k));
        lemma_load_stops_at_error(entries.drop_last(), k);
    } else {
        assert(entries.subrange(0, k) =~= entries);
    }
}

/// Appends to `questions` the questions of `entries` in order, checking each
/// with [`QuestionSchema::validate`]; stops at the first entry that could not
/// be read or parsed, or that is invalid, and reports it.
pub fn load_questions_from_entries(
    questions: &mut Vec<QuestionSchema>,
    entries: &Vec<Result<QuestionSchema, String>>,
) -> (r: Result<(), String>)
    requires
        entries_fit(entries@),
    ensures
        final(questions).deep_view() == old(questions).deep_view() + accepted(entries@),
        r is Ok <==> load_error(entries@) is None,
        r matches Err(e) ==> load_error(entries@) == Some(e@),
{
    let ghost start = questions.deep_view();
    let mut i: usize = 0;
    while i < entries.len()
        invariant
            i <= entries@.len(),
            entries_fit(entries@),
            start == old(questions).deep_view(),
            load_error(entries@.subrange(0, i as int)) is None,
            questions.deep_view() == start + accepted(entries@.subrange(0, i as int)),
        decreases entries.len() - i,
    {
        let ghost prefix = entries@.subrange(0, i as int);
        assert(entries@.subrange(0, i + 1).drop_last() =~= prefix);
        assert(entries@.subrange(0, i + 1).last() == entries@[i as int]);
        match &entries[i] {
            Err(e) => {
                proof {
                    assert(accepted(entries@.subrange(0, i + 1)) == accepted(prefix));
                    lemma_load_stops_at_error(entries@, i + 1);
                }
                return Err(e.clone());
            },
            Ok(q) => {
                assert(entries@[i as int] matches Ok(x) && x == q);
                match q.validate() {
                    Err(e) => {
                        let mut message = String::from_str("Invalid question ");
                        message.append(q.id.as_str());
                        message.append(": ");
                        message.append(e.as_str());
                        proof {
                            assert(accepted(entries@.subrange(0, i + 1)) == accepted(prefix));
                            lemma_load_stops_at_error(entries@, i + 1);
                        }
                        return Err(message);
                    },
                    Ok(()) => {
                        let ghost before = questions.deep_view();
                        questions.push(q.duplicate());
                        assert(questions.deep_view() =~= before.push(q@));
                        assert(start + accepted(prefix).push(q@) =~= (start + accepted(
                            prefix,
                        )).push(q@));
                    },
                }
            },
        }
        i = i + 1;
    }
    assert(entries@.subrange(0, entries@.len() as int) =~= entries@);
    Ok(())
}

/// Loads one directory of the bank into `questions`.
fn load_directory(questions: &mut Vec<QuestionSchema>, d: &BankDirectory) -> (r: Result<(), String>)
    requires
        directory_fits(*d),
    ensures
        match directory_outcome(old(questions).deep_view(), *d) {
            Ok(all) => r is Ok && final(questions).deep_view() == all,
            Err(e) => r matches Err(m) && m@ == e,
        },
{
    match d {
        BankDirectory::Absent => Ok(()),
        BankDirectory::Unreadable(e) => Err(e.clone()),
        BankDirectory::Files(entries) => load_questions_from_entries(questions, entries),
    }
}

/// Loads the built-in question bank from what was found on disk: whether the
/// bank directory exists (`bank_root` names it in the message when it does
/// not), then the static and the dynamic directory, in that order. Every
/// question is validated; the first problem found is reported.
pub fn load_builtin_questions(
    bank_root: &str,
    bank_exists: bool,
    static_dir: &BankDirectory,
    dynamic_dir: &BankDirectory,
) -> (r: Result<Vec<QuestionSchema>, String>)
    requires
        bank_exists ==> directory_fits(*static_dir),
        bank_exists && directory_outcome(Seq::empty(), *static_dir) is Ok ==> directory_fits(
            *dynamic_dir,
        ),
    ensures
        match bank_outcome(bank_root@, bank_exists, *static_dir, *dynamic_dir) {
            Ok(all) => r matches Ok(v) && v.deep_view() == all,
            Err(e) => r matches Err(m) && m@ == e,
        },
{
    if !bank_exists {
        let mut message = String::from_str("Question bank directory not found at ");
        message.append(bank_root);
        return Err(message);
    }
    let mut questions: Vec<QuestionSchema> = Vec::new();
    assert(questions.deep_view() =~= Seq::<QuestionModel>::empty());
    match load_directory(&mut questions, static_dir) {
        Err(e) => {
            return Err(e);
        },
        Ok(()) => {},
    }
    match load_directory(&mut questions, dynamic_dir) {
        Err(e) => Err(e),
        Ok(()) => Ok(questions),
    }
}

// ---------------------------------------------------------------------------
// Drawing and counting
// ---------------------------------------------------------------------------

/// The first `n` questions, copied.
pub fn take_questions(questions: &[QuestionSchema], n: usize) -> (r: Vec<QuestionSchema>)
    requires
        n <= questions@.len(),
    ensures
        r.deep_view() == questions.deep_view().take(n as int),
{
    let ghost all = questions.deep_view();
    let mut r: Vec<QuestionSchema> = Vec::new();
    let mut i: usize = 0;
    while i < n
        invariant
            all == questions.deep_view(),
            n <= questions@.len(),
            i <= n,
            r.deep_view() == all.take(i as int),
        decreases n - i,
    {
        let ghost before = r.deep_view();
        assert(all[i as int] == questions@[i as int]@);
        r.push(questions[i].duplicate());
        assert(r.deep_view() =~= before.push(all[i as int]));
        assert(r.deep_view() =~= all.take(i + 1));
        i = i + 1;
    }
    r
}

/// The pool `draw_questions` draws from: mode and scope match, and the task
/// type too when one is asked for.
pub open spec fn draw_pool(
    qs: Seq<QuestionModel>,
    mode: Seq<char>,
    scope: Seq<char>,
    task_type: Option<Seq<char>>,
) -> Seq<QuestionModel> {
    let pool = mode_scope_filter(qs, mode, scope);
    match task_type {
        Some(t) => of_task_type(pool, t),
        None => pool,
    }
}

/// The message of a draw that asks for more questions than the pool holds.
pub open spec fn insufficient_message(count: nat, available: nat) -> Seq<char> {
    "符合条件的题目不足，需要 "@ + decimal_text(count) + " 题，但只有 "@ + decimal_text(available)
        + " 题"@
}

/// Draws the first `count` questions of the pool (mode, scope and, when
/// given, task type match); fails when the pool holds fewer.
pub fn draw_questions(
    questions: &[QuestionSchema],
    assessment_mode: &str,
    scope: &str,
    count: u32,
    task_type_filter: &Option<String>,
) -> (r: Result<Vec<QuestionSchema>, CommandError>)
    ensures
        ({
            let pool = draw_pool(
                questions.deep_view(),
                assessment_mode@,
                scope@,
                opt_text(*task_type_filter),
            );
            &&& r is Ok <==> pool.len() >= count
            &&& r matches Ok(v) ==> v.deep_view() == pool.take(count as int)
            &&& r matches Err(e) ==> error_is(
                e,
                "INSUFFICIENT_QUESTIONS"@,
                insufficient_message(count as nat, pool.len()),
                Severity::Warning,
                true,
                Action::NoAction,
            )
        }),
{
    let filtered = filter_questions(questions, assessment_mode, scope);
    let pool = match task_type_filter {
        Some(t) => questions_of_type(filtered.as_slice(), t.as_str()),
        None => filtered,
    };
    if pool.len() < count as usize {
        let mut message = String::from_str("符合条件的题目不足，需要 ");
        let wanted = decimal(count as u64);
        message.append(wanted.as_str());
        message.append(" 题，但只有 ");
        let have = decimal(pool.len() as u64);
        message.append(have.as_str());
        message.append(" 题");
        return Err(
            command_error(
                "INSUFFICIENT_QUESTIONS",
                message,
                Severity::Warning,
                true,
                Action::NoAction,
            ),
        );
    }
    Ok(take_questions(pool.as_slice(), count as usize))
}

/// How many questions a static session draws for `scope`: at most 3 for the
/// "fun" scope, at most 5 otherwise.
pub open spec fn static_question_limit(scope: Seq<char>) -> nat {
    if scope == "fun"@ {
        3
    } else {
        5
    }
}

/// The questions of a new static session: the first static questions meant
/// for `scope`, at most [`static_question_limit`] of them; fails when there
/// is none.
pub fn select_static_questions(questions: &[QuestionSchema], scope: &str) -> (r: Result<
    Vec<QuestionSchema>,
    CommandError,
>)
    ensures
        ({
            let pool = mode_scope_filter(questions.deep_view(), "static"@, scope@);
            let n = if pool.len() < static_question_limit(scope@) {
                pool.len()
            } else {
                static_question_limit(scope@)
            };
            &&& r is Ok <==> pool.len() > 0
            &&& r matches Ok(v) ==> v.deep_view() == pool.take(n as int)
            &&& r matches Err(e) ==> error_is(
                e,
                "QUESTION_BANK_EMPTY"@,
                "没有符合条件的题目"@,
                Severity::Warning,
                false,
                Action::NoAction,
            )
        }),
{
    let pool = filter_questions(questions, "static", scope);
    if pool.len() == 0 {
        return Err(
            crate::errors::fixed_error(
                "QUESTION_BANK_EMPTY",
                "没有符合条件的题目",
                Severity::Warning,
                false,
                Action::NoAction,
            ),
        );
    }
    let limit: usize = if text_eq(scope, "fun") {
        3
    } else {
        5
    };
    let n = if pool.len() < limit {
        pool.len()
    } else {
        limit
    };
    Ok(take_questions(pool.as_slice(), n))
}

/// How many questions have assessment mode `mode`.
pub fn count_in_mode(questions: &[QuestionSchema], mode: &str) -> (r: usize)
    ensures
        r == mode_count(questions.deep_view(), mode@),
        r <= questions@.len(),
{
    let ghost all = questions.deep_view();
    let mut n: usize = 0;
    let mut i: usize = 0;
    while i < questions.len()
        invariant
            all == questions.deep_view(),
            i <= questions@.len(),
            n == mode_count(all.subrange(0, i as int), mode@),
            n <= i,
        decreases questions.len() - i,
    {
        assert(all[i as int] == questions@[i as int]@);
        assert(all.subrange(0, i + 1).drop_last() =~= all.subrange(0, i as int));
        if text_eq(questions[i].assessment_mode.as_str(), mode) {
            n = n + 1;
        }
        i = i + 1;
    }
    assert(all.subrange(0, all.len() as int) =~= all);
    n
}

/// Length of a filter by task type never exceeds the filtered sequence.
pub proof fn lemma_of_task_type_len(qs: Seq<QuestionModel>, t: Seq<char>)
    ensures
        of_task_type(qs, t).len() <= qs.len(),
    decreases qs.len(),
{
    if qs.len() > 0 {
        lemma_of_task_type_len(qs.drop_last(), t);
    }
}

/// How many questions have task type `task_type`.
pub fn count_of_type(questions: &[QuestionSchema], task_type: &str) -> (r: usize)
    ensures
        r == of_task_type(questions.deep_view(), task_type@).len(),
{
    let ghost all = questions.deep_view();
    let mut n: usize = 0;
    let mut i: usize = 0;
    while i < questions.len()
        invariant
            all == questions.deep_view(),
            i <= questions@.len(),
            n == of_task_type(all.subrange(0, i as int), task_type@).len(),
            n <= i,
        decreases questions.len() - i,
    {
        assert(all[i as int] == questions@[i as int]@);
        assert(all.subrange(0, i + 1).drop_last() =~= all.subrange(0, i as int));
        if text_eq(questions[i].task_type.as_str(), task_type) {
            n = n + 1;
        }
        i = i + 1;
    }
    assert(all.subrange(0, all.len() as int) =~= all);
    n
}

/// The counts of a bank: all questions, static ones, dynamic ones, and one
/// count per task type in order of first appearance.
pub fn question_bank_summary(questions: &[QuestionSchema]) -> (r: QuestionBankSummary)
    requires
        questions@.len() <= u32::MAX,
    ensures
        r.total_questions == questions@.len(),
        r.static_questions == mode_count(questions.deep_view(), "static"@),
        r.dynamic_questions == mode_count(questions.deep_view(), "dynamic"@),
        r.by_task_type@.len() == distinct_task_types(questions.deep_view()).len(),
        forall|i: int|
            0 <= i < r.by_task_type@.len() ==> {
                &&& (#[trigger] r.by_task_type@[i]).task_type@ == distinct_task_types(
                    questions.deep_view(),
                )[i]
                &&& r.by_task_type@[i].count == of_task_type(
                    questions.deep_view(),
                    distinct_task_types(questions.deep_view())[i],
                ).len()
            },
{
    let total = questions.len() as u32;
    let static_questions = count_in_mode(questions, "static") as u32;
    let dynamic_questions = count_in_mode(questions, "dynamic") as u32;
    let keys = task_types_in_order(questions);
    let ghost want = distinct_task_types(questions.deep_view());
    let mut by_task_type: Vec<TaskTypeCount> = Vec::new();
    let mut k: usize = 0;
    while k < keys.len()
        invariant
            k <= keys@.len(),
            keys.deep_view() == want,
            want == distinct_task_types(questions.deep_view()),
            questions@.len() <= u32::MAX,
            by_task_type@.len() == k,
            forall|j: int|
                0 <= j < k ==> {
                    &&& (#[trigger] by_task_type@[j]).task_type@ == want[j]
                    &&& by_task_type@[j].count == of_task_type(questions.deep_view(), want[j]).len()
                },
        decreases keys.len() - k,
    {
        assert(keys.deep_view()[k as int] == keys@[k as int]@);
        let n = count_of_type(questions, keys[k].as_str());
        proof {
            lemma_of_task_type_len(questions.deep_view(), want[k as int]);
        }
        by_task_type.push(TaskTypeCount { task_type: keys[k].clone(), count: n as u32 });
        k = k + 1;
    }
    QuestionBankSummary {
        total_questions: total,
        static_questions,
        dynamic_questions,
        by_task_type,
    }
}

} // verus!
