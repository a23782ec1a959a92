//! The self-correcting code generation cycle: prompts for the language
//! model, extraction of the code it answers with, and the decisions of the
//! correction loop, which the caller drives by performing each action.
use vstd::prelude::*;
use crate::docker_sandbox::{check_no_network_code, first_network_keyword, NETWORK_DETECTED};
use crate::todo_context::{first_with_id, has_id, lemma_first_where, task_views, Task, TaskStatus, TaskView, TodoContext, TodoView};
use crate::text::{
    chars_of, decimal, find, find_chars, lemma_find_from, lemma_find_from_suffix, occurs_at, push_decimal,
    push_str, string_from, trim, trimmed,
};

verus! {

// ---------------------------------------------------------------------------
// Data of the correction cycle
// ---------------------------------------------------------------------------

/// State of a task during the correction cycle.
#[derive(Debug, Clone, Copy, PartialEq, Eq)]
pub enum TaskState {
    /// Waiting to run.
    Pending,
    /// Being generated or corrected.
    InProgress,
    /// Finished successfully.
    Completed,
    /// Failed after the maximum number of attempts.
    Failed,
}

/// One iteration of the correction cycle.
#[derive(Debug, Clone)]
pub struct CorrectionIteration {
    /// Attempt number, from 1.
    pub attempt: u32,
    /// The code generated or corrected in this attempt.
    pub code: String,
    /// The error of this attempt, if it failed before compiling.
    pub error: Option<String>,
    /// The compiler error this attempt was asked to fix.
    pub stderr: String,
}

/// Final result of the correction cycle.
#[derive(Debug, Clone)]
pub struct CorrectionResult {
    /// The final code (the one that compiled, or the last attempt).
    pub code: String,
    /// Number of attempts made.
    pub attempts: u32,
    /// Did the code compile?
    pub success: bool,
    /// History of iterations.
    pub iterations: Vec<CorrectionIteration>,
    /// The final error, if the cycle failed.
    pub final_error: Option<String>,
}

/// Settings of the correction cycle.
#[derive(Debug, Clone)]
pub struct CorrectionConfig {
    /// Maximum number of attempts.
    pub max_retries: u32,
    /// Timeout for the model calls, in seconds.
    pub llm_timeout_seconds: u64,
    /// Name of the task, used in the prompts.
    pub task_name: String,
}

/// The default task name.
pub const DEFAULT_TASK_NAME: &'static str = "Generació de codi";

impl Default for CorrectionConfig {
    fn default() -> (c: Self)
        ensures
            c.max_retries == 3,
            c.llm_timeout_seconds == 60,
            c.task_name@ == DEFAULT_TASK_NAME@,
    {
        CorrectionConfig {
            max_retries: 3,
            llm_timeout_seconds: 60,
            task_name: String::from_str(DEFAULT_TASK_NAME),
        }
    }
}

/// The view of an optional string.
pub open spec fn opt_chars(o: Option<String>) -> Option<Seq<char>> {
    match o {
        Some(s) => Some(s@),
        None => None,
    }
}

/// The model of one iteration.
pub struct IterationView {
    pub attempt: u32,
    pub code: Seq<char>,
    pub error: Option<Seq<char>>,
    pub stderr: Seq<char>,
}

impl View for CorrectionIteration {
    type V = IterationView;

    open spec fn view(&self) -> IterationView {
        IterationView {
            attempt: self.attempt,
            code: self.code@,
            error: opt_chars(self.error),
            stderr: self.stderr@,
        }
    }
}

/// The model of a correction result.
pub struct ResultView {
    pub code: Seq<char>,
    pub attempts: u32,
    pub success: bool,
    pub iterations: Seq<IterationView>,
    pub final_error: Option<Seq<char>>,
}

/// The models of a sequence of iterations.
pub open spec fn iteration_views(its: Seq<CorrectionIteration>) -> Seq<IterationView> {
    its.map_values(|it: CorrectionIteration| it@)
}

impl View for CorrectionResult {
    type V = ResultView;

    open spec fn view(&self) -> ResultView {
        ResultView {
            code: self.code@,
            attempts: self.attempts,
            success: self.success,
            iterations: iteration_views(self.iterations@),
            final_error: opt_chars(self.final_error),
        }
    }
}

// ---------------------------------------------------------------------------
// Prompts
// ---------------------------------------------------------------------------

/// Opening of the correction prompt, up to the compiler errors.
pub const FIXER_HEAD: &'static str = "## Bucle de Correcció — Intent fallit\n\nT'he enviat aquest codi Rust al sandbox i ha fallat amb aquests errors:\n\n```\n";
/// Between the compiler errors and the task name.
pub const FIXER_TASK: &'static str = "\n```\n\nTasca actual: ";
/// Between the task name and the failed code.
pub const FIXER_CODE: &'static str = "\n\nCodi original:\n```rust\n";
/// The instructions that close the correction prompt.
pub const FIXER_TAIL: &'static str = "\n```\n\nInstruccions:\n1. Analitza els errors del compilador.\n2. Corregeix el codi per solucionar tots els errors.\n3. Retorna **només** el fitxer Rust complet corregit (sense explicacions).\n4. No facis canvis innecessaris — només els necessaris per passar el compilador.\n5. Si l'error és d'un punt i coma, afegeix-lo. Si és de tipus, corregeix-lo.\n\nRetorna el codi complet en un bloc ```rust ... ```.";

/// The correction prompt for `code` that failed with `error` in task `task`.
pub open spec fn fixer_prompt(code: Seq<char>, error: Seq<char>, task: Seq<char>) -> Seq<char> {
    FIXER_HEAD@ + error + FIXER_TASK@ + task + FIXER_CODE@ + code + FIXER_TAIL@
}

/// Builds the correction prompt: the failed code and the compiler errors,
/// with the instructions to fix them.
pub fn generate_fixer_prompt(original_code: &str, error_message: &str, task_name: &str) -> (p: String)
    ensures
        p@ == fixer_prompt(original_code@, error_message@, task_name@),
{
    let mut p = String::new();
    push_str(&mut p, FIXER_HEAD);
    push_str(&mut p, error_message);
    push_str(&mut p, FIXER_TASK);
    push_str(&mut p, task_name);
    push_str(&mut p, FIXER_CODE);
    push_str(&mut p, original_code);
    push_str(&mut p, FIXER_TAIL);
    p
}

/// Opening of the generation prompt, up to the instruction.
pub const INITIAL_HEAD: &'static str = "## Generació de Codi Rust\n\nInstruccions: ";
/// Between the instruction and the task name.
pub const INITIAL_TASK: &'static str = "\nTasca: ";
/// Between the task name and the project context.
pub const INITIAL_CONTEXT: &'static str = "\n\nContext actual del projecte:\n```\n";
/// The instructions that close the generation prompt.
pub const INITIAL_TAIL: &'static str = "\n```\n\nInstruccions:\n1. Genera el codi Rust complet per a `src/main.rs`.\n2. Retorna **només** el codi en un bloc ```rust ... ```.\n3. El codi ha de ser auto-contingut (fn main() i tot el necessari).\n4. No afegis explicacions fora del bloc de codi.";

/// The generation prompt for an instruction, a task name and the project context.
pub open spec fn initial_prompt(instruction: Seq<char>, task: Seq<char>, context: Seq<char>) -> Seq<char> {
    INITIAL_HEAD@ + instruction + INITIAL_TASK@ + task + INITIAL_CONTEXT@ + context + INITIAL_TAIL@
}

/// Builds the prompt of the first generation.
pub fn generate_initial_prompt(code_instruction: &str, task_name: &str, context: &str) -> (p: String)
    ensures
        p@ == initial_prompt(code_instruction@, task_name@, context@),
{
    let mut p = String::new();
    push_str(&mut p, INITIAL_HEAD);
    push_str(&mut p, code_instruction);
    push_str(&mut p, INITIAL_TASK);
    push_str(&mut p, task_name);
    push_str(&mut p, INITIAL_CONTEXT);
    push_str(&mut p, context);
    push_str(&mut p, INITIAL_TAIL);
    p
}

// ---------------------------------------------------------------------------
// Extracting the code block of a model answer
// ---------------------------------------------------------------------------

/// The fence that closes a code block.
pub open spec fn fence() -> Seq<char> {
    seq!['`', '`', '`']
}

/// The opening fences tried in order: "```rust\n", "```rust\r\n", "```\n",
/// "```\r\n", and finally a bare "```" followed directly by code.
pub open spec fn opening_fences() -> Seq<Seq<char>> {
    seq![
        seq!['`', '`', '`', 'r', 'u', 's', 't', '\n'],
        seq!['`', '`', '`', 'r', 'u', 's', 't', '\r', '\n'],
        seq!['`', '`', '`', '\n'],
        seq!['`', '`', '`', '\r', '\n'],
        seq!['`', '`', '`'],
    ]
}

/// The text between the first `start` marker of `s` and the first `end`
/// marker after it, if both occur.
pub open spec fn block_between(s: Seq<char>, start: Seq<char>, end: Seq<char>) -> Option<Seq<char>> {
    match find(s, start) {
        Some(i) => {
            let after = s.subrange(i + start.len(), s.len() as int);
            match find(after, end) {
                Some(j) => Some(after.subrange(0, j)),
                None => None,
            }
        },
        None => None,
    }
}

/// The block found with the opening fences from index `k` on, trimmed, or the
/// trimmed answer when none of them opens a closed block.
pub open spec fn extract_from(s: Seq<char>, k: int) -> Seq<char>
    decreases opening_fences().len() - k,
{
    if k < 0 || k >= opening_fences().len() {
        trim(s)
    } else {
        match block_between(s, opening_fences()[k], fence()) {
            Some(b) => trim(b),
            None => extract_from(s, k + 1),
        }
    }
}

/// The code extracted from a model answer: the content of the first block
/// that the earliest opening fence in the list opens, trimmed, else the
/// whole answer trimmed.
pub open spec fn extracted_code(s: Seq<char>) -> Seq<char> {
    extract_from(s, 0)
}

/// The content of the first block of `v` opened by `start` and closed by a fence.
fn block_with(v: &Vec<char>, start: &Vec<char>, end: &Vec<char>) -> (r: Option<String>)
    ensures
        match r {
            Some(b) => block_between(v@, start@, end@) == Some(b@),
            None => block_between(v@, start@, end@) is None,
        },
{
    proof { lemma_find_from(v@, start@, 0); }
    match find_chars(v, start, 0) {
        Some(i) => {
            let sl = start.len();
            assert(i + sl <= v.len());
            let a = i + sl;
            proof {
                lemma_find_from_suffix(v@, end@, a as int, 0);
                lemma_find_from(v@, end@, a as int);
            }
            match find_chars(v, end, a) {
                Some(p) => {
                    let ghost after = v@.subrange(a as int, v.len() as int);
                    assert(after.subrange(0, p - a) =~= v@.subrange(a as int, p as int));
                    Some(string_from(v, a, p))
                },
                None => None,
            }
        },
        None => None,
    }
}

/// Extracts the first Rust code block of a language-model answer.
///
/// The answer may mix prose with fenced blocks; the content of the first
/// block is returned trimmed, and the whole answer trimmed when it holds no block.
pub fn extract_rust_code(response: &str) -> (code: String)
    ensures
        code@ == extracted_code(response@),
{
    let v = chars_of(response);
    let fences: Vec<Vec<char>> = vec![
        vec!['`', '`', '`', 'r', 'u', 's', 't', '\n'],
        vec!['`', '`', '`', 'r', 'u', 's', 't', '\r', '\n'],
        vec!['`', '`', '`', '\n'],
        vec!['`', '`', '`', '\r', '\n'],
        vec!['`', '`', '`'],
    ];
    let end: Vec<char> = vec!['`', '`', '`'];
    assert(end@ == fence());
    assert(fences@.len() == opening_fences().len());
    assert(forall|k: int| 0 <= k < fences@.len() ==> #[trigger] fences@[k]@ == opening_fences()[k]);
    let mut k: usize = 0;
    while k < fences.len()
        invariant
            k <= fences@.len(),
            fences@.len() == opening_fences().len(),
            forall|m: int| 0 <= m < fences@.len() ==> #[trigger] fences@[m]@ == opening_fences()[m],
            end@ == fence(),
            v@ == response@,
            extracted_code(v@) == extract_from(v@, k as int),
        decreases fences@.len() - k,
    {
        match block_with(&v, &fences[k], &end) {
            Some(b) => {
                return trimmed(b.as_str());
            },
            None => {},
        }
        k = k + 1;
    }
    trimmed(response)
}


// ---------------------------------------------------------------------------
// Recording the outcome of a cycle in the todo context
// ---------------------------------------------------------------------------

/// Joins a task's description and the final error of its failed cycle.
pub const FINAL_ERROR_SEPARATOR: &'static str = " — Error final: ";
/// Opening of the description of a task created for an unknown id.
pub const AUTO_TASK_HEAD: &'static str = "Tasca auto-generada (corregit en ";
/// Closing of the description of a task created for an unknown id.
pub const AUTO_TASK_TAIL: &'static str = " intents)";

/// The task with id `task_id` after a cycle with result `r`: completed on a
/// success; on a failure, failed, with the final error (if any) appended to
/// its description as its log.
pub open spec fn task_after(t: TaskView, r: ResultView) -> TaskView {
    TaskView {
        status: if r.success { TaskStatus::Completed } else { TaskStatus::Failed },
        description: if !r.success && r.final_error is Some {
            t.description + FINAL_ERROR_SEPARATOR@ + r.final_error->0
        } else {
            t.description
        },
        ..t
    }
}

/// The context after recording the result `r` of a cycle for `task_id`: the
/// first task with that id is updated, or a task is added for it, with a
/// description that gives the number of attempts.
pub open spec fn recorded(c: TodoView, task_id: u32, r: ResultView) -> TodoView {
    match first_with_id(c.tasks, task_id) {
        Some(i) => TodoView { tasks: c.tasks.update(i, task_after(c.tasks[i], r)), ..c },
        None => TodoView {
            tasks: c.tasks.push(
                task_after(
                    TaskView {
                        id: task_id,
                        description: AUTO_TASK_HEAD@ + decimal(r.attempts as nat) + AUTO_TASK_TAIL@,
                        status: TaskStatus::Pending,
                    },
                    r,
                ),
            ),
            ..c
        },
    }
}

/// The task `id` with `description` after a cycle with `result`.
fn finished_task(id: u32, description: String, result: &CorrectionResult) -> (t: Task)
    ensures
        t@ == task_after(TaskView { id, description: description@, status: TaskStatus::Pending }, result@),
{
    let mut description = description;
    if !result.success {
        match &result.final_error {
            Some(err) => {
                push_str(&mut description, FINAL_ERROR_SEPARATOR);
                push_str(&mut description, err.as_str());
            },
            None => {},
        }
    }
    let status = if result.success { TaskStatus::Completed } else { TaskStatus::Failed };
    Task { id, description, status }
}

/// Records the result of a correction cycle in the task with id `task_id`.
pub fn update_task_state(context: &mut TodoContext, task_id: u32, result: &CorrectionResult)
    ensures
        final(context)@ == recorded(old(context)@, task_id, result@),
{
    let ghost orig = context@;
    assert(orig == old(context)@);
    let mut i: usize = 0;
    while i < context.tasks.len()
        invariant
            i <= context.tasks.len(),
            context@ == orig,
            orig == old(context)@,
            forall|j: int| 0 <= j < i ==> orig.tasks[j].id != task_id,
        decreases context.tasks.len() - i,
    {
        if context.tasks[i].id == task_id {
            proof { lemma_first_where(orig.tasks, has_id(task_id), i as int); }
            let t = finished_task(context.tasks[i].id, context.tasks[i].description.clone(), result);
            assert(orig.tasks[i as int] == context.tasks@[i as int]@);
            assert(first_with_id(orig.tasks, task_id) == Some(i as int));
            assert(t@ == task_after(orig.tasks[i as int], result@));
            let ghost prev = context.tasks@;
            context.tasks.set(i, t);
            assert(task_views(context.tasks@) =~= task_views(prev).update(i as int, t@));
            assert(context@.tasks == orig.tasks.update(i as int, t@));
            assert(context@.project_name == orig.project_name);
            assert(context@.current_stage == orig.current_stage);
            assert(context@ == recorded(orig, task_id, result@));
            return;
        }
        i = i + 1;
    }
    proof { lemma_first_where(orig.tasks, has_id(task_id), i as int); }
    let mut description = String::from_str(AUTO_TASK_HEAD);
    push_decimal(&mut description, result.attempts as u64);
    push_str(&mut description, AUTO_TASK_TAIL);
    let t = finished_task(task_id, description, result);
    let ghost prev = context.tasks@;
    context.tasks.push(t);
    assert(task_views(context.tasks@) =~= task_views(prev).push(t@));
}

// ---------------------------------------------------------------------------
// The correction loop, as decisions on the outcomes of model calls and compilations
// ---------------------------------------------------------------------------

/// System prompt of the first generation.
pub const SYSTEM_GENERATE: &'static str = "Eres un expert en Rust. Genera el codi sol·licitat.";
/// System prompt of a correction.
pub const SYSTEM_FIX: &'static str = "Eres un expert en Rust especialitzat en depuració. Corregeix els errors del compilador.";
/// Error of the first iteration when the model answered with a failure.
pub const INITIAL_LLM_ERROR: &'static str = "El LLM va retornar un error en la generació inicial";
/// Final error when the model answered the first generation with a failure.
pub const INITIAL_LLM_FINAL: &'static str = "Error en la generació inicial del LLM";
/// Prefix of a network error of the first generation.
pub const NETWORK_ERROR: &'static str = "Error de xarxa: ";
/// Prefix of a failed correction attempt.
pub const ATTEMPT_PREFIX: &'static str = "Intent ";
/// Suffix of a correction attempt that the model answered with a failure.
pub const ATTEMPT_LLM_FAILED: &'static str = " fallit: el LLM va retornar un error";
/// Prefix of a network error of a correction attempt.
pub const ATTEMPT_NETWORK: &'static str = "Error de xarxa en intent ";
/// Separator before the detail of a network error of a correction attempt.
pub const COLON: &'static str = ": ";
/// Error used when no error was recorded.
pub const UNKNOWN_ERROR: &'static str = "Error desconegut";

/// What the model answered.
#[derive(Debug, Clone)]
pub enum LlmReply {
    /// A successful answer with its content.
    Content(String),
    /// The call returned, but marked as failed.
    Failed,
    /// The call itself failed, with its error.
    NetworkError(String),
}

/// What the compilation of a candidate gave.
#[derive(Debug, Clone)]
pub enum CompileOutcome {
    /// The code compiled.
    Passed,
    /// The code did not compile; the compiler's error output.
    Failed(String),
}

/// An outcome handed to the correction loop.
#[derive(Debug, Clone)]
pub enum LoopEvent {
    /// Start the cycle.
    Started,
    /// The model answered.
    Replied(LlmReply),
    /// The compilation finished.
    Compiled(CompileOutcome),
}

/// What the caller has to do next.
#[derive(Debug, Clone)]
pub enum LoopAction {
    /// Call the model with this system and user prompt.
    AskModel { system: String, prompt: String },
    /// Compile this code.
    Compile { code: String },
    /// The cycle is over, with this result.
    Finish(CorrectionResult),
}

/// Where the cycle stands.
#[derive(Debug, Clone, Copy, PartialEq, Eq)]
pub enum LoopPhase {
    /// Not started.
    Idle,
    /// Waiting for the model's answer.
    AwaitingReply,
    /// Waiting for the compilation.
    AwaitingCompile,
    /// Finished.
    Done,
}

/// Model of a reply.
pub enum ReplyView {
    Content(Seq<char>),
    Failed,
    NetworkError(Seq<char>),
}

/// Model of a compilation outcome.
pub enum CompileView {
    Passed,
    Failed(Seq<char>),
}

/// Model of an event.
pub enum EventView {
    Started,
    Replied(ReplyView),
    Compiled(CompileView),
}

/// Model of an action.
pub enum ActionView {
    AskModel { system: Seq<char>, prompt: Seq<char> },
    Compile { code: Seq<char> },
    Finish(ResultView),
}

impl View for LoopEvent {
    type V = EventView;

    open spec fn view(&self) -> EventView {
        match self {
            LoopEvent::Started => EventView::Started,
            LoopEvent::Replied(r) => EventView::Replied(
                match r {
                    LlmReply::Content(c) => ReplyView::Content(c@),
                    LlmReply::Failed => ReplyView::Failed,
                    LlmReply::NetworkError(e) => ReplyView::NetworkError(e@),
                },
            ),
            LoopEvent::Compiled(c) => EventView::Compiled(
                match c {
                    CompileOutcome::Passed => CompileView::Passed,
                    CompileOutcome::Failed(e) => CompileView::Failed(e@),
                },
            ),
        }
    }
}

impl View for LoopAction {
    type V = ActionView;

    open spec fn view(&self) -> ActionView {
        match self {
            LoopAction::AskModel { system, prompt } => ActionView::AskModel {
                system: system@,
                prompt: prompt@,
            },
            LoopAction::Compile { code } => ActionView::Compile { code: code@ },
            LoopAction::Finish(r) => ActionView::Finish(r@),
        }
    }
}

/// Model of the loop's state.
pub struct LoopModel {
    pub phase: LoopPhase,
    /// The current attempt, from 1.
    pub attempt: u32,
    pub iterations: Seq<IterationView>,
    pub last_code: Seq<char>,
    pub last_error: Option<Seq<char>>,
    /// The error the current correction attempt was asked to fix.
    pub error_msg: Seq<char>,
    pub max_retries: u32,
    pub task_name: Seq<char>,
    pub instruction: Seq<char>,
    pub context: Seq<char>,
}

/// The fields of a correction cycle, whatever state they describe.
struct LoopState {
    phase: LoopPhase,
    attempt: u32,
    iterations: Vec<CorrectionIteration>,
    last_code: String,
    last_error: Option<String>,
    error_msg: String,
    max_retries: u32,
    task_name: String,
    instruction: String,
    context: String,
}

impl View for LoopState {
    type V = LoopModel;

    closed spec fn view(&self) -> LoopModel {
        LoopModel {
            phase: self.phase,
            attempt: self.attempt,
            iterations: iteration_views(self.iterations@),
            last_code: self.last_code@,
            last_error: opt_chars(self.last_error),
            error_msg: self.error_msg@,
            max_retries: self.max_retries,
            task_name: self.task_name@,
            instruction: self.instruction@,
            context: self.context@,
        }
    }
}

/// The state before the cycle starts.
pub open spec fn initial_model(max_retries: u32, task: Seq<char>, instruction: Seq<char>, context: Seq<char>) -> LoopModel {
    LoopModel {
        phase: LoopPhase::Idle,
        attempt: 0,
        iterations: Seq::empty(),
        last_code: Seq::empty(),
        last_error: None,
        error_msg: Seq::empty(),
        max_retries,
        task_name: task,
        instruction,
        context,
    }
}

/// Does the loop in phase `p` take event `e`?
pub open spec fn accepts(p: LoopPhase, e: EventView) -> bool {
    match e {
        EventView::Started => p == LoopPhase::Idle,
        EventView::Replied(_) => p == LoopPhase::AwaitingReply,
        EventView::Compiled(_) => p == LoopPhase::AwaitingCompile,
    }
}

/// An iteration.
pub open spec fn iteration(attempt: u32, code: Seq<char>, error: Option<Seq<char>>, stderr: Seq<char>) -> IterationView {
    IterationView { attempt, code, error, stderr }
}

/// The state after finishing.
pub open spec fn finished(m: LoopModel) -> LoopModel {
    LoopModel { phase: LoopPhase::Done, iterations: Seq::empty(), ..m }
}

/// After a failed attempt: ask for the next correction while attempts are
/// left, else finish with the last code and error.
pub open spec fn next_attempt(m: LoopModel) -> (LoopModel, ActionView) {
    if m.attempt < m.max_retries {
        let error_msg = match m.last_error {
            Some(e) => e,
            None => UNKNOWN_ERROR@,
        };
        (
            LoopModel { phase: LoopPhase::AwaitingReply, attempt: (m.attempt + 1) as u32, error_msg, ..m },
            ActionView::AskModel { system: SYSTEM_FIX@, prompt: fixer_prompt(m.last_code, error_msg, m.task_name) },
        )
    } else {
        (
            finished(m),
            ActionView::Finish(ResultView {
                code: m.last_code,
                attempts: m.attempt,
                success: false,
                iterations: m.iterations,
                final_error: m.last_error,
            }),
        )
    }
}

/// The failure message of a correction attempt that the model answered with a failure.
pub open spec fn llm_failed_message(attempt: u32) -> Seq<char> {
    ATTEMPT_PREFIX@ + decimal(attempt as nat) + ATTEMPT_LLM_FAILED@
}

/// The failure message of a correction attempt whose call failed.
pub open spec fn network_failed_message(attempt: u32, e: Seq<char>) -> Seq<char> {
    ATTEMPT_NETWORK@ + decimal(attempt as nat) + COLON@ + e
}

/// The step after the model proposed `code` (recorded as iteration `it`):
/// code with a marker of network access fails the attempt with the screen's
/// message, without compiling; other code is compiled.
pub open spec fn candidate(m: LoopModel, code: Seq<char>, it: IterationView) -> (LoopModel, ActionView) {
    let recorded = LoopModel { last_code: code, iterations: m.iterations.push(it), ..m };
    match first_network_keyword(code, 0) {
        Some(k) => next_attempt(LoopModel { last_error: Some(NETWORK_DETECTED@ + k), ..recorded }),
        None => (LoopModel { phase: LoopPhase::AwaitingCompile, ..recorded }, ActionView::Compile { code }),
    }
}

/// One decision of the correction cycle: the next state and what to do.
pub open spec fn loop_step(m: LoopModel, e: EventView) -> (LoopModel, ActionView) {
    match e {
        EventView::Started => (
            LoopModel { phase: LoopPhase::AwaitingReply, attempt: 1, ..m },
            ActionView::AskModel {
                system: SYSTEM_GENERATE@,
                prompt: initial_prompt(m.instruction, m.task_name, m.context),
            },
        ),
        EventView::Replied(r) => if m.attempt <= 1 {
            match r {
                ReplyView::Content(c) => candidate(m, extracted_code(c), iteration(1, extracted_code(c), None, Seq::empty())),
                ReplyView::Failed => (
                    finished(m),
                    ActionView::Finish(ResultView {
                        code: Seq::empty(),
                        attempts: 1,
                        success: false,
                        iterations: seq![iteration(1, Seq::empty(), Some(INITIAL_LLM_ERROR@), Seq::empty())],
                        final_error: Some(INITIAL_LLM_FINAL@),
                    }),
                ),
                ReplyView::NetworkError(err) => (
                    finished(m),
                    ActionView::Finish(ResultView {
                        code: Seq::empty(),
                        attempts: 1,
                        success: false,
                        iterations: seq![iteration(1, Seq::empty(), Some(NETWORK_ERROR@ + err), Seq::empty())],
                        final_error: Some(NETWORK_ERROR@ + err),
                    }),
                ),
            }
        } else {
            match r {
                ReplyView::Content(c) => candidate(
                    m,
                    extracted_code(c),
                    iteration(m.attempt, extracted_code(c), None, m.error_msg),
                ),
                ReplyView::Failed => {
                    let msg = llm_failed_message(m.attempt);
                    next_attempt(LoopModel {
                        iterations: m.iterations.push(iteration(m.attempt, Seq::empty(), Some(msg), m.error_msg)),
                        last_error: Some(msg),
                        ..m
                    })
                },
                ReplyView::NetworkError(err) => {
                    let msg = network_failed_message(m.attempt, err);
                    next_attempt(LoopModel {
                        iterations: m.iterations.push(iteration(m.attempt, Seq::empty(), Some(msg), m.error_msg)),
                        last_error: Some(msg),
                        ..m
                    })
                },
            }
        },
        EventView::Compiled(c) => match c {
            CompileView::Passed => (
                finished(m),
                ActionView::Finish(ResultView {
                    code: m.last_code,
                    attempts: m.attempt,
                    success: true,
                    iterations: m.iterations,
                    final_error: None,
                }),
            ),
            CompileView::Failed(stderr) => next_attempt(LoopModel { last_error: Some(stderr), ..m }),
        },
    }
}

impl LoopState {
    /// The fields of a cycle for `instruction` in `context`, with the settings of `config`.
    fn new(config: &CorrectionConfig, instruction: &str, context: &str) -> (l: Self)
        ensures
            l@ == initial_model(config.max_retries, config.task_name@, instruction@, context@),
    {
        let l = LoopState {
            phase: LoopPhase::Idle,
            attempt: 0,
            iterations: Vec::new(),
            last_code: String::new(),
            last_error: None,
            error_msg: String::new(),
            max_retries: config.max_retries,
            task_name: config.task_name.clone(),
            instruction: String::from_str(instruction),
            context: String::from_str(context),
        };
        assert(iteration_views(l.iterations@) =~= Seq::<IterationView>::empty());
        l
    }

    /// Ends the cycle with a result, leaving an empty finished state.
    fn finish(self, code: String, attempts: u32, success: bool, final_error: Option<String>) -> (r: (Self, LoopAction))
        ensures
            r.0@ == finished(self@),
            r.1@ == ActionView::Finish(ResultView {
                code: code@,
                attempts,
                success,
                iterations: self@.iterations,
                final_error: opt_chars(final_error),
            }),
    {
        let result = CorrectionResult { code, attempts, success, iterations: self.iterations, final_error };
        let next = LoopState { phase: LoopPhase::Done, iterations: Vec::new(), ..self };
        assert(iteration_views(next.iterations@) =~= Seq::<IterationView>::empty());
        (next, LoopAction::Finish(result))
    }

    /// The step after a failed attempt.
    fn advance(self) -> (r: (Self, LoopAction))
        ensures
            (r.0@, r.1@) == next_attempt(self@),
    {
        if self.attempt < self.max_retries {
            let error_msg = match &self.last_error {
                Some(e) => e.clone(),
                None => String::from_str(UNKNOWN_ERROR),
            };
            let prompt = generate_fixer_prompt(self.last_code.as_str(), error_msg.as_str(), self.task_name.as_str());
            let next = LoopState { phase: LoopPhase::AwaitingReply, attempt: self.attempt + 1, error_msg, ..self };
            (next, LoopAction::AskModel { system: String::from_str(SYSTEM_FIX), prompt })
        } else {
            let code = self.last_code.clone();
            let attempts = self.attempt;
            let final_error = self.last_error.clone();
            self.finish(code, attempts, false, final_error)
        }
    }

    /// Records an iteration.
    fn record(&mut self, attempt: u32, code: String, error: Option<String>, stderr: String)
        ensures
            final(self)@ == (LoopModel {
                iterations: old(self)@.iterations.push(iteration(attempt, code@, opt_chars(error), stderr@)),
                ..old(self)@
            }),
    {
        let it = CorrectionIteration { attempt, code, error, stderr };
        let ghost before = self.iterations@;
        self.iterations.push(it);
        assert(iteration_views(self.iterations@) =~= iteration_views(before).push(it@));
    }

    /// Records the code the model proposed in attempt `attempt`, then
    /// screens it for network access: refused code fails the attempt, other
    /// code goes to the compiler.
    fn candidate(self, code: String, attempt: u32, stderr: String) -> (r: (Self, LoopAction))
        ensures
            (r.0@, r.1@) == candidate(self@, code@, iteration(attempt, code@, None, stderr@)),
    {
        let mut this = self;
        this.record(attempt, code.clone(), None, stderr);
        this.last_code = code.clone();
        match check_no_network_code(code.as_str()) {
            Err(e) => {
                this.last_error = Some(e);
                this.advance()
            },
            Ok(()) => {
                this.phase = LoopPhase::AwaitingCompile;
                (this, LoopAction::Compile { code })
            },
        }
    }

    /// Takes one outcome and decides what comes next.
    fn step(self, event: LoopEvent) -> (r: (Self, LoopAction))
        requires
            accepts(self@.phase, event@),
        ensures
            (r.0@, r.1@) == loop_step(self@, event@),
    {
        let mut this = self;
        match event {
            LoopEvent::Started => {
                let prompt = generate_initial_prompt(this.instruction.as_str(), this.task_name.as_str(), this.context.as_str());
                let next = LoopState { phase: LoopPhase::AwaitingReply, attempt: 1, ..this };
                (next, LoopAction::AskModel { system: String::from_str(SYSTEM_GENERATE), prompt })
            },
            LoopEvent::Replied(reply) => {
                if this.attempt <= 1 {
                    match reply {
                        LlmReply::Content(content) => {
                            let code = extract_rust_code(content.as_str());
                            this.candidate(code, 1, String::new())
                        },
                        LlmReply::Failed => {
                            let mut its: Vec<CorrectionIteration> = Vec::new();
                            its.push(CorrectionIteration {
                                attempt: 1,
                                code: String::new(),
                                error: Some(String::from_str(INITIAL_LLM_ERROR)),
                                stderr: String::new(),
                            });
                            let result = CorrectionResult {
                                code: String::new(),
                                attempts: 1,
                                success: false,
                                iterations: its,
                                final_error: Some(String::from_str(INITIAL_LLM_FINAL)),
                            };
                            assert(result@.iterations =~= seq![iteration(1, Seq::empty(), Some(INITIAL_LLM_ERROR@), Seq::empty())]);
                            let next = LoopState { phase: LoopPhase::Done, iterations: Vec::new(), ..this };
                            assert(iteration_views(next.iterations@) =~= Seq::<IterationView>::empty());
                            (next, LoopAction::Finish(result))
                        },
                        LlmReply::NetworkError(err) => {
                            let mut msg = String::from_str(NETWORK_ERROR);
                            push_str(&mut msg, err.as_str());
                            let mut its: Vec<CorrectionIteration> = Vec::new();
                            its.push(CorrectionIteration {
                                attempt: 1,
                                code: String::new(),
                                error: Some(msg.clone()),
                                stderr: String::new(),
                            });
                            let result = CorrectionResult {
                                code: String::new(),
                                attempts: 1,
                                success: false,
                                iterations: its,
                                final_error: Some(msg),
                            };
                            assert(result@.iterations =~= seq![iteration(1, Seq::empty(), Some(NETWORK_ERROR@ + err@), Seq::empty())]);
                            let next = LoopState { phase: LoopPhase::Done, iterations: Vec::new(), ..this };
                            assert(iteration_views(next.iterations@) =~= Seq::<IterationView>::empty());
                            (next, LoopAction::Finish(result))
                        },
                    }
                } else {
                    let attempt = this.attempt;
                    let stderr = this.error_msg.clone();
                    match reply {
                        LlmReply::Content(content) => {
                            let code = extract_rust_code(content.as_str());
                            this.candidate(code, attempt, stderr)
                        },
                        LlmReply::Failed => {
                            let mut msg = String::from_str(ATTEMPT_PREFIX);
                            push_decimal(&mut msg, attempt as u64);
                            push_str(&mut msg, ATTEMPT_LLM_FAILED);
                            this.record(attempt, String::new(), Some(msg.clone()), stderr);
                            this.last_error = Some(msg);
                            this.advance()
                        },
                        LlmReply::NetworkError(err) => {
                            let mut msg = String::from_str(ATTEMPT_NETWORK);
                            push_decimal(&mut msg, attempt as u64);
                            push_str(&mut msg, COLON);
                            push_str(&mut msg, err.as_str());
                            this.record(attempt, String::new(), Some(msg.clone()), stderr);
                            this.last_error = Some(msg);
                            this.advance()
                        },
                    }
                }
            },
            LoopEvent::Compiled(outcome) => {
                match outcome {
                    CompileOutcome::Passed => {
                        let code = this.last_code.clone();
                        let attempts = this.attempt;
                        this.finish(code, attempts, true, None)
                    },
                    CompileOutcome::Failed(stderr) => {
                        this.last_error = Some(stderr);
                        this.advance()
                    },
                }
            },
        }
    }
}

/// The state of a correction cycle for one instruction. Every cycle
/// satisfies `loop_inv`: it starts in a state that does, and every step keeps it.
pub struct CorrectionLoop {
    state: LoopState,
}

impl View for CorrectionLoop {
    type V = LoopModel;

    closed spec fn view(&self) -> LoopModel {
        self.state@
    }
}

impl CorrectionLoop {
    /// Every cycle's state satisfies the invariant of the cycle.
    #[verifier::type_invariant]
    spec fn wf(self) -> bool {
        loop_inv(self.state@)
    }

    /// A cycle for `instruction` in `context`, with the settings of `config`.
    pub fn new(config: &CorrectionConfig, instruction: &str, context: &str) -> (l: Self)
        ensures
            l@ == initial_model(config.max_retries, config.task_name@, instruction@, context@),
    {
        let state = LoopState::new(config, instruction, context);
        CorrectionLoop { state }
    }

    /// The phase of the cycle.
    pub fn phase(&self) -> (p: LoopPhase)
        ensures
            p == self@.phase,
    {
        self.state.phase
    }

    /// Takes one outcome and decides what comes next. Of every cycle: each
    /// step brings it closer to its end, so it ends after at most
    /// `2 * max(1, max_retries) + 2` steps, and every result it finishes with
    /// is sound: as many attempts as iterations, numbered from 1, within the
    /// bound; a success exactly when no final error is left; and a success
    /// returns the code of its last iteration, which passed the screen for
    /// network access and then compiled.
    pub fn step(self, event: LoopEvent) -> (r: (Self, LoopAction))
        requires
            accepts(self@.phase, event@),
        ensures
            (r.0@, r.1@) == loop_step(self@, event@),
            0 <= loop_measure(r.0@) < loop_measure(self@),
            r.0@.max_retries == self@.max_retries,
            r.1@ matches ActionView::Finish(res) ==> sound_result(res, self@.max_retries) && r.0@.phase
                == LoopPhase::Done,
            r.1@ matches ActionView::Finish(res) ==> (res.success ==> event@ == EventView::Compiled(
                CompileView::Passed,
            ) && res.code == self@.last_code),
            r.0@.phase == LoopPhase::Done <==> r.1@ is Finish,
    {
        proof {
            use_type_invariant(&self);
            lemma_loop_step(self@, event@);
        }
        let (state, action) = self.state.step(event);
        (CorrectionLoop { state }, action)
    }
}

// ---------------------------------------------------------------------------
// Laws of the correction loop
// ---------------------------------------------------------------------------

/// The largest number of attempts a cycle with `max_retries` can make.
pub open spec fn attempt_bound(max_retries: u32) -> int {
    if max_retries >= 1 { max_retries as int } else { 1 }
}

/// What holds of every state the cycle reaches from its initial state.
pub open spec fn loop_inv(m: LoopModel) -> bool {
    match m.phase {
        LoopPhase::Idle => m.attempt == 0 && m.iterations.len() == 0,
        LoopPhase::AwaitingReply => {
            &&& 1 <= m.attempt <= attempt_bound(m.max_retries)
            &&& m.iterations.len() == m.attempt - 1
            &&& numbered(m.iterations)
            &&& m.attempt >= 2 ==> m.last_error is Some
        },
        LoopPhase::AwaitingCompile => {
            &&& 1 <= m.attempt <= attempt_bound(m.max_retries)
            &&& m.iterations.len() == m.attempt
            &&& numbered(m.iterations)
            &&& m.iterations.last().code == m.last_code
            &&& first_network_keyword(m.last_code, 0) is None
        },
        LoopPhase::Done => true,
    }
}

/// A measure that every step of the cycle decreases.
pub open spec fn loop_measure(m: LoopModel) -> int {
    match m.phase {
        LoopPhase::Idle => 2 * attempt_bound(m.max_retries) + 2,
        LoopPhase::AwaitingReply => 2 * (attempt_bound(m.max_retries) - m.attempt) + 2,
        LoopPhase::AwaitingCompile => 2 * (attempt_bound(m.max_retries) - m.attempt) + 1,
        LoopPhase::Done => 0,
    }
}

/// What every result the cycle finishes with satisfies: its number of
/// attempts is the number of iterations it records (numbered from 1), at
/// least one and never more than allowed; it succeeds exactly when no final
/// error is left; and a success returns the code of its last iteration, code
/// that passed the screen for network access.
pub open spec fn sound_result(r: ResultView, max_retries: u32) -> bool {
    &&& r.attempts == r.iterations.len()
    &&& 1 <= r.attempts <= attempt_bound(max_retries)
    &&& numbered(r.iterations)
    &&& (r.success <==> r.final_error is None)
    &&& r.success ==> r.iterations.last().code == r.code && first_network_keyword(r.code, 0) is None
}

/// The iterations are numbered 1, 2, ... in order.
pub open spec fn numbered(its: Seq<IterationView>) -> bool {
    forall|i: int| 0 <= i < its.len() ==> #[trigger] its[i].attempt == i + 1
}

/// A new cycle satisfies the invariant.
pub proof fn lemma_initial_loop_inv(max_retries: u32, task: Seq<char>, instruction: Seq<char>, context: Seq<char>)
    ensures
        loop_inv(initial_model(max_retries, task, instruction, context)),
{
}

/// Every step of the correction cycle keeps its invariant, strictly
/// decreases its measure (so the cycle ends after at most
/// `2 * max(1, max_retries) + 2` steps), and finishes only with a sound result.
pub proof fn lemma_loop_step(m: LoopModel, e: EventView)
    requires
        loop_inv(m),
        accepts(m.phase, e),
    ensures
        loop_inv(loop_step(m, e).0),
        0 <= loop_measure(loop_step(m, e).0) < loop_measure(m),
        loop_step(m, e).0.max_retries == m.max_retries,
        loop_step(m, e).1 matches ActionView::Finish(r) ==> sound_result(r, m.max_retries)
            && loop_step(m, e).0.phase == LoopPhase::Done,
        loop_step(m, e).0.phase == LoopPhase::Done <==> loop_step(m, e).1 is Finish,
{
}
} // verus!
