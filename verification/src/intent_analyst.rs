//! The intent analyst: turns a free-form intent of the user into a
//! proposal of technical tasks, and adds an approved proposal's tasks to
//! the todo context.
use vstd::prelude::*;
use crate::text::{contains, decimal, lowercase, owned, push_decimal, push_str, str_contains, to_lowercase};
use crate::todo_context::{lemma_max_id, max_id, max_task_id, task_views, Task, TaskStatus as ContextStatus, TaskView, TodoContext, TodoView};

verus! {

/// A request that carries an intent.
#[derive(Debug, Clone)]
pub struct IntentRequest {
    /// The user's intent, in free text.
    pub intent: String,
}

/// State of a proposed task.
#[derive(Debug, Clone, Copy, PartialEq, Eq, Structural)]
pub enum TaskStatus {
    Proposal,
    Pending,
    InProgress,
    Completed,
}

/// A technical task proposed for an intent.
#[derive(Debug, Clone)]
pub struct TechnicalTask {
    pub id: u32,
    pub description: String,
    pub status: TaskStatus,
}

/// Model of a technical task.
pub struct TechnicalTaskView {
    pub id: u32,
    pub description: Seq<char>,
    pub status: TaskStatus,
}

impl View for TechnicalTask {
    type V = TechnicalTaskView;

    open spec fn view(&self) -> TechnicalTaskView {
        TechnicalTaskView { id: self.id, description: self.description@, status: self.status }
    }
}

/// A proposal of tasks for an intent.
#[derive(Debug, Clone)]
pub struct IntentProposal {
    pub proposal_id: u32,
    pub original_intent: String,
    pub tasks: Vec<TechnicalTask>,
    pub explanation: String,
}

/// Model of a proposal.
pub struct ProposalView {
    pub proposal_id: u32,
    pub original_intent: Seq<char>,
    pub tasks: Seq<TechnicalTaskView>,
    pub explanation: Seq<char>,
}

/// The models of a sequence of technical tasks.
pub open spec fn technical_views(ts: Seq<TechnicalTask>) -> Seq<TechnicalTaskView> {
    ts.map_values(|t: TechnicalTask| t@)
}

impl View for IntentProposal {
    type V = ProposalView;

    open spec fn view(&self) -> ProposalView {
        ProposalView {
            proposal_id: self.proposal_id,
            original_intent: self.original_intent@,
            tasks: technical_views(self.tasks@),
            explanation: self.explanation@,
        }
    }
}

/// The answer to an intent.
#[derive(Debug, Clone)]
pub struct IntentResponse {
    pub status: String,
    pub message: String,
    pub proposal: Option<IntentProposal>,
}

/// A request to approve a proposal.
#[derive(Debug, Clone)]
pub struct ApproveRequest {
    pub proposal_id: u32,
}

/// The answer to an approval.
#[derive(Debug, Clone)]
pub struct ApproveResponse {
    pub status: String,
    pub message: String,
    pub tasks_added: u32,
}

// ---------------------------------------------------------------------------
// Proposals
// ---------------------------------------------------------------------------

/// First task of a greeting.
pub const GREETING_TASK_1: &'static str = "Crear funció saludar() que retorni 'Hola món' en català";
/// Second task of a greeting.
pub const GREETING_TASK_2: &'static str = "Crear test per validar la funció salutació";
/// First task of an API.
pub const API_TASK_1: &'static str = "Definir estructura de petició i resposta JSON";
/// Second task of an API.
pub const API_TASK_2: &'static str = "Implementar handler de l'endpoint amb axum";
/// Third task of an API.
pub const API_TASK_3: &'static str = "Afegir tests d'integració per l'endpoint";
/// Prefix of the first task of any other intent.
pub const ANALYSE: &'static str = "Analitzar requisits de: ";
/// Prefix of the second task of any other intent.
pub const IMPLEMENT: &'static str = "Implementar funcionalitat: ";
/// Prefix of the third task of any other intent.
pub const TEST: &'static str = "Crear tests per validar: ";
/// Opening of the explanation.
pub const EXPLANATION_HEAD: &'static str = "S'han generat ";
/// Between the number of tasks and the intent in the explanation.
pub const EXPLANATION_MID: &'static str = " tasques tècniques basades en la intenció: ";
/// The message when the model's API key is missing.
pub const MISSING_API_KEY: &'static str = "AI_API_KEY no configurada. Configura la clau d'API de Qwen.";

/// A proposed task.
pub open spec fn proposed(id: u32, description: Seq<char>) -> TechnicalTaskView {
    TechnicalTaskView { id, description, status: TaskStatus::Proposal }
}

/// Does the lowercased intent ask for a greeting?
pub open spec fn asks_greeting(lower: Seq<char>) -> bool {
    contains(lower, "saludar"@) || contains(lower, "hello"@) || contains(lower, "hola"@)
}

/// Does the lowercased intent ask for an API?
pub open spec fn asks_api(lower: Seq<char>) -> bool {
    contains(lower, "api"@) || contains(lower, "endpoint"@)
}

/// The tasks proposed for `intent`, whose lowercase form is `lower`.
pub open spec fn proposed_tasks(intent: Seq<char>, lower: Seq<char>) -> Seq<TechnicalTaskView> {
    if asks_greeting(lower) {
        seq![proposed(1, GREETING_TASK_1@), proposed(2, GREETING_TASK_2@)]
    } else if asks_api(lower) {
        seq![proposed(1, API_TASK_1@), proposed(2, API_TASK_2@), proposed(3, API_TASK_3@)]
    } else {
        seq![proposed(1, ANALYSE@ + intent), proposed(2, IMPLEMENT@ + intent), proposed(3, TEST@ + intent)]
    }
}

/// The proposal for `intent`, whose lowercase form is `lower`.
pub open spec fn proposal_for(intent: Seq<char>, lower: Seq<char>) -> ProposalView {
    ProposalView {
        proposal_id: 1,
        original_intent: intent,
        tasks: proposed_tasks(intent, lower),
        explanation: EXPLANATION_HEAD@ + decimal(proposed_tasks(intent, lower).len()) + EXPLANATION_MID@ + intent,
    }
}

/// A proposed task.
fn propose(id: u32, description: String) -> (t: TechnicalTask)
    ensures
        t@ == proposed(id, description@),
{
    TechnicalTask { id, description, status: TaskStatus::Proposal }
}

/// A text made of a prefix and the intent.
fn prefixed(prefix: &str, intent: &str) -> (s: String)
    ensures
        s@ == prefix@ + intent@,
{
    let mut s = owned(prefix);
    push_str(&mut s, intent);
    s
}

/// The proposal for `intent`, given its lowercase form `intent_lower`: tasks
/// chosen by the keywords the lowercase form holds.
pub fn proposal_from_lowercase(intent: &str, intent_lower: &str) -> (p: IntentProposal)
    ensures
        p@ == proposal_for(intent@, intent_lower@),
        !contains(intent_lower@, "saludar"@) && !contains(intent_lower@, "hello"@) && !contains(intent_lower@, "hola"@)
            && (contains(intent_lower@, "api"@) || contains(intent_lower@, "endpoint"@)) ==> p@.tasks == seq![
            proposed(1, API_TASK_1@),
            proposed(2, API_TASK_2@),
            proposed(3, API_TASK_3@),
        ],
{
    proof {
        lemma_proposal_by_keywords(intent@, intent_lower@);
    }
    let mut tasks: Vec<TechnicalTask> = Vec::new();
    if str_contains(intent_lower, "saludar") || str_contains(intent_lower, "hello") || str_contains(intent_lower, "hola") {
        tasks.push(propose(1, owned(GREETING_TASK_1)));
        tasks.push(propose(2, owned(GREETING_TASK_2)));
    } else if str_contains(intent_lower, "api") || str_contains(intent_lower, "endpoint") {
        tasks.push(propose(1, owned(API_TASK_1)));
        tasks.push(propose(2, owned(API_TASK_2)));
        tasks.push(propose(3, owned(API_TASK_3)));
    } else {
        tasks.push(propose(1, prefixed(ANALYSE, intent)));
        tasks.push(propose(2, prefixed(IMPLEMENT, intent)));
        tasks.push(propose(3, prefixed(TEST, intent)));
    }
    assert(technical_views(tasks@) =~= proposed_tasks(intent@, intent_lower@));
    let mut explanation = owned(EXPLANATION_HEAD);
    push_decimal(&mut explanation, tasks.len() as u64);
    push_str(&mut explanation, EXPLANATION_MID);
    push_str(&mut explanation, intent);
    IntentProposal { proposal_id: 1, original_intent: owned(intent), tasks, explanation }
}

/// The proposal of technical tasks for an intent, chosen by keywords of the
/// intent in lowercase.
pub fn generate_mock_proposal(intent: &str, current_context: &str) -> (r: Result<IntentProposal, String>)
    ensures
        r matches Ok(p) && p@ == proposal_for(intent@, lowercase(intent@)),
        !contains(lowercase(intent@), "saludar"@) && !contains(lowercase(intent@), "hello"@) && !contains(
            lowercase(intent@),
            "hola"@,
        ) && (contains(lowercase(intent@), "api"@) || contains(lowercase(intent@), "endpoint"@)) ==> (r matches Ok(p)
            && p@.tasks == seq![proposed(1, API_TASK_1@), proposed(2, API_TASK_2@), proposed(3, API_TASK_3@)]),
{
    let lower = to_lowercase(intent);
    Ok(proposal_from_lowercase(intent, lower.as_str()))
}

/// Generates the proposal for an intent: with the keyword analyst, or with
/// the model, which needs its API key to be configured.
pub fn generate_proposal(intent: &str, current_context: &str, use_mock: bool, api_key_configured: bool) -> (r: Result<IntentProposal, String>)
    ensures
        (use_mock || api_key_configured) ==> (r matches Ok(p) && p@ == proposal_for(intent@, lowercase(intent@))),
        (!use_mock && !api_key_configured) ==> (r matches Err(e) && e@ == MISSING_API_KEY@),
{
    if use_mock || api_key_configured {
        generate_mock_proposal(intent, current_context)
    } else {
        Err(owned(MISSING_API_KEY))
    }
}

// ---------------------------------------------------------------------------
// Approval
// ---------------------------------------------------------------------------

/// The tasks of the context after adding the first `k` proposed tasks: each
/// one pending, with its proposed id shifted by the largest id present.
pub open spec fn approved(ts: Seq<TaskView>, ps: Seq<TechnicalTaskView>, k: nat) -> Seq<TaskView>
    decreases k,
{
    if k == 0 || k > ps.len() {
        ts
    } else {
        let prev = approved(ts, ps, (k - 1) as nat);
        prev.push(TaskView {
            id: (ps[k - 1].id + max_id(prev)) as u32,
            description: ps[k - 1].description,
            status: ContextStatus::Pending,
        })
    }
}

/// None of the shifted ids exceeds the largest `u32`.
pub open spec fn approval_fits(ts: Seq<TaskView>, ps: Seq<TechnicalTaskView>) -> bool {
    forall|k: nat| k < ps.len() ==> #[trigger] ps[k as int].id + max_id(approved(ts, ps, k)) <= u32::MAX
}

/// Can the tasks of `proposal` be added to `context` without an id beyond
/// the largest `u32` (the condition of `approve_proposal`)?
pub fn can_approve(proposal: &IntentProposal, context: &TodoContext) -> (r: bool)
    ensures
        r == approval_fits(context@.tasks, proposal@.tasks),
{
    let ghost ts = context@.tasks;
    let ghost ps = proposal@.tasks;
    let mut m: u64 = max_task_id(&context.tasks) as u64;
    let mut i: usize = 0;
    while i < proposal.tasks.len()
        invariant
            i <= proposal.tasks.len(),
            ts == context@.tasks,
            ps == proposal@.tasks,
            m == max_id(approved(ts, ps, i as nat)),
            m <= u32::MAX,
            forall|k: nat| k < i ==> #[trigger] ps[k as int].id + max_id(approved(ts, ps, k)) <= u32::MAX,
        decreases proposal.tasks.len() - i,
    {
        let id = proposal.tasks[i].id as u64 + m;
        if id > 0xffff_ffff {
            assert(ps[(i as nat) as int].id + max_id(approved(ts, ps, i as nat)) > u32::MAX);
            return false;
        }
        let ghost prev = approved(ts, ps, i as nat);
        assert(approved(ts, ps, (i + 1) as nat).drop_last() =~= prev);
        if id > m {
            m = id;
        }
        i = i + 1;
    }
    true
}

/// Opening of the approval message.
pub const APPROVED_HEAD: &'static str = "Proposta #";
/// Between the proposal id and the number of tasks.
pub const APPROVED_MID: &'static str = " aprovada. ";
/// After the number of tasks.
pub const APPROVED_TAIL: &'static str = " tasques afegides.";
/// The status of a successful approval.
pub const SUCCESS: &'static str = "success";

/// Adds the tasks of an approved proposal to the context, as pending tasks.
pub fn approve_proposal(proposal: &IntentProposal, context: &mut TodoContext) -> (r: ApproveResponse)
    requires
        approval_fits(old(context)@.tasks, proposal@.tasks),
        proposal.tasks.len() <= u32::MAX,
    ensures
        final(context)@ == (TodoView {
            tasks: approved(old(context)@.tasks, proposal@.tasks, proposal@.tasks.len()),
            ..old(context)@
        }),
        r.tasks_added == proposal.tasks.len(),
        r.status@ == SUCCESS@,
        r.message@ == APPROVED_HEAD@ + decimal(proposal.proposal_id as nat) + APPROVED_MID@
            + decimal(proposal.tasks.len() as nat) + APPROVED_TAIL@,
{
    let ghost orig = context@;
    let ghost ps = proposal@.tasks;
    let mut added: u32 = 0;
    let mut i: usize = 0;
    while i < proposal.tasks.len()
        invariant
            i <= proposal.tasks.len() <= u32::MAX,
            added == i,
            ps == proposal@.tasks,
            approval_fits(orig.tasks, ps),
            context@ == (TodoView { tasks: approved(orig.tasks, ps, i as nat), ..orig }),
        decreases proposal.tasks.len() - i,
    {
        let m = max_task_id(&context.tasks);
        assert(ps[i as int].id + max_id(approved(orig.tasks, ps, i as nat)) <= u32::MAX);
        let t = &proposal.tasks[i];
        let task = Task { id: t.id + m, description: t.description.clone(), status: ContextStatus::Pending };
        let ghost before = context.tasks@;
        context.tasks.push(task);
        assert(task_views(context.tasks@) =~= task_views(before).push(task@));
        added = added + 1;
        i = i + 1;
    }
    let mut message = owned(APPROVED_HEAD);
    push_decimal(&mut message, proposal.proposal_id as u64);
    push_str(&mut message, APPROVED_MID);
    push_decimal(&mut message, added as u64);
    push_str(&mut message, APPROVED_TAIL);
    ApproveResponse { status: owned(SUCCESS), message, tasks_added: added }
}

/// The tasks proposed for an intent follow the keywords of its lowercase
/// form: "saludar", "hello" or "hola" give the two greeting tasks; else
/// "api" or "endpoint" give the three API tasks; else three tasks name the
/// intent itself (analyse, implement, test).
pub proof fn lemma_proposal_by_keywords(intent: Seq<char>, lower: Seq<char>)
    ensures
        contains(lower, "saludar"@) || contains(lower, "hello"@) || contains(lower, "hola"@) ==> proposal_for(
            intent,
            lower,
        ).tasks == seq![proposed(1, GREETING_TASK_1@), proposed(2, GREETING_TASK_2@)],
        !contains(lower, "saludar"@) && !contains(lower, "hello"@) && !contains(lower, "hola"@) && (contains(
            lower,
            "api"@,
        ) || contains(lower, "endpoint"@)) ==> proposal_for(intent, lower).tasks == seq![
            proposed(1, API_TASK_1@),
            proposed(2, API_TASK_2@),
            proposed(3, API_TASK_3@),
        ],
        !contains(lower, "saludar"@) && !contains(lower, "hello"@) && !contains(lower, "hola"@) && !contains(
            lower,
            "api"@,
        ) && !contains(lower, "endpoint"@) ==> proposal_for(intent, lower).tasks == seq![
            proposed(1, ANALYSE@ + intent),
            proposed(2, IMPLEMENT@ + intent),
            proposed(3, TEST@ + intent),
        ],
{
}

/// Every proposal has at least two tasks, all of them proposals, numbered 1, 2, ... so no two share an id.
pub proof fn lemma_proposal_shape(intent: Seq<char>, lower: Seq<char>)
    ensures
        proposal_for(intent, lower).proposal_id == 1,
        proposal_for(intent, lower).tasks.len() >= 2,
        forall|i: int| 0 <= i < proposal_for(intent, lower).tasks.len() ==> {
            &&& (#[trigger] proposal_for(intent, lower).tasks[i]).status == TaskStatus::Proposal
            &&& proposal_for(intent, lower).tasks[i].id == i + 1
        },
{
}

/// Approving adds one pending task per proposed task, after the tasks that
/// were there, which stay as they were; each new id is larger than every id
/// before it, so no two tasks share an id after an approval that had none.
pub proof fn lemma_approved_appends(ts: Seq<TaskView>, ps: Seq<TechnicalTaskView>, k: nat)
    requires
        k <= ps.len(),
        forall|j: int| 0 <= j < ps.len() ==> #[trigger] ps[j].id >= 1,
        approval_fits(ts, ps),
    ensures
        approved(ts, ps, k).len() == ts.len() + k,
        approved(ts, ps, k).take(ts.len() as int) == ts,
        forall|j: int| ts.len() <= j < ts.len() + k ==> {
            &&& (#[trigger] approved(ts, ps, k)[j]).status == ContextStatus::Pending
            &&& approved(ts, ps, k)[j].description == ps[j - ts.len()].description
            &&& forall|i: int| 0 <= i < j ==> approved(ts, ps, k)[i].id < approved(ts, ps, k)[j].id
        },
    decreases k,
{
    if k > 0 {
        lemma_approved_appends(ts, ps, (k - 1) as nat);
        let prev = approved(ts, ps, (k - 1) as nat);
        lemma_max_id(prev);
        assert(ps[(k - 1) as int].id + max_id(approved(ts, ps, (k - 1) as nat)) <= u32::MAX);
        let cur = approved(ts, ps, k);
        assert(cur.drop_last() == prev);
        assert(cur.take(ts.len() as int) =~= prev.take(ts.len() as int));
        assert forall|j: int| ts.len() <= j < ts.len() + k implies {
            &&& (#[trigger] cur[j]).status == ContextStatus::Pending
            &&& cur[j].description == ps[j - ts.len()].description
            &&& forall|i: int| 0 <= i < j ==> cur[i].id < cur[j].id
        } by {
            if j < ts.len() + k - 1 {
                assert(cur[j] == prev[j]);
                assert forall|i: int| 0 <= i < j implies cur[i].id < cur[j].id by {
                    assert(cur[i] == prev[i]);
                }
            } else {
                assert forall|i: int| 0 <= i < j implies cur[i].id < cur[j].id by {
                    assert(cur[i] == prev[i]);
                    assert(prev[i].id <= max_id(prev));
                }
            }
        }
    } else {
        assert(approved(ts, ps, k).take(ts.len() as int) =~= ts);
    }
}

} // verus!
