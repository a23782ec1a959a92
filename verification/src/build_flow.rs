//! Compile-and-commit: the decisions of building submitted code in the
//! sandbox and, when it compiles, completing the current task and
//! committing with a standardised message. The caller performs each action
//! (Docker, files, git) and hands back what it gave.
use vstd::prelude::*;
use crate::commit::{commit_lines, generate_commit_message, BusinessRule, CommitMetadata, TestResults, TestResultsView, TodoStateView};
use crate::docker_sandbox::{check_no_network_code, first_network_keyword, DockerCheckResult, NETWORK_DETECTED};
use crate::text::{chars_of, join, join_path, joined_path, owned, push_str, starts_with, str_eq, string_views, trim, trimmed};
use crate::todo_context::{lemma_first_where_some, completed_all, lemma_completion_leaves_none_in_progress, lemma_count_update, completed_if_in_progress, count_in_progress, first_with_status, lemma_count_prefix_bound, lemma_first_where, has_status, task_views, Task, TaskStatus, TaskView, TodoContext, TodoView, KEEP_STAGE};

verus! {

/// Outcome of a build.
#[derive(Debug, Clone, Copy, PartialEq, Eq, Structural)]
pub enum Status {
    Success,
    Error,
}

/// What a build answers: its outcome and message, the commit it made, and
/// how many tasks it completed.
#[derive(Debug, Clone)]
pub struct BuildResult {
    pub status: Status,
    pub message: String,
    pub commit_hash: Option<String>,
    pub commit_message: Option<String>,
    pub completed_tasks: Option<u32>,
}

/// Model of a build result.
pub struct BuildResultView {
    pub status: Status,
    pub message: Seq<char>,
    pub commit_hash: Option<Seq<char>>,
    pub commit_message: Option<Seq<char>>,
    pub completed_tasks: Option<u32>,
}

/// The view of an optional string.
pub open spec fn opt_view(o: Option<String>) -> Option<Seq<char>> {
    match o {
        Some(s) => Some(s@),
        None => None,
    }
}

impl View for BuildResult {
    type V = BuildResultView;

    open spec fn view(&self) -> BuildResultView {
        BuildResultView {
            status: self.status,
            message: self.message@,
            commit_hash: opt_view(self.commit_hash),
            commit_message: opt_view(self.commit_message),
            completed_tasks: self.completed_tasks,
        }
    }
}

/// The rule id of a request that names none.
pub const DEFAULT_RULE_ID: &'static str = "BR-000";
/// The rule name of a request that names none.
pub const DEFAULT_RULE_NAME: &'static str = "Compilació Simple";
/// The rule description of a request that gives none.
pub const DEFAULT_RULE_DESCRIPTION: &'static str = "Codi enviat via HTTP sense metadades";
/// The todo status of a request that gives none.
pub const DEFAULT_TODO_STATUS: &'static str = "in-progress";
/// The todo description of a request that gives none.
pub const DEFAULT_TODO_DESCRIPTION: &'static str = "Compilació via HTTP";

/// The root of the workspace: the directory above the crate's own.
pub fn workspace_root(crate_dir: &str) -> (p: String)
    ensures
        p@ == joined_path(crate_dir@, ".."@),
{
    join_path(crate_dir, "..")
}

/// The default rule id.
pub fn default_rule_id() -> (s: String)
    ensures
        s@ == DEFAULT_RULE_ID@,
{
    owned(DEFAULT_RULE_ID)
}

/// The default rule name.
pub fn default_rule_name() -> (s: String)
    ensures
        s@ == DEFAULT_RULE_NAME@,
{
    owned(DEFAULT_RULE_NAME)
}

/// The default rule description.
pub fn default_rule_description() -> (s: String)
    ensures
        s@ == DEFAULT_RULE_DESCRIPTION@,
{
    owned(DEFAULT_RULE_DESCRIPTION)
}

/// The default todo status.
pub fn default_todo_status() -> (s: String)
    ensures
        s@ == DEFAULT_TODO_STATUS@,
{
    owned(DEFAULT_TODO_STATUS)
}

/// The default todo description.
pub fn default_todo_description() -> (s: String)
    ensures
        s@ == DEFAULT_TODO_DESCRIPTION@,
{
    owned(DEFAULT_TODO_DESCRIPTION)
}

// ---------------------------------------------------------------------------
// Moving the todo context on after a successful build
// ---------------------------------------------------------------------------

/// The first pending task (if any) becomes in progress.
pub open spec fn start_first_pending(ts: Seq<TaskView>) -> Seq<TaskView> {
    match first_with_status(ts, TaskStatus::Pending) {
        Some(i) => ts.update(i, TaskView { status: TaskStatus::InProgress, ..ts[i] }),
        None => ts,
    }
}

/// The context after a successful build with todo status `todo_status`:
/// the tasks in progress are completed, the first pending task starts, and
/// the stage becomes `todo_status` unless that is "in-progress".
pub open spec fn advanced(c: TodoView, todo_status: Seq<char>) -> TodoView {
    TodoView {
        tasks: start_first_pending(c.tasks.map_values(|t: TaskView| completed_if_in_progress(t))),
        current_stage: if todo_status == KEEP_STAGE@ { c.current_stage } else { todo_status },
        ..c
    }
}

/// Completes the tasks in progress, starts the first pending one and
/// updates the stage; returns how many tasks were completed.
pub fn advance_context(context: &mut TodoContext, todo_status: &str) -> (count: u32)
    requires
        count_in_progress(old(context)@.tasks) <= u32::MAX,
    ensures
        count == count_in_progress(old(context)@.tasks),
        final(context)@ == advanced(old(context)@, todo_status@),
{
    let count = context.complete_current_task();
    let ghost mid = context@;
    let mut i: usize = 0;
    while i < context.tasks.len() && context.tasks[i].status != TaskStatus::Pending
        invariant
            i <= context.tasks.len(),
            context@ == mid,
            forall|j: int| 0 <= j < i ==> mid.tasks[j].status != TaskStatus::Pending,
        decreases context.tasks.len() - i,
    {
        i = i + 1;
    }
    proof { lemma_first_where(mid.tasks, has_status(TaskStatus::Pending), i as int); }
    if i < context.tasks.len() {
        let t = Task {
            id: context.tasks[i].id,
            description: context.tasks[i].description.clone(),
            status: TaskStatus::InProgress,
        };
        let ghost prev = context.tasks@;
        context.tasks.set(i, t);
        assert(task_views(context.tasks@) =~= task_views(prev).update(i as int, t@));
    }
    assert(context@.tasks == start_first_pending(mid.tasks));
    if !str_eq(todo_status, KEEP_STAGE) {
        context.set_stage(todo_status);
    }
    count
}


/// After a successful build at most one task is in progress (the first one
/// that was pending, if any); the tasks keep their ids, and the rest of the
/// context is unchanged but for the stage.
pub proof fn lemma_advanced_single_in_progress(c: TodoView, todo_status: Seq<char>)
    ensures
        count_in_progress(advanced(c, todo_status).tasks) <= 1,
        advanced(c, todo_status).tasks.len() == c.tasks.len(),
        forall|i: int| 0 <= i < c.tasks.len() ==> #[trigger] advanced(c, todo_status).tasks[i].id == c.tasks[i].id,
        advanced(c, todo_status).project_name == c.project_name,
{
    let m = completed_all(c.tasks);
    lemma_completion_leaves_none_in_progress(c.tasks);
    match first_with_status(m, TaskStatus::Pending) {
        Some(i) => {
            lemma_first_with_status_in_range(m, TaskStatus::Pending);
            lemma_count_update(m, i, TaskView { status: TaskStatus::InProgress, ..m[i] });
        },
        None => {},
    }
}

/// The index `first_with_status` gives lies within the tasks.
pub proof fn lemma_first_with_status_in_range(ts: Seq<TaskView>, s: TaskStatus)
    ensures
        first_with_status(ts, s) matches Some(i) ==> 0 <= i < ts.len() && ts[i].status == s,
{
    if exists|j: int| 0 <= j < ts.len() && has_status(s)(ts[j]) {
        let j = choose|j: int| 0 <= j < ts.len() && has_status(s)(ts[j]);
        lemma_first_where_some(ts, has_status(s), j);
    }
}

// ---------------------------------------------------------------------------
// The build-and-commit flow
// ---------------------------------------------------------------------------

/// A request to build code, with the metadata of its commit.
#[derive(Debug, Clone)]
pub struct BuildRequest {
    pub code: String,
    pub rule_id: String,
    pub rule_name: String,
    pub rule_description: String,
    pub todo_status: String,
    pub todo_description: String,
    pub pending_tasks: Vec<String>,
}

/// What the caller reports back.
#[derive(Debug)]
pub enum BuildEvent {
    /// Start the flow.
    Started,
    /// The context file is initialised; is the sandbox image available?
    DockerProbed(bool),
    /// The check in the Docker sandbox ran, or could not run (with why).
    DockerChecked(Result<DockerCheckResult, String>),
    /// The code was written to the sandbox crate, or not (with why).
    SandboxWritten(Result<(), String>),
    /// The local `cargo check` succeeded (its output) or failed (its output).
    LocalChecked(Result<String, String>),
    /// The tasks in the todo context were advanced; how many were completed.
    TasksCompleted(u32),
    /// The commit was made (its short hash), or not (with why).
    Committed(Result<String, String>),
    /// The todo-context document was written (whatever the outcome).
    DocumentUpdated,
}

/// What the caller has to do next.
#[derive(Debug, Clone)]
pub enum BuildAction {
    /// Initialise the context file if missing and probe the sandbox image.
    Prepare,
    /// Run `cargo check` on the code in the Docker sandbox.
    RunDockerCheck { code: String },
    /// Write the code to the sandbox crate.
    WriteSandbox { code: String },
    /// Run `cargo check` locally in the sandbox crate.
    RunLocalCheck,
    /// Advance the todo context with this todo status (see `advance_context`).
    CompleteTasks { todo_status: String },
    /// Commit all changes with this message.
    Commit { message: String },
    /// Write the todo-context document for this state.
    UpdateTodoDocument { todo: crate::commit::TodoContext },
    /// The build is over, with this result.
    Finish(BuildResult),
}

/// Where the flow stands.
#[derive(Debug, Clone, Copy, PartialEq, Eq, Structural)]
pub enum BuildPhase {
    Idle,
    Preparing,
    DockerChecking,
    Writing,
    LocalChecking,
    CompletingTasks,
    Committing,
    UpdatingDocument,
    Done,
}

/// Model of a sandbox check result.
pub struct CheckView {
    pub success: bool,
    pub output: Seq<char>,
}

/// Model of an event.
pub enum BuildEventView {
    Started,
    DockerProbed(bool),
    DockerChecked(Result<CheckView, Seq<char>>),
    SandboxWritten(Result<(), Seq<char>>),
    LocalChecked(Result<Seq<char>, Seq<char>>),
    TasksCompleted(u32),
    Committed(Result<Seq<char>, Seq<char>>),
    DocumentUpdated,
}

/// Model of an action.
pub enum BuildActionView {
    Prepare,
    RunDockerCheck { code: Seq<char> },
    WriteSandbox { code: Seq<char> },
    RunLocalCheck,
    CompleteTasks { todo_status: Seq<char> },
    Commit { message: Seq<char> },
    UpdateTodoDocument { todo: TodoStateView },
    Finish(BuildResultView),
}

/// The view of a result whose error is a string.
pub open spec fn result_view<T>(r: Result<T, String>, f: spec_fn(T) -> Seq<char>) -> Result<Seq<char>, Seq<char>> {
    match r {
        Ok(v) => Ok(f(v)),
        Err(e) => Err(e@),
    }
}

impl View for BuildEvent {
    type V = BuildEventView;

    open spec fn view(&self) -> BuildEventView {
        match self {
            BuildEvent::Started => BuildEventView::Started,
            BuildEvent::DockerProbed(b) => BuildEventView::DockerProbed(*b),
            BuildEvent::DockerChecked(r) => BuildEventView::DockerChecked(
                match r {
                    Ok(c) => Ok(CheckView { success: c.success, output: c.output@ }),
                    Err(e) => Err(e@),
                },
            ),
            BuildEvent::SandboxWritten(r) => BuildEventView::SandboxWritten(
                match r {
                    Ok(_) => Ok(()),
                    Err(e) => Err(e@),
                },
            ),
            BuildEvent::LocalChecked(r) => BuildEventView::LocalChecked(
                match r {
                    Ok(o) => Ok(o@),
                    Err(e) => Err(e@),
                },
            ),
            BuildEvent::TasksCompleted(n) => BuildEventView::TasksCompleted(*n),
            BuildEvent::Committed(r) => BuildEventView::Committed(
                match r {
                    Ok(h) => Ok(h@),
                    Err(e) => Err(e@),
                },
            ),
            BuildEvent::DocumentUpdated => BuildEventView::DocumentUpdated,
        }
    }
}

impl View for BuildAction {
    type V = BuildActionView;

    open spec fn view(&self) -> BuildActionView {
        match self {
            BuildAction::Prepare => BuildActionView::Prepare,
            BuildAction::RunDockerCheck { code } => BuildActionView::RunDockerCheck { code: code@ },
            BuildAction::WriteSandbox { code } => BuildActionView::WriteSandbox { code: code@ },
            BuildAction::RunLocalCheck => BuildActionView::RunLocalCheck,
            BuildAction::CompleteTasks { todo_status } => BuildActionView::CompleteTasks { todo_status: todo_status@ },
            BuildAction::Commit { message } => BuildActionView::Commit { message: message@ },
            BuildAction::UpdateTodoDocument { todo } => BuildActionView::UpdateTodoDocument { todo: todo@ },
            BuildAction::Finish(r) => BuildActionView::Finish(r@),
        }
    }
}

/// Model of the flow's state.
pub struct BuildModel {
    pub phase: BuildPhase,
    pub code: Seq<char>,
    pub rule_id: Seq<char>,
    pub rule_name: Seq<char>,
    pub rule_description: Seq<char>,
    pub todo_status: Seq<char>,
    pub todo_description: Seq<char>,
    pub pending: Seq<Seq<char>>,
    /// Why the Docker check could not run, when the flow fell back to a local check.
    pub fallback: Option<Seq<char>>,
    /// Has the code passed a compilation check?
    pub checked: bool,
    pub completed: u32,
    pub commit_message: Seq<char>,
    pub commit_hash: Option<Seq<char>>,
}

/// The fields of a flow, whatever state they describe.
struct FlowState {
    phase: BuildPhase,
    request: BuildRequest,
    fallback: Option<String>,
    checked: bool,
    completed: u32,
    commit_message: String,
    commit_hash: Option<String>,
}

impl View for FlowState {
    type V = BuildModel;

    closed spec fn view(&self) -> BuildModel {
        BuildModel {
            phase: self.phase,
            code: self.request.code@,
            rule_id: self.request.rule_id@,
            rule_name: self.request.rule_name@,
            rule_description: self.request.rule_description@,
            todo_status: self.request.todo_status@,
            todo_description: self.request.todo_description@,
            pending: string_views(self.request.pending_tasks@),
            fallback: opt_view(self.fallback),
            checked: self.checked,
            completed: self.completed,
            commit_message: self.commit_message@,
            commit_hash: opt_view(self.commit_hash),
        }
    }
}

/// Prefix of the message of code refused for network access.
pub const SECURITY: &'static str = "Seguretat: ";
/// Prefix of the message when the code could not be written.
pub const WRITE_ERROR: &'static str = "Error d'escriptura: ";
/// Prefix of the message when the local check failed.
pub const LOCAL_FAILED: &'static str = "Error en fallback local: ";
/// Message of a success in the Docker sandbox.
pub const DOCKER_OK: &'static str = "Compilació correcta — docker check ha passat sense errors.";
/// Prefix of the message of a success with the local check.
pub const LOCAL_OK: &'static str = "Compilació correcta (fallback local). Docker no disponible: ";

/// The flow before it starts.
pub open spec fn initial_build(
    code: Seq<char>,
    rule_id: Seq<char>,
    rule_name: Seq<char>,
    rule_description: Seq<char>,
    todo_status: Seq<char>,
    todo_description: Seq<char>,
    pending: Seq<Seq<char>>,
) -> BuildModel {
    BuildModel {
        phase: BuildPhase::Idle,
        code,
        rule_id,
        rule_name,
        rule_description,
        todo_status,
        todo_description,
        pending,
        fallback: None,
        checked: false,
        completed: 0,
        commit_message: Seq::empty(),
        commit_hash: None,
    }
}

/// Does the flow in phase `p` take event `e`?
pub open spec fn build_accepts(p: BuildPhase, e: BuildEventView) -> bool {
    match e {
        BuildEventView::Started => p == BuildPhase::Idle,
        BuildEventView::DockerProbed(_) => p == BuildPhase::Preparing,
        BuildEventView::DockerChecked(_) => p == BuildPhase::DockerChecking,
        BuildEventView::SandboxWritten(_) => p == BuildPhase::Writing,
        BuildEventView::LocalChecked(_) => p == BuildPhase::LocalChecking,
        BuildEventView::TasksCompleted(_) => p == BuildPhase::CompletingTasks,
        BuildEventView::Committed(_) => p == BuildPhase::Committing,
        BuildEventView::DocumentUpdated => p == BuildPhase::UpdatingDocument,
    }
}

/// The todo state a commit records.
pub open spec fn commit_todo(m: BuildModel) -> TodoStateView {
    TodoStateView { status: m.todo_status, description: m.todo_description, pending: m.pending }
}

/// The standardised commit message of the request: no test results.
pub open spec fn build_commit_message(m: BuildModel) -> Seq<char> {
    join(
        commit_lines(
            m.rule_id,
            m.rule_name,
            m.rule_description,
            TestResultsView { total: 0, passed: 0, failed: 0, details: Seq::empty() },
            commit_todo(m),
        ),
        seq!['\n'],
    )
}

/// A failed build: only a message.
pub open spec fn error_result(message: Seq<char>) -> BuildResultView {
    BuildResultView { status: Status::Error, message, commit_hash: None, commit_message: None, completed_tasks: None }
}

/// A successful build, with the commit (if it was made) and the tasks completed.
pub open spec fn success_result(m: BuildModel, hash: Option<Seq<char>>) -> BuildResultView {
    BuildResultView {
        status: Status::Success,
        message: match m.fallback {
            None => DOCKER_OK@,
            Some(e) => LOCAL_OK@ + e,
        },
        commit_hash: hash,
        commit_message: Some(m.commit_message),
        completed_tasks: Some(m.completed),
    }
}

/// One decision of the build-and-commit flow.
pub open spec fn build_step(m: BuildModel, e: BuildEventView) -> (BuildModel, BuildActionView) {
    let done = BuildModel { phase: BuildPhase::Done, ..m };
    match e {
        BuildEventView::Started => (BuildModel { phase: BuildPhase::Preparing, ..m }, BuildActionView::Prepare),
        BuildEventView::DockerProbed(available) => match first_network_keyword(m.code, 0) {
            Some(k) if available => (
                done,
                BuildActionView::Finish(error_result(SECURITY@ + NETWORK_DETECTED@ + k)),
            ),
            _ => (
                BuildModel { phase: BuildPhase::DockerChecking, ..m },
                BuildActionView::RunDockerCheck { code: m.code },
            ),
        },
        BuildEventView::DockerChecked(r) => match r {
            Ok(c) => if c.success {
                (
                    BuildModel { phase: BuildPhase::Writing, checked: true, ..m },
                    BuildActionView::WriteSandbox { code: m.code },
                )
            } else {
                (done, BuildActionView::Finish(error_result(c.output)))
            },
            Err(why) => (
                BuildModel { phase: BuildPhase::Writing, fallback: Some(why), ..m },
                BuildActionView::WriteSandbox { code: m.code },
            ),
        },
        BuildEventView::SandboxWritten(r) => match r {
            Err(why) => (done, BuildActionView::Finish(error_result(WRITE_ERROR@ + why))),
            Ok(_) => if m.fallback is Some {
                (BuildModel { phase: BuildPhase::LocalChecking, ..m }, BuildActionView::RunLocalCheck)
            } else {
                (
                    BuildModel { phase: BuildPhase::CompletingTasks, ..m },
                    BuildActionView::CompleteTasks { todo_status: m.todo_status },
                )
            },
        },
        BuildEventView::LocalChecked(r) => match r {
            Err(output) => (done, BuildActionView::Finish(error_result(LOCAL_FAILED@ + output))),
            Ok(_) => (
                BuildModel { phase: BuildPhase::CompletingTasks, checked: true, ..m },
                BuildActionView::CompleteTasks { todo_status: m.todo_status },
            ),
        },
        BuildEventView::TasksCompleted(n) => (
            BuildModel {
                phase: BuildPhase::Committing,
                completed: n,
                commit_message: build_commit_message(m),
                ..m
            },
            BuildActionView::Commit { message: build_commit_message(m) },
        ),
        BuildEventView::Committed(r) => match r {
            Ok(h) => (
                BuildModel { phase: BuildPhase::UpdatingDocument, commit_hash: Some(h), ..m },
                BuildActionView::UpdateTodoDocument { todo: commit_todo(m) },
            ),
            Err(_) => (done, BuildActionView::Finish(success_result(m, None))),
        },
        BuildEventView::DocumentUpdated => (done, BuildActionView::Finish(success_result(m, m.commit_hash))),
    }
}

impl FlowState {
    /// The fields of a flow for a build request.
    fn new(request: BuildRequest) -> (f: Self)
        ensures
            f@ == initial_build(
                request.code@,
                request.rule_id@,
                request.rule_name@,
                request.rule_description@,
                request.todo_status@,
                request.todo_description@,
                string_views(request.pending_tasks@),
            ),
    {
        FlowState {
            phase: BuildPhase::Idle,
            request,
            fallback: None,
            checked: false,
            completed: 0,
            commit_message: String::new(),
            commit_hash: None,
        }
    }

    /// The todo state the commit records.
    fn todo_state(&self) -> (t: crate::commit::TodoContext)
        ensures
            t@ == commit_todo(self@),
    {
        let mut t = crate::commit::TodoContext::new(self.request.todo_status.as_str(), self.request.todo_description.as_str());
        let mut i: usize = 0;
        assert(self@.pending.take(0) =~= Seq::<Seq<char>>::empty());
        while i < self.request.pending_tasks.len()
            invariant
                i <= self.request.pending_tasks.len(),
                t@ == (TodoStateView {
                    status: self@.todo_status,
                    description: self@.todo_description,
                    pending: self@.pending.take(i as int),
                }),
            decreases self.request.pending_tasks.len() - i,
        {
            t.add_pending(self.request.pending_tasks[i].as_str());
            assert(self@.pending.take(i + 1) =~= self@.pending.take(i as int).push(self@.pending[i as int]));
            i = i + 1;
        }
        assert(self@.pending.take(i as int) =~= self@.pending);
        t
    }

    /// The result of a successful build.
    fn success(&self, hash: Option<String>) -> (r: BuildResult)
        ensures
            r@ == success_result(self@, opt_view(hash)),
    {
        let message = match &self.fallback {
            None => owned(DOCKER_OK),
            Some(e) => {
                let mut m = owned(LOCAL_OK);
                push_str(&mut m, e.as_str());
                m
            },
        };
        BuildResult {
            status: Status::Success,
            message,
            commit_hash: hash,
            commit_message: Some(self.commit_message.clone()),
            completed_tasks: Some(self.completed),
        }
    }

    /// Takes what the last action gave and decides what comes next.
    fn step(self, event: BuildEvent) -> (r: (Self, BuildAction))
        requires
            build_accepts(self@.phase, event@),
        ensures
            (r.0@, r.1@) == build_step(self@, event@),
    {
        let mut this = self;
        match event {
            BuildEvent::Started => {
                this.phase = BuildPhase::Preparing;
                (this, BuildAction::Prepare)
            },
            BuildEvent::DockerProbed(available) => {
                if available {
                    match check_no_network_code(this.request.code.as_str()) {
                        Err(e) => {
                            let mut message = owned(SECURITY);
                            push_str(&mut message, e.as_str());
                            assert(first_network_keyword(this@.code, 0) matches Some(k)
                                && message@ =~= SECURITY@ + NETWORK_DETECTED@ + k);
                            this.phase = BuildPhase::Done;
                            return (this, BuildAction::Finish(BuildResult {
                                status: Status::Error,
                                message,
                                commit_hash: None,
                                commit_message: None,
                                completed_tasks: None,
                            }));
                        },
                        Ok(()) => {},
                    }
                }
                this.phase = BuildPhase::DockerChecking;
                let code = this.request.code.clone();
                (this, BuildAction::RunDockerCheck { code })
            },
            BuildEvent::DockerChecked(r) => {
                match r {
                    Ok(c) => {
                        if c.success {
                            this.phase = BuildPhase::Writing;
                            this.checked = true;
                            let code = this.request.code.clone();
                            (this, BuildAction::WriteSandbox { code })
                        } else {
                            this.phase = BuildPhase::Done;
                            (this, BuildAction::Finish(BuildResult {
                                status: Status::Error,
                                message: c.output,
                                commit_hash: None,
                                commit_message: None,
                                completed_tasks: None,
                            }))
                        }
                    },
                    Err(why) => {
                        this.phase = BuildPhase::Writing;
                        this.fallback = Some(why);
                        let code = this.request.code.clone();
                        (this, BuildAction::WriteSandbox { code })
                    },
                }
            },
            BuildEvent::SandboxWritten(r) => {
                match r {
                    Err(why) => {
                        let mut message = owned(WRITE_ERROR);
                        push_str(&mut message, why.as_str());
                        this.phase = BuildPhase::Done;
                        (this, BuildAction::Finish(BuildResult {
                            status: Status::Error,
                            message,
                            commit_hash: None,
                            commit_message: None,
                            completed_tasks: None,
                        }))
                    },
                    Ok(()) => {
                        if this.fallback.is_some() {
                            this.phase = BuildPhase::LocalChecking;
                            (this, BuildAction::RunLocalCheck)
                        } else {
                            this.phase = BuildPhase::CompletingTasks;
                            let todo_status = this.request.todo_status.clone();
                            (this, BuildAction::CompleteTasks { todo_status })
                        }
                    },
                }
            },
            BuildEvent::LocalChecked(r) => {
                match r {
                    Err(output) => {
                        let mut message = owned(LOCAL_FAILED);
                        push_str(&mut message, output.as_str());
                        this.phase = BuildPhase::Done;
                        (this, BuildAction::Finish(BuildResult {
                            status: Status::Error,
                            message,
                            commit_hash: None,
                            commit_message: None,
                            completed_tasks: None,
                        }))
                    },
                    Ok(_) => {
                        this.phase = BuildPhase::CompletingTasks;
                        this.checked = true;
                        let todo_status = this.request.todo_status.clone();
                        (this, BuildAction::CompleteTasks { todo_status })
                    },
                }
            },
            BuildEvent::TasksCompleted(n) => {
                let meta = CommitMetadata {
                    business_rule: BusinessRule {
                        id: this.request.rule_id.clone(),
                        name: this.request.rule_name.clone(),
                        description: this.request.rule_description.clone(),
                    },
                    test_results: TestResults::all_passed(0),
                    todo_context: this.todo_state(),
                };
                let message = generate_commit_message(&meta);
                this.phase = BuildPhase::Committing;
                this.completed = n;
                this.commit_message = message.clone();
                (this, BuildAction::Commit { message })
            },
            BuildEvent::Committed(r) => {
                match r {
                    Ok(h) => {
                        let todo = this.todo_state();
                        this.phase = BuildPhase::UpdatingDocument;
                        this.commit_hash = Some(h);
                        (this, BuildAction::UpdateTodoDocument { todo })
                    },
                    Err(_) => {
                        let result = this.success(None);
                        this.phase = BuildPhase::Done;
                        (this, BuildAction::Finish(result))
                    },
                }
            },
            BuildEvent::DocumentUpdated => {
                let result = this.success(this.commit_hash.clone());
                this.phase = BuildPhase::Done;
                (this, BuildAction::Finish(result))
            },
        }
    }
}

/// Two states of a flow for the same request: the code and the metadata of
/// its commit (so every commit message of a run is that of its request).
pub open spec fn same_request(a: BuildModel, b: BuildModel) -> bool {
    &&& a.code == b.code
    &&& a.rule_id == b.rule_id
    &&& a.rule_name == b.rule_name
    &&& a.rule_description == b.rule_description
    &&& a.todo_status == b.todo_status
    &&& a.todo_description == b.todo_description
    &&& a.pending == b.pending
}

/// The state of one build-and-commit. Every flow satisfies `build_inv`: it
/// starts in a state that does, and every step keeps it.
pub struct BuildFlow {
    state: FlowState,
}

impl View for BuildFlow {
    type V = BuildModel;

    closed spec fn view(&self) -> BuildModel {
        self.state@
    }
}

impl BuildFlow {
    /// Every flow's state satisfies the invariant of the flow.
    #[verifier::type_invariant]
    spec fn wf(self) -> bool {
        build_inv(self.state@)
    }

    /// A flow for a build request.
    pub fn new(request: BuildRequest) -> (f: Self)
        ensures
            f@ == initial_build(
                request.code@,
                request.rule_id@,
                request.rule_name@,
                request.rule_description@,
                request.todo_status@,
                request.todo_description@,
                string_views(request.pending_tasks@),
            ),
    {
        let state = FlowState::new(request);
        proof {
            lemma_initial_build_inv(
                state@.code,
                state@.rule_id,
                state@.rule_name,
                state@.rule_description,
                state@.todo_status,
                state@.todo_description,
                state@.pending,
            );
        }
        BuildFlow { state }
    }

    /// The phase of the flow.
    pub fn phase(&self) -> (p: BuildPhase)
        ensures
            p == self@.phase,
    {
        self.state.phase
    }

    /// Takes what the last action gave and decides what comes next. Of every
    /// flow: it moves forward; it commits, and reports a success, only once
    /// the code passed a check, with the standardised message of its request;
    /// a failure carries no commit and completes no task; and code with a
    /// marker of network access is refused before any check when the sandbox
    /// image is available.
    pub fn step(self, event: BuildEvent) -> (r: (Self, BuildAction))
        requires
            build_accepts(self@.phase, event@),
        ensures
            (r.0@, r.1@) == build_step(self@, event@),
            same_request(r.0@, self@),
            phase_rank(r.0@.phase) > phase_rank(self@.phase),
            r.1@ is Commit ==> r.0@.checked,
            r.1@ matches BuildActionView::Commit { message } ==> message == build_commit_message(self@),
            r.1@ matches BuildActionView::Finish(res) ==> {
                &&& r.0@.phase == BuildPhase::Done
                &&& res.status == Status::Success ==> self@.checked && res.commit_message == Some(
                    build_commit_message(self@),
                ) && res.completed_tasks is Some
                &&& res.status == Status::Error ==> res.commit_hash is None && res.commit_message is None
                    && res.completed_tasks is None
            },
            (event@ == BuildEventView::DockerProbed(true) && first_network_keyword(self@.code, 0) is Some) ==> (
            r.1@ matches BuildActionView::Finish(res) && res.status == Status::Error),
    {
        proof {
            use_type_invariant(&self);
            lemma_build_step(self@, event@);
        }
        let (state, action) = self.state.step(event);
        (BuildFlow { state }, action)
    }
}

// ---------------------------------------------------------------------------
// Laws of the build-and-commit flow
// ---------------------------------------------------------------------------

/// The position of a phase in the flow; every step moves forward.
pub open spec fn phase_rank(p: BuildPhase) -> int {
    match p {
        BuildPhase::Idle => 0,
        BuildPhase::Preparing => 1,
        BuildPhase::DockerChecking => 2,
        BuildPhase::Writing => 3,
        BuildPhase::LocalChecking => 4,
        BuildPhase::CompletingTasks => 5,
        BuildPhase::Committing => 6,
        BuildPhase::UpdatingDocument => 7,
        BuildPhase::Done => 8,
    }
}

/// What holds of every state the flow reaches from its initial state.
pub open spec fn build_inv(m: BuildModel) -> bool {
    &&& (m.phase == BuildPhase::CompletingTasks || m.phase == BuildPhase::Committing
        || m.phase == BuildPhase::UpdatingDocument) ==> m.checked
    &&& (m.phase == BuildPhase::Committing || m.phase == BuildPhase::UpdatingDocument)
        ==> m.commit_message == build_commit_message(m)
    &&& m.phase == BuildPhase::LocalChecking ==> m.fallback is Some
    &&& (m.phase == BuildPhase::Writing && m.fallback is None) ==> m.checked
    &&& (m.phase == BuildPhase::Idle || m.phase == BuildPhase::Preparing || m.phase == BuildPhase::DockerChecking)
        ==> !m.checked && m.fallback is None
}

/// A new flow satisfies the invariant.
pub proof fn lemma_initial_build_inv(
    code: Seq<char>,
    rule_id: Seq<char>,
    rule_name: Seq<char>,
    rule_description: Seq<char>,
    todo_status: Seq<char>,
    todo_description: Seq<char>,
    pending: Seq<Seq<char>>,
)
    ensures
        build_inv(initial_build(code, rule_id, rule_name, rule_description, todo_status, todo_description, pending)),
{
}

/// Every step of the flow keeps its invariant and moves it forward (so it
/// ends within eight steps); code with a marker of network access is refused
/// before any check when the sandbox image is available; no commit is made, and no success reported,
/// unless the code passed a compilation check; every success carries the
/// standardised commit message of its request; and a failure carries no
/// commit and completes no task.
pub proof fn lemma_build_step(m: BuildModel, e: BuildEventView)
    requires
        build_inv(m),
        build_accepts(m.phase, e),
    ensures
        build_inv(build_step(m, e).0),
        phase_rank(build_step(m, e).0.phase) > phase_rank(m.phase),
        build_step(m, e).1 is Commit ==> build_step(m, e).0.checked,
        (e == BuildEventView::DockerProbed(true) && first_network_keyword(m.code, 0) is Some) ==> (build_step(
            m,
            e,
        ).1 matches BuildActionView::Finish(r) && r.status == Status::Error),
        build_step(m, e).1 matches BuildActionView::Commit { message } ==> message == build_commit_message(m),
        build_step(m, e).1 matches BuildActionView::Finish(r) ==> {
            &&& build_step(m, e).0.phase == BuildPhase::Done
            &&& r.status == Status::Success ==> m.checked && r.commit_message == Some(build_commit_message(m))
                && r.completed_tasks is Some
            &&& r.status == Status::Error ==> r.commit_hash is None && r.commit_message is None
                && r.completed_tasks is None
        },
{
}

// ---------------------------------------------------------------------------
// Requests read from standard input
// ---------------------------------------------------------------------------

/// The rule description of plain code read from standard input.
pub const STDIN_RULE_DESCRIPTION: &'static str = "Codi enviat via stdin sense metadades de regla de negoci";
/// The todo description of plain code read from standard input.
pub const STDIN_TODO_DESCRIPTION: &'static str = "Compilació via stdin";
/// Opening of the message about input that is not valid JSON.
pub const INVALID_JSON: &'static str = "JSON invàlid: ";
/// Closing of the message about input that is not valid JSON.
pub const INVALID_JSON_TAIL: &'static str = ". Intentant com a codi simple...";

/// What standard input holds once trimmed: a JSON build request (text that
/// starts with '{'), or plain code to build with the default metadata.
#[derive(Debug)]
pub enum ConsoleInput {
    Json(String),
    Plain(BuildRequest),
}

/// Reads the text given on standard input: trimmed, a JSON request when it
/// starts with '{', else plain code with the metadata of a request from
/// standard input.
pub fn console_input(input: &str) -> (r: ConsoleInput)
    ensures
        starts_with(trim(input@), seq!['{']) ==> (r matches ConsoleInput::Json(t) && t@ == trim(input@)),
        !starts_with(trim(input@), seq!['{']) ==> (r matches ConsoleInput::Plain(q)
            && q.code@ == trim(input@)
            && q.rule_id@ == DEFAULT_RULE_ID@
            && q.rule_name@ == DEFAULT_RULE_NAME@
            && q.rule_description@ == STDIN_RULE_DESCRIPTION@
            && q.todo_status@ == DEFAULT_TODO_STATUS@
            && q.todo_description@ == STDIN_TODO_DESCRIPTION@
            && q.pending_tasks@.len() == 0),
{
    let text = trimmed(input);
    let v = chars_of(text.as_str());
    proof {
        if v@.len() > 0 {
            assert(v@.subrange(0, 1) =~= seq![v@[0]]);
        }
        if starts_with(v@, seq!['{']) {
            assert(v@.subrange(0, 1)[0] == v@[0]);
        }
    }
    if v.len() > 0 && v[0] == '{' {
        ConsoleInput::Json(text)
    } else {
        ConsoleInput::Plain(BuildRequest {
            code: text,
            rule_id: owned(DEFAULT_RULE_ID),
            rule_name: owned(DEFAULT_RULE_NAME),
            rule_description: owned(STDIN_RULE_DESCRIPTION),
            todo_status: owned(DEFAULT_TODO_STATUS),
            todo_description: owned(STDIN_TODO_DESCRIPTION),
            pending_tasks: Vec::new(),
        })
    }
}

/// The failed build answered for input that looked like JSON but did not
/// parse, with the parser's message.
pub fn invalid_json_result(error: &str) -> (r: BuildResult)
    ensures
        r@ == error_result(INVALID_JSON@ + error@ + INVALID_JSON_TAIL@),
{
    let mut message = owned(INVALID_JSON);
    push_str(&mut message, error);
    push_str(&mut message, INVALID_JSON_TAIL);
    BuildResult { status: Status::Error, message, commit_hash: None, commit_message: None, completed_tasks: None }
}

} // verus!
