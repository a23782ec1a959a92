//! The project's todo context: the tasks and the current stage, the one
//! source of truth about the state of the project.
use vstd::prelude::*;
use crate::text::{join_path, joined_path, owned, str_eq};

verus! {

/// State of a task.
#[derive(Debug, Clone, Copy, PartialEq, Eq, Structural)]
pub enum TaskStatus {
    Pending,
    InProgress,
    Completed,
    /// The task's code could not be made to compile within the attempts allowed.
    Failed,
}

impl TaskStatus {
    /// Is the task completed?
    pub fn is_completed(&self) -> (r: bool)
        ensures
            r == (*self == TaskStatus::Completed),
    {
        match self {
            TaskStatus::Completed => true,
            _ => false,
        }
    }

    /// Is the task in progress?
    pub fn is_in_progress(&self) -> (r: bool)
        ensures
            r == (*self == TaskStatus::InProgress),
    {
        match self {
            TaskStatus::InProgress => true,
            _ => false,
        }
    }
}

/// One task of the project.
#[derive(Debug, Clone)]
pub struct Task {
    pub id: u32,
    pub description: String,
    pub status: TaskStatus,
}

/// The model of a task.
pub struct TaskView {
    pub id: u32,
    pub description: Seq<char>,
    pub status: TaskStatus,
}

impl View for Task {
    type V = TaskView;

    open spec fn view(&self) -> TaskView {
        TaskView { id: self.id, description: self.description@, status: self.status }
    }
}

/// The whole context of the project.
#[derive(Debug, Clone)]
pub struct TodoContext {
    pub project_name: String,
    pub current_stage: String,
    pub tasks: Vec<Task>,
}

/// The model of the context.
pub struct TodoView {
    pub project_name: Seq<char>,
    pub current_stage: Seq<char>,
    pub tasks: Seq<TaskView>,
}

/// The models of a sequence of tasks.
pub open spec fn task_views(ts: Seq<Task>) -> Seq<TaskView> {
    ts.map_values(|t: Task| t@)
}

impl View for TodoContext {
    type V = TodoView;

    open spec fn view(&self) -> TodoView {
        TodoView {
            project_name: self.project_name@,
            current_stage: self.current_stage@,
            tasks: task_views(self.tasks@),
        }
    }
}

/// The stage of a new context.
pub const INITIAL_STAGE: &'static str = "Dev";
/// The project name of a context created when none exists.
pub const DEFAULT_PROJECT: &'static str = "Aether Code";
/// The stage value that leaves the current stage unchanged.
pub const KEEP_STAGE: &'static str = "in-progress";

/// The largest task id, 0 when there are no tasks.
pub open spec fn max_id(ts: Seq<TaskView>) -> nat
    decreases ts.len(),
{
    if ts.len() == 0 {
        0
    } else {
        let m = max_id(ts.drop_last());
        if ts.last().id as nat > m { ts.last().id as nat } else { m }
    }
}

/// The number of tasks in progress.
pub open spec fn count_in_progress(ts: Seq<TaskView>) -> nat
    decreases ts.len(),
{
    if ts.len() == 0 {
        0
    } else {
        count_in_progress(ts.drop_last()) + if ts.last().status == TaskStatus::InProgress { 1nat } else { 0nat }
    }
}

/// A task in progress becomes completed; the others stay as they are.
pub open spec fn completed_if_in_progress(t: TaskView) -> TaskView {
    if t.status == TaskStatus::InProgress {
        TaskView { status: TaskStatus::Completed, ..t }
    } else {
        t
    }
}

/// The index of the first task that satisfies `p`.
pub open spec fn first_where(ts: Seq<TaskView>, p: spec_fn(TaskView) -> bool) -> Option<int> {
    if exists|i: int| 0 <= i < ts.len() && p(ts[i]) {
        Some(choose|i: int| 0 <= i < ts.len() && p(ts[i]) && forall|j: int| 0 <= j < i ==> !p(ts[j]))
    } else {
        None
    }
}

/// The tasks with status `s`.
pub open spec fn has_status(s: TaskStatus) -> spec_fn(TaskView) -> bool {
    |t: TaskView| t.status == s
}

/// The tasks with id `id`.
pub open spec fn has_id(id: u32) -> spec_fn(TaskView) -> bool {
    |t: TaskView| t.id == id
}

/// The index of the first task with status `s`.
pub open spec fn first_with_status(ts: Seq<TaskView>, s: TaskStatus) -> Option<int> {
    first_where(ts, has_status(s))
}

/// The index of the first task with id `id`.
pub open spec fn first_with_id(ts: Seq<TaskView>, id: u32) -> Option<int> {
    first_where(ts, has_id(id))
}

/// `max_id` bounds every id and is one of them (or 0).
pub proof fn lemma_max_id(ts: Seq<TaskView>)
    ensures
        forall|i: int| 0 <= i < ts.len() ==> ts[i].id <= max_id(ts),
        max_id(ts) <= u32::MAX,
    decreases ts.len(),
{
    if ts.len() > 0 {
        lemma_max_id(ts.drop_last());
        assert forall|i: int| 0 <= i < ts.len() implies ts[i].id <= max_id(ts) by {
            if i < ts.len() - 1 {
                assert(ts.drop_last()[i] == ts[i]);
            }
        }
    }
}

/// `first_where` is the first index that satisfies `p`: if none of the
/// first `k` do and `k` does (or `k` is the length), it is `k` (or none).
pub proof fn lemma_first_where(ts: Seq<TaskView>, p: spec_fn(TaskView) -> bool, k: int)
    requires
        0 <= k <= ts.len(),
        forall|j: int| 0 <= j < k ==> !p(ts[j]),
        k < ts.len() ==> p(ts[k]),
    ensures
        first_where(ts, p) == if k < ts.len() { Some(k) } else { None::<int> },
{
    if k < ts.len() {
        assert(0 <= k < ts.len() && p(ts[k]) && forall|j: int| 0 <= j < k ==> !p(ts[j]));
        let i = choose|i: int| 0 <= i < ts.len() && p(ts[i]) && forall|j: int| 0 <= j < i ==> !p(ts[j]);
        if i < k {
        } else if i > k {
        }
    }
}

/// When some task satisfies `p` (the one at `j`, say), `first_where` is the
/// first one that does, at or before `j`.
pub proof fn lemma_first_where_some(ts: Seq<TaskView>, p: spec_fn(TaskView) -> bool, j: int)
    requires
        0 <= j < ts.len(),
        p(ts[j]),
    ensures
        first_where(ts, p) matches Some(i) && 0 <= i <= j && p(ts[i]) && forall|k: int| 0 <= k < i ==> !p(ts[k]),
    decreases j,
{
    if exists|k: int| 0 <= k < j && p(ts[k]) {
        let k = choose|k: int| 0 <= k < j && p(ts[k]);
        lemma_first_where_some(ts, p, k);
    } else {
        lemma_first_where(ts, p, j);
    }
}

/// The largest id of the tasks, 0 when there are none.
pub fn max_task_id(tasks: &Vec<Task>) -> (m: u32)
    ensures
        m == max_id(task_views(tasks@)),
        forall|i: int| 0 <= i < tasks@.len() ==> tasks@[i].id <= m,
{
    proof { lemma_max_id(task_views(tasks@)); }
    let mut m: u32 = 0;
    let mut i: usize = 0;
    while i < tasks.len()
        invariant
            i <= tasks.len(),
            m == max_id(task_views(tasks@).take(i as int)),
        decreases tasks.len() - i,
    {
        assert(task_views(tasks@).take(i + 1).drop_last() =~= task_views(tasks@).take(i as int));
        if tasks[i].id > m {
            m = tasks[i].id;
        }
        i = i + 1;
    }
    assert(task_views(tasks@).take(tasks.len() as int) =~= task_views(tasks@));
    assert forall|i: int| 0 <= i < tasks@.len() implies tasks@[i].id <= m by {
        assert(task_views(tasks@)[i].id == tasks@[i].id);
    }
    m
}

impl TodoContext {
    /// An empty context for a project, at stage "Dev".
    pub fn new(project_name: &str) -> (c: Self)
        ensures
            c@.project_name == project_name@,
            c@.current_stage == INITIAL_STAGE@,
            c@.tasks.len() == 0,
    {
        let c = TodoContext { project_name: owned(project_name), current_stage: owned(INITIAL_STAGE), tasks: Vec::new() };
        assert(c@.tasks =~= Seq::<TaskView>::empty());
        c
    }

    /// Adds a pending task with the next id (one more than the largest one)
    /// and returns that id.
    pub fn add_task(&mut self, description: &str) -> (id: u32)
        requires
            max_id(old(self)@.tasks) < u32::MAX,
        ensures
            id == max_id(old(self)@.tasks) + 1,
            forall|i: int| 0 <= i < old(self)@.tasks.len() ==> old(self)@.tasks[i].id < id,
            final(self)@ == (TodoView {
                tasks: old(self)@.tasks.push(TaskView { id, description: description@, status: TaskStatus::Pending }),
                ..old(self)@
            }),
    {
        let m = max_task_id(&self.tasks);
        let new_id = m + 1;
        let ghost before = self.tasks@;
        self.tasks.push(Task { id: new_id, description: owned(description), status: TaskStatus::Pending });
        assert(task_views(self.tasks@) =~= task_views(before).push(self.tasks@.last()@));
        new_id
    }

    /// Changes the current stage (Architect, Analyst, QA, Dev).
    pub fn set_stage(&mut self, stage: &str)
        ensures
            final(self)@ == (TodoView { current_stage: stage@, ..old(self)@ }),
    {
        self.current_stage = owned(stage);
    }

    /// Marks every task in progress as completed; returns how many changed.
    pub fn complete_current_task(&mut self) -> (count: u32)
        requires
            count_in_progress(old(self)@.tasks) <= u32::MAX,
        ensures
            count == count_in_progress(old(self)@.tasks),
            final(self)@ == (TodoView {
                tasks: old(self)@.tasks.map_values(|t: TaskView| completed_if_in_progress(t)),
                ..old(self)@
            }),
    {
        let ghost orig = task_views(self.tasks@);
        let mut count: u32 = 0;
        let mut i: usize = 0;
        while i < self.tasks.len()
            invariant
                i <= self.tasks.len(),
                orig.len() == self.tasks.len(),
                count_in_progress(orig) <= u32::MAX,
                count == count_in_progress(orig.take(i as int)),
                forall|k: int| 0 <= k < i ==> task_views(self.tasks@)[k] == completed_if_in_progress(orig[k]),
                forall|k: int| i <= k < self.tasks.len() ==> task_views(self.tasks@)[k] == orig[k],
                self.project_name == old(self).project_name,
                self.current_stage == old(self).current_stage,
            decreases self.tasks.len() - i,
        {
            assert(orig.take(i + 1).drop_last() =~= orig.take(i as int));
            proof { lemma_count_prefix_bound(orig, i as int + 1); }
            let ghost prev = self.tasks@;
            assert(task_views(prev)[i as int] == orig[i as int]);
            if self.tasks[i].status == TaskStatus::InProgress {
                let t = Task {
                    id: self.tasks[i].id,
                    description: self.tasks[i].description.clone(),
                    status: TaskStatus::Completed,
                };
                self.tasks.set(i, t);
                count = count + 1;
            }
            assert forall|k: int| 0 <= k < i + 1 implies task_views(self.tasks@)[k] == completed_if_in_progress(orig[k]) by {
                if k < i {
                    assert(self.tasks@[k] == prev[k]);
                    assert(task_views(prev)[k] == completed_if_in_progress(orig[k]));
                }
            }
            assert forall|k: int| i + 1 <= k < self.tasks.len() implies task_views(self.tasks@)[k] == orig[k] by {
                assert(self.tasks@[k] == prev[k]);
            }
            i = i + 1;
        }
        assert(orig.take(i as int) =~= orig);
        assert(task_views(self.tasks@) =~= orig.map_values(|t: TaskView| completed_if_in_progress(t)));
        count
    }

    /// The first task in progress, if any.
    pub fn get_current_task(&self) -> (r: Option<&Task>)
        ensures
            match first_with_status(self@.tasks, TaskStatus::InProgress) {
                Some(i) => r matches Some(t) && t@ == self@.tasks[i],
                None => r is None,
            },
    {
        let mut i: usize = 0;
        while i < self.tasks.len()
            invariant
                i <= self.tasks.len(),
                forall|j: int| 0 <= j < i ==> self@.tasks[j].status != TaskStatus::InProgress,
            decreases self.tasks.len() - i,
        {
            if self.tasks[i].status == TaskStatus::InProgress {
                proof { lemma_first_where(self@.tasks, has_status(TaskStatus::InProgress), i as int); }
                return Some(&self.tasks[i]);
            }
            i = i + 1;
        }
        proof { lemma_first_where(self@.tasks, has_status(TaskStatus::InProgress), i as int); }
        None
    }
}

/// Counting over a prefix never exceeds counting over the whole.
pub proof fn lemma_count_prefix_bound(ts: Seq<TaskView>, n: int)
    requires
        0 <= n <= ts.len(),
    ensures
        count_in_progress(ts.take(n)) <= count_in_progress(ts),
    decreases ts.len() - n,
{
    if n < ts.len() {
        lemma_count_prefix_bound(ts, n + 1);
        assert(ts.take(n + 1).drop_last() =~= ts.take(n));
    } else {
        assert(ts.take(n) =~= ts);
    }
}

/// The name of the context file at the root of a repository.
pub const CONTEXT_FILE: &'static str = "todo-context.json";

/// The path of the context file of the repository at `repo_path`.
pub fn context_path(repo_path: &str) -> (p: String)
    ensures
        p@ == joined_path(repo_path@, CONTEXT_FILE@),
{
    join_path(repo_path, CONTEXT_FILE)
}

/// The context to create when the project has none yet: `None` when one
/// exists already.
pub fn init_context_if_missing(exists: bool) -> (c: Option<TodoContext>)
    ensures
        exists ==> c is None,
        !exists ==> (c matches Some(ctx) && ctx@.project_name == DEFAULT_PROJECT@
            && ctx@.current_stage == INITIAL_STAGE@ && ctx@.tasks.len() == 0),
{
    if exists {
        None
    } else {
        Some(TodoContext::new(DEFAULT_PROJECT))
    }
}

/// Completing the tasks in progress leaves none in progress; every task keeps
/// its id and description, and only the tasks in progress change.
pub proof fn lemma_completion_leaves_none_in_progress(ts: Seq<TaskView>)
    ensures
        count_in_progress(completed_all(ts)) == 0,
        completed_all(ts).len() == ts.len(),
        forall|i: int| 0 <= i < ts.len() ==> (#[trigger] completed_all(ts)[i]).status != TaskStatus::InProgress
            && completed_all(ts)[i].id == ts[i].id && completed_all(ts)[i].description == ts[i].description
            && (ts[i].status != TaskStatus::InProgress ==> completed_all(ts)[i] == ts[i]),
    decreases ts.len(),
{
    if ts.len() > 0 {
        lemma_completion_leaves_none_in_progress(ts.drop_last());
        assert(completed_all(ts).drop_last() =~= completed_all(ts.drop_last()));
    }
}

/// Every task in progress completed, the others as they were.
pub open spec fn completed_all(ts: Seq<TaskView>) -> Seq<TaskView> {
    ts.map_values(|t: TaskView| completed_if_in_progress(t))
}

/// Once the tasks in progress are completed there is no current task.
pub proof fn lemma_completed_has_no_current(ts: Seq<TaskView>)
    ensures
        first_with_status(completed_all(ts), TaskStatus::InProgress) is None,
{
    lemma_completion_leaves_none_in_progress(ts);
    assert(!exists|i: int| 0 <= i < completed_all(ts).len() && has_status(TaskStatus::InProgress)(completed_all(ts)[i]));
}

/// The id that `add_task` gives is new: no task has it.
pub proof fn lemma_next_id_fresh(ts: Seq<TaskView>)
    ensures
        forall|i: int| 0 <= i < ts.len() ==> ts[i].id != max_id(ts) + 1,
{
    lemma_max_id(ts);
}

/// Replacing one task changes the count of tasks in progress by at most the one replaced.
pub proof fn lemma_count_update(ts: Seq<TaskView>, i: int, t: TaskView)
    requires
        0 <= i < ts.len(),
    ensures
        count_in_progress(ts.update(i, t)) + (if ts[i].status == TaskStatus::InProgress { 1int } else { 0int })
            == count_in_progress(ts) + (if t.status == TaskStatus::InProgress { 1int } else { 0int }),
    decreases ts.len(),
{
    let u = ts.update(i, t);
    if i == ts.len() - 1 {
        assert(u.drop_last() =~= ts.drop_last());
    } else {
        lemma_count_update(ts.drop_last(), i, t);
        assert(u.drop_last() =~= ts.drop_last().update(i, t));
    }
}

} // verus!
