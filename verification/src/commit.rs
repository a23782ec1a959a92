//! Standardised commit messages: each commit records the business rule it
//! implements, the test results and the state of the todo context; and the
//! todo-context document written beside the code.
use vstd::prelude::*;
use crate::command::{CommandOutcome, OutcomeView};
use crate::text::{contains, lemma_join_contains, lemma_join_contains_run, lemma_join_starts, starts_with, decimal, join, join_strings, owned, push_decimal, push_str, string_views, trim, trimmed, chars_of, string_from};

verus! {

/// Results of a test run.
#[derive(Debug, Clone)]
pub struct TestResults {
    pub total: u32,
    pub passed: u32,
    pub failed: u32,
    pub details: Vec<String>,
}

/// Model of test results.
pub struct TestResultsView {
    pub total: u32,
    pub passed: u32,
    pub failed: u32,
    pub details: Seq<Seq<char>>,
}

impl View for TestResults {
    type V = TestResultsView;

    open spec fn view(&self) -> TestResultsView {
        TestResultsView {
            total: self.total,
            passed: self.passed,
            failed: self.failed,
            details: string_views(self.details@),
        }
    }
}

/// Between the passed and the failed count of a summary.
pub const PASSED_SEP: &'static str = " passed, ";
/// After the failed count of a summary.
pub const FAILED_TAIL: &'static str = " failed";

/// "<passed> passed, <failed> failed".
pub open spec fn summary_text(passed: u32, failed: u32) -> Seq<char> {
    decimal(passed as nat) + PASSED_SEP@ + decimal(failed as nat) + FAILED_TAIL@
}

impl TestResults {
    /// A run of `total` tests that all passed.
    pub fn all_passed(total: u32) -> (r: Self)
        ensures
            r@ == (TestResultsView { total, passed: total, failed: 0, details: Seq::empty() }),
    {
        let r = TestResults { total, passed: total, failed: 0, details: Vec::new() };
        assert(r@.details =~= Seq::<Seq<char>>::empty());
        r
    }

    /// A run of `total` tests of which `failed` failed, with their details.
    pub fn with_failures(total: u32, failed: u32, details: Vec<String>) -> (r: Self)
        requires
            failed <= total,
        ensures
            r@ == (TestResultsView { total, passed: (total - failed) as u32, failed, details: string_views(details@) }),
    {
        TestResults { total, passed: total - failed, failed, details }
    }

    /// "<passed> passed, <failed> failed".
    pub fn summary(&self) -> (s: String)
        ensures
            s@ == summary_text(self.passed, self.failed),
    {
        let mut s = String::new();
        push_decimal(&mut s, self.passed as u64);
        push_str(&mut s, PASSED_SEP);
        push_decimal(&mut s, self.failed as u64);
        push_str(&mut s, FAILED_TAIL);
        s
    }
}

/// State of the todo context recorded in a commit.
#[derive(Debug, Clone)]
pub struct TodoContext {
    pub status: String,
    pub description: String,
    pub pending: Vec<String>,
}

/// Model of the recorded todo context.
pub struct TodoStateView {
    pub status: Seq<char>,
    pub description: Seq<char>,
    pub pending: Seq<Seq<char>>,
}

impl View for TodoContext {
    type V = TodoStateView;

    open spec fn view(&self) -> TodoStateView {
        TodoStateView { status: self.status@, description: self.description@, pending: string_views(self.pending@) }
    }
}

/// "[<status>] <description>".
pub open spec fn short_text(status: Seq<char>, description: Seq<char>) -> Seq<char> {
    seq!['['] + status + seq![']', ' '] + description
}

impl TodoContext {
    /// A todo state with no pending tasks.
    pub fn new(status: &str, description: &str) -> (t: Self)
        ensures
            t@ == (TodoStateView { status: status@, description: description@, pending: Seq::empty() }),
    {
        let t = TodoContext { status: owned(status), description: owned(description), pending: Vec::new() };
        assert(t@.pending =~= Seq::<Seq<char>>::empty());
        t
    }

    /// Appends a pending task.
    pub fn add_pending(&mut self, task: &str)
        ensures
            final(self)@ == (TodoStateView { pending: old(self)@.pending.push(task@), ..old(self)@ }),
    {
        let ghost before = self.pending@;
        self.pending.push(owned(task));
        assert(string_views(self.pending@) =~= string_views(before).push(task@));
    }

    /// "[<status>] <description>".
    pub fn short(&self) -> (s: String)
        ensures
            s@ == short_text(self.status@, self.description@),
    {
        let mut s = String::new();
        s.push('[');
        push_str(&mut s, self.status.as_str());
        s.push(']');
        s.push(' ');
        push_str(&mut s, self.description.as_str());
        assert(s@ =~= short_text(self.status@, self.description@));
        s
    }
}

/// A business rule that a commit implements.
#[derive(Debug, Clone)]
pub struct BusinessRule {
    pub id: String,
    pub name: String,
    pub description: String,
}

/// Everything a commit message records.
#[derive(Debug, Clone)]
pub struct CommitMetadata {
    pub business_rule: BusinessRule,
    pub test_results: TestResults,
    pub todo_context: TodoContext,
}

/// Opening of the subject line.
pub const SUBJECT_HEAD: &'static str = "feat: [";
/// Between the rule id and its name.
pub const SUBJECT_ID_END: &'static str = "] ";
/// Between the rule name and its description.
pub const SUBJECT_DASH: &'static str = " — ";
/// Label of the test summary line.
pub const TESTS_LABEL: &'static str = "Tests: ";
/// Heading of the test details.
pub const TEST_DETAILS: &'static str = "Test details:";
/// Bullet of a test detail.
pub const DETAIL_BULLET: &'static str = "  - ";
/// Label of the todo-context line.
pub const TODO_LABEL: &'static str = "Todo-Context: ";
/// Heading of the pending tasks.
pub const PENDING_TASKS: &'static str = "Pending tasks:";
/// Indentation of a numbered pending task.
pub const PENDING_INDENT: &'static str = "  ";
/// After the number of a pending task.
pub const NUMBER_DOT: &'static str = ". ";

/// The numbered lines "  <i+1>. <task>" of the pending tasks.
pub open spec fn pending_lines(pending: Seq<Seq<char>>) -> Seq<Seq<char>> {
    pending.map(|i: int, t: Seq<char>| PENDING_INDENT@ + decimal((i + 1) as nat) + NUMBER_DOT@ + t)
}

/// The lines of the commit message.
pub open spec fn commit_lines(
    rule_id: Seq<char>,
    rule_name: Seq<char>,
    rule_description: Seq<char>,
    tests: TestResultsView,
    todo: TodoStateView,
) -> Seq<Seq<char>> {
    let head = seq![
        SUBJECT_HEAD@ + rule_id + SUBJECT_ID_END@ + rule_name + SUBJECT_DASH@ + rule_description,
        Seq::empty(),
        TESTS_LABEL@ + summary_text(tests.passed, tests.failed),
    ];
    let details = if tests.details.len() == 0 {
        Seq::empty()
    } else {
        seq![Seq::empty(), TEST_DETAILS@] + tests.details.map_values(|d: Seq<char>| DETAIL_BULLET@ + d)
    };
    let context = seq![Seq::empty(), TODO_LABEL@ + short_text(todo.status, todo.description)];
    let pending = if todo.pending.len() == 0 {
        Seq::empty()
    } else {
        seq![Seq::empty(), PENDING_TASKS@] + pending_lines(todo.pending)
    };
    head + details + context + pending
}

/// The commit message of `meta`: its lines joined by line breaks.
pub open spec fn commit_message(meta: CommitMetadata) -> Seq<char> {
    join(
        commit_lines(
            meta.business_rule.id@,
            meta.business_rule.name@,
            meta.business_rule.description@,
            meta.test_results@,
            meta.todo_context@,
        ),
        seq!['\n'],
    )
}

/// Every commit message records what the standard asks of it: it begins with
/// the business rule implemented (id, name, description) and holds the test
/// results and the state of the todo context.
pub proof fn lemma_commit_message_records(meta: CommitMetadata)
    ensures
        starts_with(
            commit_message(meta),
            SUBJECT_HEAD@ + meta.business_rule.id@ + SUBJECT_ID_END@ + meta.business_rule.name@ + SUBJECT_DASH@
                + meta.business_rule.description@,
        ),
        contains(commit_message(meta), TESTS_LABEL@ + summary_text(meta.test_results.passed, meta.test_results.failed)),
        contains(
            commit_message(meta),
            TODO_LABEL@ + short_text(meta.todo_context.status@, meta.todo_context.description@),
        ),
{
    let ls = commit_lines(
        meta.business_rule.id@,
        meta.business_rule.name@,
        meta.business_rule.description@,
        meta.test_results@,
        meta.todo_context@,
    );
    let nd = if meta.test_results@.details.len() == 0 {
        0int
    } else {
        2 + meta.test_results@.details.len() as int
    };
    assert(ls[0] == SUBJECT_HEAD@ + meta.business_rule.id@ + SUBJECT_ID_END@ + meta.business_rule.name@
        + SUBJECT_DASH@ + meta.business_rule.description@);
    assert(ls[2] == TESTS_LABEL@ + summary_text(meta.test_results.passed, meta.test_results.failed));
    assert(ls[3 + nd + 1] == TODO_LABEL@ + short_text(meta.todo_context.status@, meta.todo_context.description@));
    lemma_join_starts(ls, seq!['\n']);
    lemma_join_contains(ls, seq!['\n'], 2);
    lemma_join_contains(ls, seq!['\n'], 3 + nd + 1);
}

/// The detail lines of test results: "  - <detail>" for each detail, in order.
pub open spec fn detail_lines(details: Seq<Seq<char>>) -> Seq<Seq<char>> {
    details.map_values(|d: Seq<char>| DETAIL_BULLET@ + d)
}

/// A commit message lists every test detail, each on a line of its own
/// ("  - <detail>"), all of them in their order as one run of lines.
pub proof fn lemma_commit_message_lists_details(meta: CommitMetadata)
    requires
        meta.test_results@.details.len() > 0,
    ensures
        contains(
            commit_message(meta),
            seq!['\n'] + join(detail_lines(meta.test_results@.details), seq!['\n']) + seq!['\n'],
        ),
        forall|i: int|
            0 <= i < meta.test_results@.details.len() ==> contains(
                commit_message(meta),
                seq!['\n'] + DETAIL_BULLET@ + #[trigger] meta.test_results@.details[i] + seq!['\n'],
            ),
{
    let ds = meta.test_results@.details;
    let ls = commit_lines(
        meta.business_rule.id@,
        meta.business_rule.name@,
        meta.business_rule.description@,
        meta.test_results@,
        meta.todo_context@,
    );
    let n = ds.len() as int;
    assert(ls.len() > 5 + n);
    assert(ls.subrange(5, 5 + n) =~= detail_lines(ds));
    lemma_join_contains_run(ls, seq!['\n'], 5, 5 + n);
    assert forall|i: int| 0 <= i < n implies contains(
        commit_message(meta),
        seq!['\n'] + DETAIL_BULLET@ + #[trigger] ds[i] + seq!['\n'],
    ) by {
        lemma_join_contains_run(ls, seq!['\n'], 5 + i, 6 + i);
        assert(ls.subrange(5 + i, 6 + i) =~= seq![DETAIL_BULLET@ + ds[i]]);
        assert(join(ls.subrange(5 + i, 6 + i), seq!['\n']) == DETAIL_BULLET@ + ds[i]);
        assert(seq!['\n'] + (DETAIL_BULLET@ + ds[i]) + seq!['\n'] =~= seq!['\n'] + DETAIL_BULLET@ + ds[i] + seq!['\n']);
    }
}

/// Appends a line to `lines`.
fn push_line(lines: &mut Vec<String>, line: String)
    ensures
        string_views(final(lines)@) == string_views(old(lines)@).push(line@),
{
    let ghost before = lines@;
    lines.push(line);
    assert(string_views(lines@) =~= string_views(before).push(line@));
}

/// Builds the standardised commit message: the rule implemented, the test
/// results and the state of the todo context.
pub fn generate_commit_message(meta: &CommitMetadata) -> (msg: String)
    ensures
        msg@ == commit_message(*meta),
        meta.test_results@.details.len() > 0 ==> contains(
            msg@,
            seq!['\n'] + join(detail_lines(meta.test_results@.details), seq!['\n']) + seq!['\n'],
        ),
{
    let rule = &meta.business_rule;
    let tests = &meta.test_results;
    let todo = &meta.todo_context;
    let mut lines: Vec<String> = Vec::new();

    let mut subject = String::from_str(SUBJECT_HEAD);
    push_str(&mut subject, rule.id.as_str());
    push_str(&mut subject, SUBJECT_ID_END);
    push_str(&mut subject, rule.name.as_str());
    push_str(&mut subject, SUBJECT_DASH);
    push_str(&mut subject, rule.description.as_str());
    push_line(&mut lines, subject);
    push_line(&mut lines, String::new());
    let mut tests_line = String::from_str(TESTS_LABEL);
    let summary = tests.summary();
    push_str(&mut tests_line, summary.as_str());
    push_line(&mut lines, tests_line);
    let ghost head = string_views(lines@);

    if tests.details.len() > 0 {
        push_line(&mut lines, String::new());
        push_line(&mut lines, String::from_str(TEST_DETAILS));
        let ghost mid = string_views(lines@);
        let mut k: usize = 0;
        while k < tests.details.len()
            invariant
                k <= tests.details.len(),
                string_views(lines@) == mid + string_views(tests.details@).take(k as int).map_values(
                    |d: Seq<char>| DETAIL_BULLET@ + d,
                ),
            decreases tests.details.len() - k,
        {
            let mut line = String::from_str(DETAIL_BULLET);
            push_str(&mut line, tests.details[k].as_str());
            push_line(&mut lines, line);
            assert(string_views(tests.details@).take(k + 1) =~= string_views(tests.details@).take(k as int).push(
                tests.details@[k as int]@,
            ));
            assert(string_views(tests.details@).take(k + 1).map_values(|d: Seq<char>| DETAIL_BULLET@ + d)
                =~= string_views(tests.details@).take(k as int).map_values(|d: Seq<char>| DETAIL_BULLET@ + d).push(
                DETAIL_BULLET@ + tests.details@[k as int]@,
            ));
            k = k + 1;
        }
        assert(string_views(tests.details@).take(tests.details.len() as int) =~= string_views(tests.details@));
    }
    let ghost with_details = string_views(lines@);

    push_line(&mut lines, String::new());
    let mut todo_line = String::from_str(TODO_LABEL);
    let short = todo.short();
    push_str(&mut todo_line, short.as_str());
    push_line(&mut lines, todo_line);
    let ghost with_context = string_views(lines@);

    if todo.pending.len() > 0 {
        push_line(&mut lines, String::new());
        push_line(&mut lines, String::from_str(PENDING_TASKS));
        let ghost mid = string_views(lines@);
        let mut k: usize = 0;
        while k < todo.pending.len()
            invariant
                k <= todo.pending.len(),
                string_views(lines@) == mid + pending_lines(string_views(todo.pending@).take(k as int)),
            decreases todo.pending.len() - k,
        {
            let mut line = String::from_str(PENDING_INDENT);
            push_decimal(&mut line, (k as u64) + 1);
            push_str(&mut line, NUMBER_DOT);
            push_str(&mut line, todo.pending[k].as_str());
            push_line(&mut lines, line);
            assert(pending_lines(string_views(todo.pending@).take(k + 1)) =~= pending_lines(
                string_views(todo.pending@).take(k as int),
            ).push(PENDING_INDENT@ + decimal((k + 1) as nat) + NUMBER_DOT@ + todo.pending@[k as int]@));
            k = k + 1;
        }
        assert(string_views(todo.pending@).take(todo.pending.len() as int) =~= string_views(todo.pending@));
    }
    assert(string_views(lines@) =~= commit_lines(rule.id@, rule.name@, rule.description@, tests@, todo@));
    proof {
        reveal_strlit("\n");
    }
    assert("\n"@ =~= seq!['\n']);
    proof {
        if meta.test_results@.details.len() > 0 {
            lemma_commit_message_lists_details(*meta);
        }
    }
    join_strings(&lines, "\n")
}


// ---------------------------------------------------------------------------
// The todo-context document and the commit hash
// ---------------------------------------------------------------------------

/// Heading and state section opening of the todo-context document.
pub const DOC_HEAD: &'static str = "# Todo-Context — Aether Code\n\n## Estat actual\n\nStatus: ";
/// Between the status and the description.
pub const DOC_DESCRIPTION: &'static str = "\nDescription: ";
/// The status of a new document.
pub const DOC_INIT_STATUS: &'static str = "init";
/// The closing of a new document: its one pending task.
pub const DOC_INIT_TAIL: &'static str = "\n\n## Tasques pendents\n\n- [ ] Inicialitzar projecte\n";
/// Heading of the pending tasks of an updated document.
pub const DOC_PENDING: &'static str = "\n## Tasques pendents\n\n";
/// Checkbox of a pending task.
pub const DOC_CHECKBOX: &'static str = "- [ ] ";

/// The document written when a project has none yet.
pub open spec fn initial_document(description: Seq<char>) -> Seq<char> {
    DOC_HEAD@ + DOC_INIT_STATUS@ + DOC_DESCRIPTION@ + description + DOC_INIT_TAIL@
}

/// The numbered checkbox lines of the pending tasks.
pub open spec fn checkbox_lines(pending: Seq<Seq<char>>) -> Seq<Seq<char>> {
    pending.map(|i: int, t: Seq<char>| DOC_CHECKBOX@ + decimal((i + 1) as nat) + NUMBER_DOT@ + t + seq!['\n'])
}

/// The document that records the todo state `t`: its status (in brackets),
/// its description and its numbered pending tasks.
pub open spec fn todo_document(t: TodoStateView) -> Seq<char> {
    DOC_HEAD@ + seq!['['] + t.status + seq![']'] + DOC_DESCRIPTION@ + t.description + seq!['\n'] + if t.pending.len() == 0 {
        Seq::empty()
    } else {
        DOC_PENDING@ + join(checkbox_lines(t.pending), Seq::empty())
    }
}

/// The content of a new todo-context document.
pub fn initial_todo_document(description: &str) -> (d: String)
    ensures
        d@ == initial_document(description@),
{
    let mut d = String::from_str(DOC_HEAD);
    push_str(&mut d, DOC_INIT_STATUS);
    push_str(&mut d, DOC_DESCRIPTION);
    push_str(&mut d, description);
    push_str(&mut d, DOC_INIT_TAIL);
    d
}

/// The content of the todo-context document for the state `todo`.
pub fn todo_document_text(todo: &TodoContext) -> (d: String)
    ensures
        d@ == todo_document(todo@),
{
    let mut d = String::from_str(DOC_HEAD);
    d.push('[');
    push_str(&mut d, todo.status.as_str());
    d.push(']');
    push_str(&mut d, DOC_DESCRIPTION);
    push_str(&mut d, todo.description.as_str());
    d.push('\n');
    let ghost head = d@;
    if todo.pending.len() > 0 {
        push_str(&mut d, DOC_PENDING);
        let ghost mid = d@;
        let ghost ps = string_views(todo.pending@);
        let mut k: usize = 0;
        while k < todo.pending.len()
            invariant
                k <= todo.pending.len(),
                ps == string_views(todo.pending@),
                d@ == mid + join(checkbox_lines(ps.take(k as int)), Seq::empty()),
            decreases todo.pending.len() - k,
        {
            let ghost before = d@;
            push_str(&mut d, DOC_CHECKBOX);
            push_decimal(&mut d, (k as u64) + 1);
            push_str(&mut d, NUMBER_DOT);
            push_str(&mut d, todo.pending[k].as_str());
            d.push('\n');
            let ghost line = DOC_CHECKBOX@ + decimal((k + 1) as nat) + NUMBER_DOT@ + ps[k as int] + seq!['\n'];
            assert(checkbox_lines(ps.take(k + 1)) =~= checkbox_lines(ps.take(k as int)).push(line));
            assert(d@ =~= before + line);
            if k > 0 {
                let ghost ls = checkbox_lines(ps.take(k + 1));
                assert(ls.drop_last() =~= checkbox_lines(ps.take(k as int)));
                assert(ls.last() == line);
                assert(join(checkbox_lines(ps.take(k + 1)), Seq::empty()) =~= join(checkbox_lines(ps.take(k as int)), Seq::empty()) + Seq::<char>::empty() + line);
            } else {
                assert(join(checkbox_lines(ps.take(1)), Seq::empty()) == line);
                assert(join(checkbox_lines(ps.take(0)), Seq::empty()) =~= Seq::<char>::empty());
            }
            k = k + 1;
        }
        assert(ps.take(todo.pending.len() as int) =~= ps);
    }
    assert(d@ =~= todo_document(todo@));
    d
}

/// The first seven characters of the trimmed output of `git rev-parse HEAD`.
pub open spec fn short_hash(output: Seq<char>) -> Seq<char> {
    let t = trim(output);
    if t.len() <= 7 { t } else { t.take(7) }
}

/// The short hash of a commit, from the output of `git rev-parse HEAD`.
pub fn short_commit_hash(output: &str) -> (h: String)
    ensures
        h@ == short_hash(output@),
{
    let t = trimmed(output);
    let v = chars_of(t.as_str());
    if v.len() <= 7 {
        t
    } else {
        string_from(&v, 0, 7)
    }
}

// ---------------------------------------------------------------------------
// Making a commit: the decisions between the git commands
// ---------------------------------------------------------------------------

/// A git command that a commit runs.
#[derive(Debug, Clone, PartialEq, Eq)]
pub enum GitCommand {
    /// `git config <key>`.
    ConfigGet { key: String },
    /// `git config <key> <value>`.
    ConfigSet { key: String, value: String },
    /// `git add -A`.
    AddAll,
    /// `git diff --cached --quiet`.
    DiffCachedQuiet,
    /// `git commit -m <message>`.
    Commit { message: String },
    /// `git rev-parse HEAD`.
    RevParseHead,
}

/// Model of a git command.
pub enum GitCommandView {
    ConfigGet { key: Seq<char> },
    ConfigSet { key: Seq<char>, value: Seq<char> },
    AddAll,
    DiffCachedQuiet,
    Commit { message: Seq<char> },
    RevParseHead,
}

impl View for GitCommand {
    type V = GitCommandView;

    open spec fn view(&self) -> GitCommandView {
        match self {
            GitCommand::ConfigGet { key } => GitCommandView::ConfigGet { key: key@ },
            GitCommand::ConfigSet { key, value } => GitCommandView::ConfigSet { key: key@, value: value@ },
            GitCommand::AddAll => GitCommandView::AddAll,
            GitCommand::DiffCachedQuiet => GitCommandView::DiffCachedQuiet,
            GitCommand::Commit { message } => GitCommandView::Commit { message: message@ },
            GitCommand::RevParseHead => GitCommandView::RevParseHead,
        }
    }
}

/// What the caller has to do next.
#[derive(Debug)]
pub enum CommitAction {
    /// Run this git command in the repository.
    Run(GitCommand),
    /// The commit is over: its short hash, or why it was not made.
    Finish(Result<String, String>),
}

/// Model of an action.
pub enum CommitActionView {
    Run(GitCommandView),
    Finish(Result<Seq<char>, Seq<char>>),
}

impl View for CommitAction {
    type V = CommitActionView;

    open spec fn view(&self) -> CommitActionView {
        match self {
            CommitAction::Run(c) => CommitActionView::Run(c@),
            CommitAction::Finish(r) => CommitActionView::Finish(
                match r {
                    Ok(h) => Ok(h@),
                    Err(e) => Err(e@),
                },
            ),
        }
    }
}

/// An outcome handed to a commit.
#[derive(Debug, Clone)]
pub enum CommitEvent {
    Started,
    /// The last command finished, or could not run.
    Replied(CommandOutcome),
}

/// Model of an event.
pub enum CommitEventView {
    Started,
    Replied(OutcomeView),
}

impl View for CommitEvent {
    type V = CommitEventView;

    open spec fn view(&self) -> CommitEventView {
        match self {
            CommitEvent::Started => CommitEventView::Started,
            CommitEvent::Replied(o) => CommitEventView::Replied(o@),
        }
    }
}

/// Where a commit stands.
#[derive(Debug, Clone, Copy, PartialEq, Eq, Structural)]
pub enum CommitPhase {
    Idle,
    ReadingName,
    SettingName,
    ReadingEmail,
    SettingEmail,
    Adding,
    Diffing,
    Committing,
    ReadingHash,
    Done,
}

/// The key of the author's name.
pub const NAME_KEY: &'static str = "user.name";
/// The key of the author's e-mail.
pub const EMAIL_KEY: &'static str = "user.email";
/// The author's name configured when the repository has an empty one.
pub const DEFAULT_NAME: &'static str = "Aether Code";
/// The author's e-mail configured when the repository has an empty one.
pub const DEFAULT_EMAIL: &'static str = "aether@local";
/// Prefix of the message when the name could not be configured.
pub const SET_NAME_ERROR: &'static str = "Error configurant user.name: ";
/// Prefix of the message when the e-mail could not be configured.
pub const SET_EMAIL_ERROR: &'static str = "Error configurant user.email: ";
/// Prefix of the message when `git add` could not run.
pub const ADD_RUN_ERROR: &'static str = "Error executant git add: ";
/// The message when `git add` failed.
pub const ADD_FAILED: &'static str = "git add ha fallat";
/// Prefix of the message when `git diff` could not run.
pub const DIFF_RUN_ERROR: &'static str = "Error executant git diff: ";
/// The message when nothing is staged.
pub const NOTHING_TO_COMMIT: &'static str = "No hi ha canvis per commitar";
/// Prefix of the message when `git commit` could not run.
pub const COMMIT_RUN_ERROR: &'static str = "Error executant git commit: ";
/// Prefix of the message when `git commit` failed.
pub const COMMIT_FAILED: &'static str = "git commit ha fallat: ";
/// Prefix of the message when the hash could not be read.
pub const HASH_ERROR: &'static str = "Error obtenint el hash: ";

/// Model of a commit in progress.
pub struct CommitModel {
    pub phase: CommitPhase,
    pub message: Seq<char>,
    /// Did `git add -A` succeed?
    pub added: bool,
    /// Did `git diff --cached --quiet` report staged changes?
    pub staged: bool,
    /// Did `git commit` succeed?
    pub committed: bool,
}

/// One commit of all changes with a message.
pub struct GitCommit {
    phase: CommitPhase,
    message: String,
    added: Ghost<bool>,
    staged: Ghost<bool>,
    committed: Ghost<bool>,
}

impl View for GitCommit {
    type V = CommitModel;

    closed spec fn view(&self) -> CommitModel {
        CommitModel {
            phase: self.phase,
            message: self.message@,
            added: self.added@,
            staged: self.staged@,
            committed: self.committed@,
        }
    }
}

/// Does a commit in phase `p` take event `e`?
pub open spec fn commit_accepts(p: CommitPhase, e: CommitEventView) -> bool {
    match e {
        CommitEventView::Started => p == CommitPhase::Idle,
        CommitEventView::Replied(_) => p != CommitPhase::Idle && p != CommitPhase::Done,
    }
}

/// `git config <key>` ran and found no value (it failed, as it does for a
/// key that is not set, or printed nothing): no identity is configured.
pub open spec fn identity_missing(o: OutcomeView) -> bool {
    o matches OutcomeView::Ran { success, stdout, .. } && (!success || stdout.len() == 0)
}

/// One decision of a commit.
pub open spec fn commit_step(m: CommitModel, e: CommitEventView) -> (CommitModel, CommitActionView) {
    let done = CommitModel { phase: CommitPhase::Done, ..m };
    let read_email = (
        CommitModel { phase: CommitPhase::ReadingEmail, ..m },
        CommitActionView::Run(GitCommandView::ConfigGet { key: EMAIL_KEY@ }),
    );
    let add = (CommitModel { phase: CommitPhase::Adding, ..m }, CommitActionView::Run(GitCommandView::AddAll));
    match e {
        CommitEventView::Started => (
            CommitModel { phase: CommitPhase::ReadingName, ..m },
            CommitActionView::Run(GitCommandView::ConfigGet { key: NAME_KEY@ }),
        ),
        CommitEventView::Replied(o) => match m.phase {
            CommitPhase::ReadingName => if identity_missing(o) {
                (
                    CommitModel { phase: CommitPhase::SettingName, ..m },
                    CommitActionView::Run(GitCommandView::ConfigSet { key: NAME_KEY@, value: DEFAULT_NAME@ }),
                )
            } else {
                read_email
            },
            CommitPhase::SettingName => match o {
                OutcomeView::NotRun(why) => (done, CommitActionView::Finish(Err(SET_NAME_ERROR@ + why))),
                OutcomeView::Ran { .. } => read_email,
            },
            CommitPhase::ReadingEmail => if identity_missing(o) {
                (
                    CommitModel { phase: CommitPhase::SettingEmail, ..m },
                    CommitActionView::Run(GitCommandView::ConfigSet { key: EMAIL_KEY@, value: DEFAULT_EMAIL@ }),
                )
            } else {
                add
            },
            CommitPhase::SettingEmail => match o {
                OutcomeView::NotRun(why) => (done, CommitActionView::Finish(Err(SET_EMAIL_ERROR@ + why))),
                OutcomeView::Ran { .. } => add,
            },
            CommitPhase::Adding => match o {
                OutcomeView::NotRun(why) => (done, CommitActionView::Finish(Err(ADD_RUN_ERROR@ + why))),
                OutcomeView::Ran { success, .. } => if success {
                    (
                        CommitModel { phase: CommitPhase::Diffing, added: true, ..m },
                        CommitActionView::Run(GitCommandView::DiffCachedQuiet),
                    )
                } else {
                    (done, CommitActionView::Finish(Err(ADD_FAILED@)))
                },
            },
            CommitPhase::Diffing => match o {
                OutcomeView::NotRun(why) => (done, CommitActionView::Finish(Err(DIFF_RUN_ERROR@ + why))),
                OutcomeView::Ran { success, .. } => if success {
                    (done, CommitActionView::Finish(Err(NOTHING_TO_COMMIT@)))
                } else {
                    (
                        CommitModel { phase: CommitPhase::Committing, staged: true, ..m },
                        CommitActionView::Run(GitCommandView::Commit { message: m.message }),
                    )
                },
            },
            CommitPhase::Committing => match o {
                OutcomeView::NotRun(why) => (done, CommitActionView::Finish(Err(COMMIT_RUN_ERROR@ + why))),
                OutcomeView::Ran { success, stderr, .. } => if success {
                    (
                        CommitModel { phase: CommitPhase::ReadingHash, committed: true, ..m },
                        CommitActionView::Run(GitCommandView::RevParseHead),
                    )
                } else {
                    (done, CommitActionView::Finish(Err(COMMIT_FAILED@ + stderr)))
                },
            },
            CommitPhase::ReadingHash => match o {
                OutcomeView::NotRun(why) => (done, CommitActionView::Finish(Err(HASH_ERROR@ + why))),
                OutcomeView::Ran { stdout, .. } => (done, CommitActionView::Finish(Ok(short_hash(stdout)))),
            },
            _ => (m, CommitActionView::Finish(Err(Seq::empty()))),
        },
    }
}

/// `p` followed by `e`, as a failed commit.
fn failure_with(p: &str, e: &str) -> (r: Result<String, String>)
    ensures
        r matches Err(m) && m@ == p@ + e@,
{
    let mut m = owned(p);
    push_str(&mut m, e);
    Err(m)
}

impl GitCommit {
    /// Every commit's state satisfies the invariant of a commit.
    #[verifier::type_invariant]
    spec fn wf(self) -> bool {
        commit_inv(self@)
    }

    /// A commit of all changes with `message`.
    pub fn new(message: &str) -> (c: Self)
        ensures
            c@ == (CommitModel {
                phase: CommitPhase::Idle,
                message: message@,
                added: false,
                staged: false,
                committed: false,
            }),
    {
        GitCommit {
            phase: CommitPhase::Idle,
            message: owned(message),
            added: Ghost(false),
            staged: Ghost(false),
            committed: Ghost(false),
        }
    }

    /// The phase of the commit.
    pub fn phase(&self) -> (p: CommitPhase)
        ensures
            p == self@.phase,
    {
        self.phase
    }

    /// Ends the commit.
    fn finish(self, r: Result<String, String>) -> (out: (Self, CommitAction))
        ensures
            out.0@ == (CommitModel { phase: CommitPhase::Done, ..self@ }),
            out.1 == CommitAction::Finish(r),
    {
        (GitCommit { phase: CommitPhase::Done, ..self }, CommitAction::Finish(r))
    }

    /// Moves to `phase` and runs `command`.
    fn run(self, phase: CommitPhase, command: GitCommand) -> (out: (Self, CommitAction))
        requires
            commit_inv(CommitModel { phase, ..self@ }),
        ensures
            out.0@ == (CommitModel { phase, ..self@ }),
            out.1 == CommitAction::Run(command),
    {
        (GitCommit { phase, ..self }, CommitAction::Run(command))
    }

    /// Takes one outcome and decides what comes next. Of every commit: each
    /// step goes further, so a commit ends after at most nine steps; it
    /// commits with its own message; and it answers a hash only when the
    /// changes were added, found staged and committed, that hash being the
    /// first seven characters of `git rev-parse HEAD`.
    pub fn step(self, event: CommitEvent) -> (r: (Self, CommitAction))
        requires
            commit_accepts(self@.phase, event@),
        ensures
            (r.0@, r.1@) == commit_step(self@, event@),
            commit_rank(r.0@.phase) > commit_rank(self@.phase),
            r.1@ matches CommitActionView::Run(GitCommandView::Commit { message }) ==> message == self@.message,
            r.1@ matches CommitActionView::Finish(Ok(h)) ==> (self@.added && self@.staged && self@.committed
                && (event@ matches CommitEventView::Replied(OutcomeView::Ran { stdout, .. }) && h == short_hash(
                stdout,
            ))),
    {
        proof {
            use_type_invariant(&self);
            lemma_commit_step(self@, event@);
        }
        match event {
            CommitEvent::Started => self.run(CommitPhase::ReadingName, GitCommand::ConfigGet { key: owned(NAME_KEY) }),
            CommitEvent::Replied(o) => {
                let missing = match &o {
                    CommandOutcome::Ran { success, stdout, .. } => !*success || stdout.as_str().is_empty(),
                    CommandOutcome::NotRun(_) => false,
                };
                match self.phase {
                    CommitPhase::ReadingName => {
                        if missing {
                            self.run(
                                CommitPhase::SettingName,
                                GitCommand::ConfigSet { key: owned(NAME_KEY), value: owned(DEFAULT_NAME) },
                            )
                        } else {
                            self.run(CommitPhase::ReadingEmail, GitCommand::ConfigGet { key: owned(EMAIL_KEY) })
                        }
                    },
                    CommitPhase::SettingName => match o {
                        CommandOutcome::NotRun(why) => self.finish(failure_with(SET_NAME_ERROR, why.as_str())),
                        CommandOutcome::Ran { .. } => self.run(
                            CommitPhase::ReadingEmail,
                            GitCommand::ConfigGet { key: owned(EMAIL_KEY) },
                        ),
                    },
                    CommitPhase::ReadingEmail => {
                        if missing {
                            self.run(
                                CommitPhase::SettingEmail,
                                GitCommand::ConfigSet { key: owned(EMAIL_KEY), value: owned(DEFAULT_EMAIL) },
                            )
                        } else {
                            self.run(CommitPhase::Adding, GitCommand::AddAll)
                        }
                    },
                    CommitPhase::SettingEmail => match o {
                        CommandOutcome::NotRun(why) => self.finish(failure_with(SET_EMAIL_ERROR, why.as_str())),
                        CommandOutcome::Ran { .. } => self.run(CommitPhase::Adding, GitCommand::AddAll),
                    },
                    CommitPhase::Adding => match o {
                        CommandOutcome::NotRun(why) => self.finish(failure_with(ADD_RUN_ERROR, why.as_str())),
                        CommandOutcome::Ran { success, .. } => {
                            if success {
                                let next = GitCommit { added: Ghost(true), ..self };
                                next.run(CommitPhase::Diffing, GitCommand::DiffCachedQuiet)
                            } else {
                                self.finish(Err(owned(ADD_FAILED)))
                            }
                        },
                    },
                    CommitPhase::Diffing => match o {
                        CommandOutcome::NotRun(why) => self.finish(failure_with(DIFF_RUN_ERROR, why.as_str())),
                        CommandOutcome::Ran { success, .. } => {
                            if success {
                                self.finish(Err(owned(NOTHING_TO_COMMIT)))
                            } else {
                                let message = self.message.clone();
                                let next = GitCommit { staged: Ghost(true), ..self };
                                next.run(CommitPhase::Committing, GitCommand::Commit { message })
                            }
                        },
                    },
                    CommitPhase::Committing => match o {
                        CommandOutcome::NotRun(why) => self.finish(failure_with(COMMIT_RUN_ERROR, why.as_str())),
                        CommandOutcome::Ran { success, stderr, .. } => {
                            if success {
                                let next = GitCommit { committed: Ghost(true), ..self };
                                next.run(CommitPhase::ReadingHash, GitCommand::RevParseHead)
                            } else {
                                self.finish(failure_with(COMMIT_FAILED, stderr.as_str()))
                            }
                        },
                    },
                    CommitPhase::ReadingHash => match o {
                        CommandOutcome::NotRun(why) => self.finish(failure_with(HASH_ERROR, why.as_str())),
                        CommandOutcome::Ran { stdout, .. } => {
                            let h = short_commit_hash(stdout.as_str());
                            self.finish(Ok(h))
                        },
                    },
                    _ => {
                        proof { assert(false); }
                        self.finish(Err(String::new()))
                    },
                }
            },
        }
    }
}

// ---------------------------------------------------------------------------
// Laws of a commit
// ---------------------------------------------------------------------------

/// How far a commit has gone; every step goes further.
pub open spec fn commit_rank(p: CommitPhase) -> int {
    match p {
        CommitPhase::Idle => 0,
        CommitPhase::ReadingName => 1,
        CommitPhase::SettingName => 2,
        CommitPhase::ReadingEmail => 3,
        CommitPhase::SettingEmail => 4,
        CommitPhase::Adding => 5,
        CommitPhase::Diffing => 6,
        CommitPhase::Committing => 7,
        CommitPhase::ReadingHash => 8,
        CommitPhase::Done => 9,
    }
}

/// What holds in every state of a commit: `git commit` runs only after the
/// changes were added and found staged, and the hash is read only after the
/// commit succeeded.
pub open spec fn commit_inv(m: CommitModel) -> bool {
    &&& m.phase == CommitPhase::Diffing ==> m.added
    &&& m.phase == CommitPhase::Committing ==> m.added && m.staged
    &&& m.phase == CommitPhase::ReadingHash ==> m.added && m.staged && m.committed
}

/// A commit starts in a state that satisfies its invariant.
pub proof fn lemma_commit_initial(message: Seq<char>)
    ensures
        commit_inv(CommitModel { phase: CommitPhase::Idle, message, added: false, staged: false, committed: false }),
{
}

/// Every step of a commit keeps its invariant and goes further (so a commit
/// ends after at most nine steps); it commits with its own message; and it
/// answers a hash only when the changes were added, found staged and
/// committed, that hash being the first seven characters of `git rev-parse HEAD`.
pub proof fn lemma_commit_step(m: CommitModel, e: CommitEventView)
    requires
        commit_inv(m),
        commit_accepts(m.phase, e),
    ensures
        commit_inv(commit_step(m, e).0),
        commit_rank(commit_step(m, e).0.phase) > commit_rank(m.phase),
        commit_step(m, e).0.message == m.message,
        commit_step(m, e).1 matches CommitActionView::Run(GitCommandView::Commit { message }) ==> message == m.message,
        commit_step(m, e).1 matches CommitActionView::Finish(Ok(h)) ==> (m.added && m.staged && m.committed
            && (e matches CommitEventView::Replied(OutcomeView::Ran { stdout, .. }) && h == short_hash(stdout))),
{
}

} // verus!
