//! The Telegram interface's logic: parsing chat commands, the messages the
//! bot sends, who may use it, and which workspace each chat works in.
use vstd::prelude::*;
use std::collections::HashMap;
use crate::text::{
    join_path, joined_path, contains, lemma_contains_concat, lemma_contains_self, lemma_contains_trans,
    lemma_join_contains, chars_of, decimal, is_whitespace, is_ws, join, lowercase, owned, push_chars, push_decimal, push_str, starts_with,
    starts_with_chars, str_eq, string_from, string_views, to_lowercase, trim, trim_chars, trimmed,
};

verus! {

broadcast use vstd::std_specs::hash::group_hash_axioms;

/// A command received in a chat.
#[derive(Debug, Clone, PartialEq)]
pub enum TelegramCommand {
    /// `/start`: welcome.
    Start,
    /// `/new_intent <text>`, or any plain text: a new intent.
    NewIntent(String),
    /// `/status`: the state of the system.
    Status,
    /// `/switch <workspace_id>`: change workspace.
    SwitchWorkspace(String),
    /// `/logs`: the sandbox logs.
    Logs,
    /// Approval of a proposal.
    ApproveProposal(String),
    /// Rejection of a proposal.
    RejectProposal(String),
    /// A command that could not be understood, with why.
    Unknown(String),
}

/// Model of a command.
pub enum CommandView {
    Start,
    NewIntent(Seq<char>),
    Status,
    SwitchWorkspace(Seq<char>),
    Logs,
    ApproveProposal(Seq<char>),
    RejectProposal(Seq<char>),
    Unknown(Seq<char>),
}

impl View for TelegramCommand {
    type V = CommandView;

    open spec fn view(&self) -> CommandView {
        match self {
            TelegramCommand::Start => CommandView::Start,
            TelegramCommand::NewIntent(s) => CommandView::NewIntent(s@),
            TelegramCommand::Status => CommandView::Status,
            TelegramCommand::SwitchWorkspace(s) => CommandView::SwitchWorkspace(s@),
            TelegramCommand::Logs => CommandView::Logs,
            TelegramCommand::ApproveProposal(s) => CommandView::ApproveProposal(s@),
            TelegramCommand::RejectProposal(s) => CommandView::RejectProposal(s@),
            TelegramCommand::Unknown(s) => CommandView::Unknown(s@),
        }
    }
}

/// Why `/new_intent` alone is not understood.
pub const NEW_INTENT_NEEDS_TEXT: &'static str = "/new_intent requereix un text";
/// Why `/switch` alone is not understood.
pub const SWITCH_NEEDS_ID: &'static str = "/switch requereix un workspace_id";

/// The command a chat message (trimmed to `m`) stands for.
pub open spec fn command_of(message: Seq<char>) -> CommandView {
    let m = trim(message);
    if m == "/start"@ {
        CommandView::Start
    } else if m == "/new_intent"@ {
        CommandView::Unknown(NEW_INTENT_NEEDS_TEXT@)
    } else if starts_with(m, "/new_intent "@) || starts_with(m, "/new_intent\t"@) {
        CommandView::NewIntent(m.skip(12))
    } else if m == "/status"@ {
        CommandView::Status
    } else if m == "/switch"@ {
        CommandView::Unknown(SWITCH_NEEDS_ID@)
    } else if starts_with(m, "/switch "@) || starts_with(m, "/switch\t"@) {
        CommandView::SwitchWorkspace(m.skip(8))
    } else if m == "/logs"@ {
        CommandView::Logs
    } else {
        CommandView::NewIntent(m)
    }
}

/// Parses a chat message: the known commands, and any other text as a new intent.
pub fn parse_telegram_command(message: &str) -> (c: TelegramCommand)
    ensures
        c@ == command_of(message@),
{
    let t = trimmed(message);
    let m = chars_of(t.as_str());
    let n = m.len();
    proof {
        reveal_strlit("/new_intent ");
        reveal_strlit("/new_intent\t");
        reveal_strlit("/switch ");
        reveal_strlit("/switch\t");
    }
    if str_eq(t.as_str(), "/start") {
        return TelegramCommand::Start;
    }
    if str_eq(t.as_str(), "/new_intent") {
        return TelegramCommand::Unknown(owned(NEW_INTENT_NEEDS_TEXT));
    }
    let p1 = chars_of("/new_intent ");
    let p2 = chars_of("/new_intent\t");
    if starts_with_chars(&m, &p1) || starts_with_chars(&m, &p2) {
        return TelegramCommand::NewIntent(string_from(&m, 12, n));
    }
    if str_eq(t.as_str(), "/status") {
        return TelegramCommand::Status;
    }
    if str_eq(t.as_str(), "/switch") {
        return TelegramCommand::Unknown(owned(SWITCH_NEEDS_ID));
    }
    let p3 = chars_of("/switch ");
    let p4 = chars_of("/switch\t");
    if starts_with_chars(&m, &p3) || starts_with_chars(&m, &p4) {
        return TelegramCommand::SwitchWorkspace(string_from(&m, 8, n));
    }
    if str_eq(t.as_str(), "/logs") {
        return TelegramCommand::Logs;
    }
    TelegramCommand::NewIntent(t)
}

// ---------------------------------------------------------------------------
// Messages
// ---------------------------------------------------------------------------

/// Opening of the welcome message, before the bot's name.
pub const WELCOME_HEAD: &'static str = "🤖 **";
/// The welcome message after the bot's name: the commands available.
pub const WELCOME_TAIL: &'static str = "** està actiu!\n\nComandes disponibles:\n`/new_intent <text>` — Enviar una intenció\n`/status` — Veure l'estat del sistema\n`/switch <workspace>` — Canviar de workspace\n`/logs` — Veure logs del sandbox\n\n💡 Tria un workspace amb `/switch` abans d'enviar intencions.";

/// The welcome message, listing the commands.
pub fn build_welcome_message(bot_name: &str) -> (m: String)
    ensures
        m@ == WELCOME_HEAD@ + bot_name@ + WELCOME_TAIL@,
{
    let mut m = owned(WELCOME_HEAD);
    push_str(&mut m, bot_name);
    push_str(&mut m, WELCOME_TAIL);
    m
}

/// Heading of the status message.
pub const STATUS_HEAD: &'static str = "📊 **Estat del sistema**\n\n";
/// Closing of the status message.
pub const STATUS_TAIL: &'static str = "\n👉 Fes `/new_intent` per proposar una tasca!";

/// The emoji of a task label.
pub open spec fn status_emoji(label: Seq<char>) -> Seq<char> {
    if label == "completed"@ {
        "✅"@
    } else if label == "pending"@ {
        "⏳"@
    } else if label == "failed"@ {
        "❌"@
    } else if label == "in_progress"@ {
        "🔄"@
    } else {
        "⚪"@
    }
}

/// The line of a label and its count.
pub open spec fn status_line(label: Seq<char>, count: usize) -> Seq<char> {
    status_emoji(label) + " **"@ + label + "**: "@ + decimal(count as nat) + seq!['\n']
}

/// The lines of the status message.
pub open spec fn status_lines(tasks: Seq<(&str, usize)>) -> Seq<Seq<char>> {
    tasks.map_values(|t: (&str, usize)| status_line(t.0@, t.1))
}

/// The status message of `tasks`: the heading, one line per label, the closing.
pub open spec fn status_message(tasks: Seq<(&str, usize)>) -> Seq<char> {
    STATUS_HEAD@ + join(status_lines(tasks), Seq::empty()) + STATUS_TAIL@
}

/// The status message shows every label with its count: for each label it
/// holds " **<label>**: <count>" and the line break that ends that line.
pub proof fn lemma_status_message_counts(tasks: Seq<(&str, usize)>)
    ensures
        forall|i: int|
            0 <= i < tasks.len() ==> contains(
                status_message(tasks),
                " **"@ + (#[trigger] tasks[i]).0@ + "**: "@ + decimal(tasks[i].1 as nat) + seq!['\n'],
            ),
{
    assert forall|i: int| 0 <= i < tasks.len() implies contains(
        status_message(tasks),
        " **"@ + (#[trigger] tasks[i]).0@ + "**: "@ + decimal(tasks[i].1 as nat) + seq!['\n'],
    ) by {
        let ls = status_lines(tasks);
        let pat = " **"@ + tasks[i].0@ + "**: "@ + decimal(tasks[i].1 as nat) + seq!['\n'];
        let emoji = status_emoji(tasks[i].0@);
        assert(ls[i] =~= emoji + pat);
        lemma_contains_self(pat);
        lemma_contains_concat(pat, emoji, pat);
        lemma_join_contains(ls, Seq::empty(), i);
        lemma_contains_trans(join(ls, Seq::empty()), ls[i], pat);
        lemma_contains_concat(join(ls, Seq::empty()), STATUS_TAIL@, pat);
        lemma_contains_concat(join(ls, Seq::empty()) + STATUS_TAIL@, STATUS_HEAD@, pat);
        assert(status_message(tasks) =~= STATUS_HEAD@ + (join(ls, Seq::empty()) + STATUS_TAIL@));
    }
}

/// The emoji of a task label.
fn emoji_for(label: &str) -> (e: &'static str)
    ensures
        e@ == status_emoji(label@),
{
    if str_eq(label, "completed") {
        "✅"
    } else if str_eq(label, "pending") {
        "⏳"
    } else if str_eq(label, "failed") {
        "❌"
    } else if str_eq(label, "in_progress") {
        "🔄"
    } else {
        "⚪"
    }
}

/// The status message: one line per label, with its emoji and count.
pub fn build_status_message(tasks: &[(&str, usize)]) -> (m: String)
    ensures
        m@ == STATUS_HEAD@ + join(status_lines(tasks@), Seq::empty()) + STATUS_TAIL@,
        forall|i: int|
            0 <= i < tasks@.len() ==> contains(
                m@,
                " **"@ + (#[trigger] tasks@[i]).0@ + "**: "@ + decimal(tasks@[i].1 as nat) + seq!['\n'],
            ),
{
    proof {
        lemma_status_message_counts(tasks@);
    }
    let mut m = owned(STATUS_HEAD);
    let ghost head = m@;
    let mut i: usize = 0;
    while i < tasks.len()
        invariant
            i <= tasks@.len(),
            head == STATUS_HEAD@,
            m@ == head + join(status_lines(tasks@.take(i as int)), Seq::empty()),
        decreases tasks@.len() - i,
    {
        let (label, count) = tasks[i];
        let ghost before = m@;
        push_str(&mut m, emoji_for(label));
        push_str(&mut m, " **");
        push_str(&mut m, label);
        push_str(&mut m, "**: ");
        push_decimal(&mut m, count as u64);
        m.push('\n');
        let ghost line = status_line(label@, count);
        let ghost ls = status_lines(tasks@.take(i + 1));
        assert(ls =~= status_lines(tasks@.take(i as int)).push(line));
        assert(m@ =~= before + line);
        if i > 0 {
            assert(ls.drop_last() =~= status_lines(tasks@.take(i as int)));
            assert(join(ls, Seq::empty()) =~= join(status_lines(tasks@.take(i as int)), Seq::empty()) + Seq::<char>::empty() + line);
        } else {
            assert(status_lines(tasks@.take(0)) =~= Seq::<Seq<char>>::empty());
            assert(join(ls, Seq::empty()) == line);
        }
        i = i + 1;
    }
    assert(tasks@.take(tasks@.len() as int) =~= tasks@);
    push_str(&mut m, STATUS_TAIL);
    m
}

/// A proposal shown in a chat.
#[derive(Debug, Clone)]
pub struct IntentProposal {
    pub id: String,
    pub workspace_id: String,
    pub intent: String,
    pub explanation: String,
    pub tasks: Vec<String>,
    pub timestamp: String,
}

/// Opening of a proposal message, before the intent.
pub const PROPOSAL_HEAD: &'static str = "🤖 **Proposta d'IA**\n\n💬 *";
/// Between the intent and the explanation.
pub const PROPOSAL_EXPLANATION: &'static str = "*\n📝 *";
/// Between the explanation and the tasks.
pub const PROPOSAL_TASKS: &'static str = "*\n\nTasques:\n";

/// The numbered task lines "  <i+1>. <task>" of a proposal.
pub open spec fn proposal_task_lines(tasks: Seq<Seq<char>>) -> Seq<Seq<char>> {
    tasks.map(|i: int, t: Seq<char>| "  "@ + decimal((i + 1) as nat) + ". "@ + t)
}

/// The text of a proposal message.
pub open spec fn proposal_text(p: IntentProposal) -> Seq<char> {
    PROPOSAL_HEAD@ + p.intent@ + PROPOSAL_EXPLANATION@ + p.explanation@ + PROPOSAL_TASKS@
        + join(proposal_task_lines(string_views(p.tasks@)), seq!['\n'])
}

/// The proposal message and the callback data of its approval buttons
/// ("<workspace_id>_<proposal id>").
pub fn build_proposal_message(proposal: &IntentProposal) -> (r: (String, String))
    ensures
        r.0@ == proposal_text(*proposal),
        r.1@ == proposal.workspace_id@ + seq!['_'] + proposal.id@,
{
    let mut text = owned(PROPOSAL_HEAD);
    push_str(&mut text, proposal.intent.as_str());
    push_str(&mut text, PROPOSAL_EXPLANATION);
    push_str(&mut text, proposal.explanation.as_str());
    push_str(&mut text, PROPOSAL_TASKS);
    let ghost head = text@;
    let ghost ts = string_views(proposal.tasks@);
    let mut i: usize = 0;
    proof { reveal_strlit("\n"); }
    while i < proposal.tasks.len()
        invariant
            i <= proposal.tasks.len(),
            ts == string_views(proposal.tasks@),
            text@ == head + join(proposal_task_lines(ts.take(i as int)), seq!['\n']),
        decreases proposal.tasks.len() - i,
    {
        let ghost before = text@;
        if i > 0 {
            text.push('\n');
        }
        push_str(&mut text, "  ");
        push_decimal(&mut text, (i as u64) + 1);
        push_str(&mut text, ". ");
        push_str(&mut text, proposal.tasks[i].as_str());
        let ghost line = "  "@ + decimal((i + 1) as nat) + ". "@ + ts[i as int];
        let ghost ls = proposal_task_lines(ts.take(i + 1));
        assert(ls =~= proposal_task_lines(ts.take(i as int)).push(line));
        if i > 0 {
            assert(ls.drop_last() =~= proposal_task_lines(ts.take(i as int)));
            assert(text@ =~= before + seq!['\n'] + line);
        } else {
            assert(proposal_task_lines(ts.take(0)) =~= Seq::<Seq<char>>::empty());
            assert(text@ =~= before + line);
            assert(join(ls, seq!['\n']) == line);
        }
        i = i + 1;
    }
    assert(ts.take(proposal.tasks.len() as int) =~= ts);
    let mut callback = proposal.workspace_id.clone();
    callback.push('_');
    push_str(&mut callback, proposal.id.as_str());
    (text, callback)
}

/// Closing of an action message, after the workspace id.
pub const ACTION_TAIL: &'static str = "`.\n\nEl sistema executarà la tasca automàticament.";

/// The message confirming an approval or a rejection.
pub open spec fn action_text(action: Seq<char>, workspace_id: Seq<char>) -> Seq<char> {
    (if action == "approve"@ { "✅"@ } else { "❌"@ }) + " Proposta "@ + lowercase(action) + " per al workspace `"@
        + workspace_id + ACTION_TAIL@
}

/// The message confirming an approval or a rejection for a workspace.
pub fn build_action_message(action: &str, workspace_id: &str) -> (m: String)
    ensures
        m@ == action_text(action@, workspace_id@),
{
    let mut m = if str_eq(action, "approve") { owned("✅") } else { owned("❌") };
    push_str(&mut m, " Proposta ");
    let lower = to_lowercase(action);
    push_str(&mut m, lower.as_str());
    push_str(&mut m, " per al workspace `");
    push_str(&mut m, workspace_id);
    push_str(&mut m, ACTION_TAIL);
    m
}


// ---------------------------------------------------------------------------
// Who may use the bot
// ---------------------------------------------------------------------------

/// Settings of the bot.
#[derive(Debug, Clone)]
pub struct TelegramConfig {
    /// The bot's token.
    pub bot_token: String,
    /// The Telegram ids allowed to use the bot; everyone when empty.
    pub authorized_ids: Vec<String>,
}

/// Does `c` separate ids in the list of authorised ids?
pub open spec fn is_id_separator(c: char) -> bool {
    c == ',' || c == ' ' || c == '|'
}

/// The pieces of `s` between separators (`str::split`: one more piece than separators).
pub open spec fn split_ids(s: Seq<char>) -> Seq<Seq<char>>
    decreases s.len(),
{
    if s.len() == 0 {
        seq![Seq::empty()]
    } else {
        let p = split_ids(s.drop_last());
        if is_id_separator(s.last()) {
            p.push(Seq::empty())
        } else {
            p.update(p.len() - 1, p.last().push(s.last()))
        }
    }
}

/// The trimmed non-blank pieces.
pub open spec fn nonblank_trimmed(ps: Seq<Seq<char>>) -> Seq<Seq<char>>
    decreases ps.len(),
{
    if ps.len() == 0 {
        Seq::empty()
    } else {
        let rest = nonblank_trimmed(ps.drop_last());
        if trim(ps.last()).len() > 0 { rest.push(trim(ps.last())) } else { rest }
    }
}

/// The ids listed in `TELEGRAM_AUTHORIZED_IDS`: split at commas, spaces and
/// bars, trimmed, the blank ones dropped.
pub open spec fn authorized_list(raw: Seq<char>) -> Seq<Seq<char>> {
    nonblank_trimmed(split_ids(raw))
}

/// `split_ids` never gives an empty list.
proof fn lemma_split_ids_len(s: Seq<char>)
    ensures
        split_ids(s).len() >= 1,
    decreases s.len(),
{
    if s.len() > 0 {
        lemma_split_ids_len(s.drop_last());
    }
}

/// Adds a piece to the ids when it is not blank.
fn push_piece(ids: &mut Vec<String>, piece: &Vec<char>)
    ensures
        string_views(final(ids)@) == if trim(piece@).len() > 0 {
            string_views(old(ids)@).push(trim(piece@))
        } else {
            string_views(old(ids)@)
        },
{
    let t = trim_chars(piece);
    if t.len() > 0 {
        let ghost before = ids@;
        ids.push(string_from(&t, 0, t.len()));
        assert(t@.subrange(0, t@.len() as int) =~= t@);
        assert(string_views(ids@) =~= string_views(before).push(trim(piece@)));
    }
}

/// Reads the list of authorised ids.
pub fn parse_authorized_ids(raw: &str) -> (ids: Vec<String>)
    ensures
        string_views(ids@) == authorized_list(raw@),
{
    let v = chars_of(raw);
    let mut ids: Vec<String> = Vec::new();
    let mut piece: Vec<char> = Vec::new();
    let mut i: usize = 0;
    assert(v@.take(0) =~= Seq::<char>::empty());
    while i < v.len()
        invariant
            i <= v.len(),
            v@ == raw@,
            split_ids(v@.take(i as int)).len() >= 1,
            piece@ == split_ids(v@.take(i as int)).last(),
            string_views(ids@) == nonblank_trimmed(split_ids(v@.take(i as int)).drop_last()),
        decreases v.len() - i,
    {
        let c = v[i];
        let ghost pre = v@.take(i as int);
        let ghost ps = split_ids(pre);
        assert(v@.take(i + 1).drop_last() =~= pre);
        assert(v@.take(i + 1).last() == c);
        proof { lemma_split_ids_len(v@.take(i + 1)); }
        if c == ',' || c == ' ' || c == '|' {
            push_piece(&mut ids, &piece);
            piece = Vec::new();
            let ghost ps2 = split_ids(v@.take(i + 1));
            assert(ps2 == ps.push(Seq::empty()));
            assert(ps2.drop_last() =~= ps);
            assert(ps.drop_last().push(ps.last()) =~= ps);
            assert(piece@ =~= ps2.last());
        } else {
            piece.push(c);
            let ghost ps2 = split_ids(v@.take(i + 1));
            assert(ps2 == ps.update(ps.len() - 1, ps.last().push(c)));
            assert(ps2.drop_last() =~= ps.drop_last());
        }
        i = i + 1;
    }
    assert(v@.take(v.len() as int) =~= v@);
    push_piece(&mut ids, &piece);
    let ghost ps = split_ids(v@);
    assert(ps.drop_last().push(ps.last()) =~= ps);
    ids
}

/// The message when the bot's token is not configured.
pub const MISSING_TOKEN: &'static str = "TELEGRAM_BOT_TOKEN no configurada";

impl TelegramConfig {
    /// The settings from the values of `TELEGRAM_BOT_TOKEN` (required) and
    /// `TELEGRAM_AUTHORIZED_IDS` (none means everyone).
    pub fn from_env_values(bot_token: Option<String>, authorized_ids: Option<String>) -> (r: Result<Self, String>)
        ensures
            bot_token is None ==> (r matches Err(e) && e@ == MISSING_TOKEN@),
            bot_token matches Some(t) ==> (r matches Ok(c) && c.bot_token == t
                && string_views(c.authorized_ids@) == match authorized_ids {
                    Some(raw) => authorized_list(raw@),
                    None => authorized_list(Seq::empty()),
                }),
    {
        let bot_token = match bot_token {
            Some(t) => t,
            None => return Err(owned(MISSING_TOKEN)),
        };
        let raw = match authorized_ids {
            Some(raw) => raw,
            None => String::new(),
        };
        Ok(TelegramConfig { bot_token, authorized_ids: parse_authorized_ids(raw.as_str()) })
    }

    /// May `user_id` use the bot? Everyone may when no ids are listed.
    pub fn is_authorized(&self, user_id: &str) -> (r: bool)
        ensures
            r == (self.authorized_ids@.len() == 0 || string_views(self.authorized_ids@).contains(user_id@)),
    {
        if self.authorized_ids.len() == 0 {
            return true;
        }
        let mut i: usize = 0;
        while i < self.authorized_ids.len()
            invariant
                i <= self.authorized_ids.len(),
                forall|j: int| 0 <= j < i ==> string_views(self.authorized_ids@)[j] != user_id@,
            decreases self.authorized_ids.len() - i,
        {
            if str_eq(self.authorized_ids[i].as_str(), user_id) {
                assert(string_views(self.authorized_ids@)[i as int] == user_id@);
                return true;
            }
            i = i + 1;
        }
        false
    }
}

// ---------------------------------------------------------------------------
// Registered chats
// ---------------------------------------------------------------------------

/// A chat and the workspace it works in.
#[derive(Debug, Clone)]
pub struct RegisteredChat {
    /// Telegram chat id.
    pub chat_id: i64,
    /// The workspace the chat works in.
    pub active_workspace: Option<String>,
    /// The last message sent to the chat.
    pub last_message: Option<String>,
}

/// Model of a registered chat.
pub struct ChatView {
    pub chat_id: i64,
    pub active_workspace: Option<Seq<char>>,
    pub last_message: Option<Seq<char>>,
}

/// The view of an optional string.
pub open spec fn opt_chars(o: Option<String>) -> Option<Seq<char>> {
    match o {
        Some(s) => Some(s@),
        None => None,
    }
}

impl View for RegisteredChat {
    type V = ChatView;

    open spec fn view(&self) -> ChatView {
        ChatView {
            chat_id: self.chat_id,
            active_workspace: opt_chars(self.active_workspace),
            last_message: opt_chars(self.last_message),
        }
    }
}

/// The registered chats, by chat id, and the file that keeps them.
pub struct ChatRegistry {
    /// Chat id to registered chat.
    pub chats: HashMap<i64, RegisteredChat>,
    /// Path of the registry file.
    pub registry_path: String,
}

/// The name of the registry file.
pub const REGISTRY_FILE: &'static str = "telegram_chats.json";

/// The view of an optional string slice.
pub open spec fn opt_str(o: Option<&str>) -> Option<Seq<char>> {
    match o {
        Some(s) => Some(s@),
        None => None,
    }
}

/// The workspace a chat works in: none for an unregistered chat.
pub open spec fn active_workspace_of(chats: Map<i64, RegisteredChat>, id: i64) -> Option<Seq<char>> {
    if chats.contains_key(id) {
        opt_chars(chats[id].active_workspace)
    } else {
        None
    }
}

/// `after` is `before` with chat `id` registered (anew) to work in `workspace`.
pub open spec fn registered(
    before: Map<i64, RegisteredChat>,
    after: Map<i64, RegisteredChat>,
    id: i64,
    workspace: Option<Seq<char>>,
) -> bool {
    &&& after.dom() == before.dom().insert(id)
    &&& forall|k: i64| k != id && before.contains_key(k) ==> after[k] == before[k]
    &&& after[id]@ == (ChatView { chat_id: id, active_workspace: workspace, last_message: None })
}

/// `after` is `before` with the registered chat `id` (if it is one) moved to `workspace`.
pub open spec fn moved(before: Map<i64, RegisteredChat>, after: Map<i64, RegisteredChat>, id: i64, workspace: Seq<char>) -> bool {
    &&& after.dom() == before.dom()
    &&& forall|k: i64| k != id && before.contains_key(k) ==> after[k] == before[k]
    &&& before.contains_key(id) ==> after[id]@ == (ChatView { active_workspace: Some(workspace), ..before[id]@ })
}

/// What a read of the registry gives back of a write: a chat registered with
/// a workspace (or none) works in it, and every other chat keeps its own.
pub proof fn lemma_register_then_read(
    before: Map<i64, RegisteredChat>,
    after: Map<i64, RegisteredChat>,
    id: i64,
    workspace: Option<Seq<char>>,
    other: i64,
)
    requires
        registered(before, after, id, workspace),
    ensures
        active_workspace_of(after, id) == workspace,
        other != id ==> active_workspace_of(after, other) == active_workspace_of(before, other),
{
    assert(after.contains_key(id));
    if other != id {
        assert(after.contains_key(other) == before.contains_key(other));
    }
}

/// Moving a registered chat to a workspace makes it work there; moving an
/// unregistered chat registers nothing; every other chat keeps its own.
pub proof fn lemma_move_then_read(
    before: Map<i64, RegisteredChat>,
    after: Map<i64, RegisteredChat>,
    id: i64,
    workspace: Seq<char>,
    other: i64,
)
    requires
        moved(before, after, id, workspace),
    ensures
        active_workspace_of(after, id) == if before.contains_key(id) { Some(workspace) } else { None },
        other != id ==> active_workspace_of(after, other) == active_workspace_of(before, other),
{
    assert(after.contains_key(id) == before.contains_key(id));
    assert(after.contains_key(other) == before.contains_key(other));
}

/// A copy of an optional string.
fn clone_opt(o: &Option<String>) -> (r: Option<String>)
    ensures
        opt_chars(r) == opt_chars(*o),
{
    match o {
        Some(s) => Some(s.clone()),
        None => None,
    }
}

impl ChatRegistry {
    /// An empty registry kept in `base_dir`.
    pub fn new(base_dir: &str) -> (r: Self)
        ensures
            r.chats@ == Map::<i64, RegisteredChat>::empty(),
            r.registry_path@ == joined_path(base_dir@, REGISTRY_FILE@),
    {
        ChatRegistry { chats: HashMap::new(), registry_path: join_path(base_dir, REGISTRY_FILE) }
    }

    /// Registers a chat working in `workspace`, replacing any previous registration.
    pub fn register_chat(&mut self, chat_id: i64, workspace: Option<&str>)
        ensures
            final(self).registry_path == old(self).registry_path,
            registered(old(self).chats@, final(self).chats@, chat_id, opt_str(workspace)),
    {
        let active_workspace = match workspace {
            Some(w) => Some(owned(w)),
            None => None,
        };
        self.chats.insert(chat_id, RegisteredChat { chat_id, active_workspace, last_message: None });
    }

    /// The registration of a chat.
    pub fn get_chat(&self, chat_id: i64) -> (r: Option<&RegisteredChat>)
        ensures
            match r {
                Some(c) => self.chats@.contains_key(chat_id) && *c == self.chats@[chat_id],
                None => !self.chats@.contains_key(chat_id),
            },
    {
        self.chats.get(&chat_id)
    }

    /// The workspace a chat works in, if it is registered with one.
    pub fn get_active_workspace(&self, chat_id: i64) -> (r: Option<&str>)
        ensures
            opt_str(r) == active_workspace_of(self.chats@, chat_id),
    {
        match self.chats.get(&chat_id) {
            Some(c) => match &c.active_workspace {
                Some(w) => Some(w.as_str()),
                None => None,
            },
            None => None,
        }
    }

    /// Moves a registered chat to another workspace; an unregistered chat is left out.
    pub fn set_active_workspace(&mut self, chat_id: i64, workspace: &str)
        ensures
            final(self).registry_path == old(self).registry_path,
            moved(old(self).chats@, final(self).chats@, chat_id, workspace@),
    {
        let updated = match self.chats.get(&chat_id) {
            Some(c) => Some(RegisteredChat {
                chat_id: c.chat_id,
                active_workspace: Some(owned(workspace)),
                last_message: clone_opt(&c.last_message),
            }),
            None => None,
        };
        match updated {
            Some(c) => {
                self.chats.insert(chat_id, c);
                assert(self.chats@.dom() =~= old(self).chats@.dom());
            },
            None => {},
        }
    }
}

} // verus!
