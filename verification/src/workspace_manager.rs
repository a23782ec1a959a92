//! Workspaces: isolated projects, each with its own directory under a base
//! directory, its owner, and the users allowed on it with their permission.
use vstd::prelude::*;
use crate::text::{
    chars_of, contains, join_path, joined_path, owned, push_str, starts_with, starts_with_chars, str_contains,
    str_eq,
};

verus! {

/// A permission on a workspace.
#[derive(Debug, Clone, Copy, PartialEq, Eq, Structural)]
pub enum Permission {
    /// Read only.
    Read,
    /// Read and write.
    Write,
    /// Full administration.
    Admin,
}

/// The users allowed on a workspace, each with a permission; a user appears
/// at most once as far as lookups go (an insert replaces the permission).
#[derive(Debug, Clone)]
pub struct UserPermissions {
    entries: Vec<(String, Permission)>,
}

/// The permission of user `k` among `es`: that of its first entry.
pub open spec fn lookup(es: Seq<(Seq<char>, Permission)>, k: Seq<char>) -> Option<Permission>
    decreases es.len(),
{
    if es.len() == 0 {
        None
    } else if es[0].0 == k {
        Some(es[0].1)
    } else {
        lookup(es.drop_first(), k)
    }
}

/// The index of the first entry of user `k`.
pub open spec fn lookup_index(es: Seq<(Seq<char>, Permission)>, k: Seq<char>) -> Option<int>
    decreases es.len(),
{
    if es.len() == 0 {
        None
    } else if es[0].0 == k {
        Some(0)
    } else {
        match lookup_index(es.drop_first(), k) {
            Some(i) => Some(i + 1),
            None => None,
        }
    }
}

/// The entries, as user names and permissions.
pub open spec fn entry_views(es: Seq<(String, Permission)>) -> Seq<(Seq<char>, Permission)> {
    es.map_values(|e: (String, Permission)| (e.0@, e.1))
}

/// What `lookup_index` finds.
pub proof fn lemma_lookup_index(es: Seq<(Seq<char>, Permission)>, k: Seq<char>)
    ensures
        match lookup_index(es, k) {
            Some(i) => 0 <= i < es.len() && es[i].0 == k && lookup(es, k) == Some(es[i].1)
                && forall|j: int| 0 <= j < i ==> es[j].0 != k,
            None => lookup(es, k) is None && forall|j: int| 0 <= j < es.len() ==> es[j].0 != k,
        },
    decreases es.len(),
{
    if es.len() > 0 && es[0].0 != k {
        lemma_lookup_index(es.drop_first(), k);
        assert forall|j: int| 1 <= j < es.len() implies es[j] == es.drop_first()[j - 1] by {}
    }
}

/// Replacing the entry at the first index of `k` changes the lookup of `k` only.
pub proof fn lemma_lookup_update(es: Seq<(Seq<char>, Permission)>, k: Seq<char>, v: Permission, q: Seq<char>)
    requires
        lookup_index(es, k) is Some,
    ensures
        lookup(es.update(lookup_index(es, k)->0, (k, v)), q) == if q == k { Some(v) } else { lookup(es, q) },
    decreases es.len(),
{
    lemma_lookup_index(es, k);
    let i = lookup_index(es, k)->0;
    let es2 = es.update(i, (k, v));
    if i == 0 {
        assert(es2.drop_first() =~= es.drop_first());
    } else {
        assert(es[0].0 != k);
        assert(lookup_index(es.drop_first(), k) == Some(i - 1));
        lemma_lookup_update(es.drop_first(), k, v, q);
        assert(es2.drop_first() =~= es.drop_first().update(i - 1, (k, v)));
    }
}

/// Appending an entry for a user without one gives that user the permission.
pub proof fn lemma_lookup_push(es: Seq<(Seq<char>, Permission)>, k: Seq<char>, v: Permission, q: Seq<char>)
    requires
        lookup(es, k) is None,
    ensures
        lookup(es.push((k, v)), q) == if q == k { Some(v) } else { lookup(es, q) },
    decreases es.len(),
{
    if es.len() == 0 {
        assert(es.push((k, v)).drop_first() =~= Seq::<(Seq<char>, Permission)>::empty());
    } else {
        assert(es.push((k, v)).drop_first() =~= es.drop_first().push((k, v)));
        if es[0].0 != k && es[0].0 != q {
            lemma_lookup_push(es.drop_first(), k, v, q);
        } else if es[0].0 != k {
            lemma_lookup_push(es.drop_first(), k, v, q);
        }
    }
}

impl View for UserPermissions {
    type V = Seq<(Seq<char>, Permission)>;

    closed spec fn view(&self) -> Seq<(Seq<char>, Permission)> {
        entry_views(self.entries@)
    }
}

impl UserPermissions {
    /// No user allowed.
    pub fn new() -> (r: Self)
        ensures
            forall|k: Seq<char>| lookup(r@, k) is None,
    {
        let r = UserPermissions { entries: Vec::new() };
        assert(r@ =~= Seq::<(Seq<char>, Permission)>::empty());
        r
    }

    /// The entries, in the order they were first inserted.
    pub fn entries(&self) -> (r: Vec<(String, Permission)>)
        ensures
            entry_views(r@) == self@,
    {
        let mut r: Vec<(String, Permission)> = Vec::new();
        let mut i: usize = 0;
        while i < self.entries.len()
            invariant
                i <= self.entries.len(),
                r@.len() == i,
                forall|k: int| 0 <= k < i ==> (#[trigger] r@[k]).0@ == self.entries@[k].0@ && r@[k].1 == self.entries@[k].1,
            decreases self.entries.len() - i,
        {
            r.push((self.entries[i].0.clone(), self.entries[i].1));
            i = i + 1;
        }
        assert(entry_views(r@) =~= self@);
        r
    }

    /// The index of the first entry of `user`.
    fn find(&self, user: &str) -> (r: Option<usize>)
        ensures
            match r {
                Some(i) => lookup_index(self@, user@) == Some(i as int),
                None => lookup_index(self@, user@) is None,
            },
    {
        proof { lemma_lookup_index(self@, user@); }
        let mut i: usize = 0;
        while i < self.entries.len()
            invariant
                i <= self.entries.len(),
                self@.len() == self.entries.len(),
                forall|j: int| 0 <= j < i ==> self@[j].0 != user@,
            decreases self.entries.len() - i,
        {
            if str_eq(self.entries[i].0.as_str(), user) {
                proof { lemma_lookup_index_first(self@, user@, i as int); }
                return Some(i);
            }
            i = i + 1;
        }
        proof { lemma_lookup_index_first(self@, user@, i as int); }
        None
    }

    /// Is `user` allowed?
    pub fn contains_key(&self, user: &str) -> (r: bool)
        ensures
            r == (lookup(self@, user@) is Some),
    {
        proof { lemma_lookup_index(self@, user@); }
        self.find(user).is_some()
    }

    /// The permission of `user`.
    pub fn get(&self, user: &str) -> (r: Option<&Permission>)
        ensures
            match r {
                Some(p) => lookup(self@, user@) == Some(*p),
                None => lookup(self@, user@) is None,
            },
    {
        proof { lemma_lookup_index(self@, user@); }
        match self.find(user) {
            Some(i) => Some(&self.entries[i].1),
            None => None,
        }
    }

    /// Gives `user` the permission `permission`; returns the one it had.
    pub fn insert(&mut self, user: String, permission: Permission) -> (r: Option<Permission>)
        ensures
            r == lookup(old(self)@, user@),
            forall|q: Seq<char>| #[trigger] lookup(final(self)@, q) == if q == user@ { Some(permission) } else {
                lookup(old(self)@, q)
            },
    {
        proof { lemma_lookup_index(self@, user@); }
        let ghost old_es = self@;
        match self.find(user.as_str()) {
            Some(i) => {
                let previous = self.entries[i].1;
                let ghost u = user@;
                self.entries.set(i, (user, permission));
                assert(self@ =~= old_es.update(i as int, (u, permission)));
                assert forall|q: Seq<char>| #[trigger] lookup(self@, q) == if q == u { Some(permission) } else {
                    lookup(old_es, q)
                } by {
                    lemma_lookup_update(old_es, u, permission, q);
                }
                Some(previous)
            },
            None => {
                let ghost u = user@;
                self.entries.push((user, permission));
                assert(self@ =~= old_es.push((u, permission)));
                assert forall|q: Seq<char>| #[trigger] lookup(self@, q) == if q == u { Some(permission) } else {
                    lookup(old_es, q)
                } by {
                    lemma_lookup_push(old_es, u, permission, q);
                }
                None
            },
        }
    }
}

/// `lookup_index` is the first index whose user is `k`.
pub proof fn lemma_lookup_index_first(es: Seq<(Seq<char>, Permission)>, k: Seq<char>, i: int)
    requires
        0 <= i <= es.len(),
        forall|j: int| 0 <= j < i ==> es[j].0 != k,
        i < es.len() ==> es[i].0 == k,
    ensures
        lookup_index(es, k) == if i < es.len() { Some(i) } else { None::<int> },
    decreases es.len(),
{
    if es.len() > 0 && i > 0 {
        assert forall|j: int| 0 <= j < i - 1 implies es.drop_first()[j].0 != k by {
            assert(es.drop_first()[j] == es[j + 1]);
        }
        lemma_lookup_index_first(es.drop_first(), k, i - 1);
    }
}


// ---------------------------------------------------------------------------
// Workspaces and their registry
// ---------------------------------------------------------------------------

/// Resource limits of a workspace's sandbox.
#[derive(Debug, Clone, Copy, PartialEq, Eq, Structural)]
pub struct WorkspaceResources {
    /// Memory limit in MB (512 by default).
    pub memory_mb: u32,
    /// CPU quota in thousandths of a core (500, half a core, by default).
    pub cpu_quota_permille: u32,
}

impl WorkspaceResources {
    /// The default limits: 512 MB and half a core.
    pub fn default_limits() -> (r: Self)
        ensures
            r.memory_mb == 512,
            r.cpu_quota_permille == 500,
    {
        WorkspaceResources { memory_mb: 512, cpu_quota_permille: 500 }
    }
}

/// A registered workspace.
#[derive(Debug, Clone)]
pub struct Workspace {
    pub id: String,
    pub owner: String,
    pub allowed_users: UserPermissions,
    pub path: String,
    pub resources: WorkspaceResources,
}

/// The model of a workspace.
pub struct WorkspaceView {
    pub id: Seq<char>,
    pub owner: Seq<char>,
    pub allowed_users: Seq<(Seq<char>, Permission)>,
    pub path: Seq<char>,
    pub resources: WorkspaceResources,
}

impl View for Workspace {
    type V = WorkspaceView;

    open spec fn view(&self) -> WorkspaceView {
        WorkspaceView {
            id: self.id@,
            owner: self.owner@,
            allowed_users: self.allowed_users@,
            path: self.path@,
            resources: self.resources,
        }
    }
}

impl Workspace {
    /// A workspace `id` of `owner`, in the directory `id` under `base_dir`,
    /// with the owner as its administrator and the default limits.
    pub fn new(id: &str, owner: &str, base_dir: &str) -> (w: Self)
        ensures
            w.id@ == id@,
            w.owner@ == owner@,
            w.path@ == joined_path(base_dir@, id@),
            forall|q: Seq<char>| #[trigger] lookup(w.allowed_users@, q) == if q == owner@ {
                Some(Permission::Admin)
            } else {
                None
            },
            w.resources == WorkspaceResources::default_limits_spec(),
    {
        let mut allowed_users = UserPermissions::new();
        allowed_users.insert(owned(owner), Permission::Admin);
        Workspace {
            id: owned(id),
            owner: owned(owner),
            allowed_users,
            path: join_path(base_dir, id),
            resources: WorkspaceResources::default_limits(),
        }
    }
}

impl Default for WorkspaceResources {
    /// The default limits: 512 MB and half a core.
    fn default() -> (r: Self)
        ensures
            r == WorkspaceResources::default_limits_spec(),
    {
        WorkspaceResources::default_limits()
    }
}

impl Default for WorkspaceRegistry {
    /// An empty registry.
    fn default() -> (r: Self)
        ensures
            r.workspaces@.len() == 0,
    {
        WorkspaceRegistry::new()
    }
}

impl WorkspaceResources {
    /// The default limits.
    pub open spec fn default_limits_spec() -> Self {
        WorkspaceResources { memory_mb: 512, cpu_quota_permille: 500 }
    }
}

/// All workspaces.
#[derive(Debug, Clone)]
pub struct WorkspaceRegistry {
    pub workspaces: Vec<Workspace>,
}

/// The index of the first workspace with id `id`.
pub open spec fn index_of(ws: Seq<Workspace>, id: Seq<char>) -> Option<int> {
    if exists|i: int| 0 <= i < ws.len() && ws[i].id@ == id {
        Some(choose|i: int| 0 <= i < ws.len() && ws[i].id@ == id && forall|j: int| 0 <= j < i ==> ws[j].id@ != id)
    } else {
        None
    }
}

/// No two workspaces share an id.
pub open spec fn ids_unique(ws: Seq<Workspace>) -> bool {
    forall|i: int, j: int| 0 <= i < ws.len() && 0 <= j < ws.len() && i != j ==> ws[i].id@ != ws[j].id@
}

/// `index_of` is the first index with that id.
pub proof fn lemma_index_of(ws: Seq<Workspace>, id: Seq<char>, k: int)
    requires
        0 <= k <= ws.len(),
        forall|j: int| 0 <= j < k ==> ws[j].id@ != id,
        k < ws.len() ==> ws[k].id@ == id,
    ensures
        index_of(ws, id) == if k < ws.len() { Some(k) } else { None::<int> },
{
    if k < ws.len() {
        assert(0 <= k < ws.len() && ws[k].id@ == id && forall|j: int| 0 <= j < k ==> ws[j].id@ != id);
        let i = choose|i: int| 0 <= i < ws.len() && ws[i].id@ == id && forall|j: int| 0 <= j < i ==> ws[j].id@ != id;
        if i < k {
        } else if i > k {
        }
    }
}

impl WorkspaceRegistry {
    /// An empty registry.
    pub fn new() -> (r: Self)
        ensures
            r.workspaces@.len() == 0,
    {
        WorkspaceRegistry { workspaces: Vec::new() }
    }

    /// The index of the first workspace with id `id`.
    fn position(&self, id: &str) -> (r: Option<usize>)
        ensures
            match r {
                Some(i) => index_of(self.workspaces@, id@) == Some(i as int) && i < self.workspaces.len(),
                None => index_of(self.workspaces@, id@) is None,
            },
    {
        let mut i: usize = 0;
        while i < self.workspaces.len()
            invariant
                i <= self.workspaces.len(),
                forall|j: int| 0 <= j < i ==> self.workspaces@[j].id@ != id@,
            decreases self.workspaces.len() - i,
        {
            if str_eq(self.workspaces[i].id.as_str(), id) {
                proof { lemma_index_of(self.workspaces@, id@, i as int); }
                return Some(i);
            }
            i = i + 1;
        }
        proof { lemma_index_of(self.workspaces@, id@, i as int); }
        None
    }

    /// The workspace with id `id`.
    pub fn get(&self, id: &str) -> (r: Option<&Workspace>)
        ensures
            match index_of(self.workspaces@, id@) {
                Some(i) => r == Some(&self.workspaces@[i]),
                None => r is None,
            },
    {
        match self.position(id) {
            Some(i) => Some(&self.workspaces[i]),
            None => None,
        }
    }

    /// Registers a workspace.
    pub fn add(&mut self, workspace: Workspace)
        ensures
            final(self).workspaces@ == old(self).workspaces@.push(workspace),
    {
        self.workspaces.push(workspace);
    }

    /// Unregisters the workspace with id `id` and returns it.
    pub fn remove(&mut self, id: &str) -> (r: Option<Workspace>)
        ensures
            match index_of(old(self).workspaces@, id@) {
                Some(i) => r == Some(old(self).workspaces@[i]) && final(self).workspaces@ == old(self).workspaces@.remove(i),
                None => r is None && final(self).workspaces@ == old(self).workspaces@,
            },
    {
        match self.position(id) {
            Some(i) => Some(self.workspaces.remove(i)),
            None => None,
        }
    }

    /// All workspaces, in registration order.
    pub fn list_workspaces(&self) -> (r: Vec<&Workspace>)
        ensures
            r@.len() == self.workspaces@.len(),
            forall|i: int| 0 <= i < r@.len() ==> *r@[i] == self.workspaces@[i],
    {
        let mut r: Vec<&Workspace> = Vec::new();
        let mut i: usize = 0;
        while i < self.workspaces.len()
            invariant
                i <= self.workspaces.len(),
                r@.len() == i,
                forall|k: int| 0 <= k < i ==> *r@[k] == self.workspaces@[k],
            decreases self.workspaces.len() - i,
        {
            r.push(&self.workspaces[i]);
            i = i + 1;
        }
        r
    }

    /// Is `user_id` allowed on the workspace `workspace_id`?
    pub fn check_permission(&self, workspace_id: &str, user_id: &str) -> (r: bool)
        ensures
            r == match index_of(self.workspaces@, workspace_id@) {
                Some(i) => lookup(self.workspaces@[i].allowed_users@, user_id@) is Some,
                None => false,
            },
    {
        match self.get(workspace_id) {
            Some(ws) => ws.allowed_users.contains_key(user_id),
            None => false,
        }
    }

    /// The permission of `user_id` on the workspace `workspace_id`.
    pub fn get_permission(&self, workspace_id: &str, user_id: &str) -> (r: Option<Permission>)
        ensures
            r == match index_of(self.workspaces@, workspace_id@) {
                Some(i) => lookup(self.workspaces@[i].allowed_users@, user_id@),
                None => None,
            },
    {
        match self.get(workspace_id) {
            Some(ws) => match ws.allowed_users.get(user_id) {
                Some(p) => Some(*p),
                None => None,
            },
            None => None,
        }
    }
}

// ---------------------------------------------------------------------------
// The workspace manager
// ---------------------------------------------------------------------------

/// Characters allowed in a workspace id: ASCII letters and digits, '-' and '_'.
pub open spec fn is_id_char(c: char) -> bool {
    ('0' <= c && c <= '9') || ('a' <= c && c <= 'z') || ('A' <= c && c <= 'Z') || c == '-' || c == '_'
}

/// A valid workspace id: not empty, only allowed characters.
pub open spec fn valid_id(id: Seq<char>) -> bool {
    id.len() > 0 && forall|i: int| 0 <= i < id.len() ==> is_id_char(id[i])
}

/// `p` lies under the directory `base`: `base` is a prefix of `p` that ends at a separator.
pub open spec fn within(p: Seq<char>, base: Seq<char>) -> bool {
    base.len() == 0 || (starts_with(p, base) && (p.len() == base.len() || base.last() == '/' || p[base.len() as int] == '/'))
}

/// A path as the manager resolves it: absolute paths as they are, relative
/// ones under `base`.
pub open spec fn resolved_path(base: Seq<char>, p: Seq<char>) -> Seq<char> {
    if p.len() > 0 && p[0] == '/' { p } else { joined_path(base, p) }
}

/// A name joined to `base` lies under `base`.
pub proof fn lemma_joined_within(base: Seq<char>, name: Seq<char>)
    ensures
        within(joined_path(base, name), base),
{
    let j = joined_path(base, name);
    if base.len() > 0 {
        assert(j.subrange(0, base.len() as int) =~= base);
    }
}

/// Prefix of the message of an invalid id.
pub const INVALID_ID: &'static str = "ID de workspace invàlid: només alfanumèrics, guions i guions baixes. Got: ";
/// Opening of the messages about a named workspace.
pub const WORKSPACE_QUOTE: &'static str = "El workspace '";
/// Closing of the message about a workspace that exists already.
pub const ALREADY_EXISTS: &'static str = "' ja existeix";
/// Closing of the message about a workspace that does not exist.
pub const DOES_NOT_EXIST: &'static str = "' no existeix";
/// Prefix of the message about a path with "..".
pub const PARENT_REFUSED: &'static str = "Ruta no permessa (conté '..'): ";
/// The message about a path outside the base directory.
pub const OUTSIDE_BASE: &'static str = "Ruta fora del directori base";
/// The name of the registry file.
pub const REGISTRY_FILE: &'static str = "workspaces.json";

/// The workspaces and the base directory they live in.
pub struct WorkspaceManager {
    /// The directory under which workspaces are created.
    pub base_dir: String,
    /// The path of the registry file.
    pub registry_path: String,
    /// The registry.
    pub registry: WorkspaceRegistry,
}

impl Workspace {
    /// A copy of the workspace.
    pub fn duplicate(&self) -> (r: Self)
        ensures
            r@ == self@,
    {
        Workspace {
            id: self.id.clone(),
            owner: self.owner.clone(),
            allowed_users: self.allowed_users.duplicate(),
            path: self.path.clone(),
            resources: self.resources,
        }
    }
}

impl UserPermissions {
    /// A copy of the permissions.
    pub fn duplicate(&self) -> (r: Self)
        ensures
            r@ == self@,
    {
        let mut entries: Vec<(String, Permission)> = Vec::new();
        let mut i: usize = 0;
        while i < self.entries.len()
            invariant
                i <= self.entries.len(),
                entries@.len() == i,
                forall|k: int| 0 <= k < i ==> (#[trigger] entries@[k]).0@ == self.entries@[k].0@
                    && entries@[k].1 == self.entries@[k].1,
            decreases self.entries.len() - i,
        {
            let e = (self.entries[i].0.clone(), self.entries[i].1);
            entries.push(e);
            i = i + 1;
        }
        let r = UserPermissions { entries };
        assert(r@ =~= self@);
        r
    }
}

impl WorkspaceManager {
    /// A manager of the workspaces under `base_dir`, with their registry.
    pub fn new(base_dir: &str, registry: WorkspaceRegistry) -> (m: Self)
        ensures
            m.base_dir@ == base_dir@,
            m.registry_path@ == joined_path(base_dir@, REGISTRY_FILE@),
            m.registry == registry,
    {
        WorkspaceManager { base_dir: owned(base_dir), registry_path: join_path(base_dir, REGISTRY_FILE), registry }
    }

    /// Is `id` a valid workspace id: not empty, made of ASCII letters and
    /// digits, '-' and '_'?
    pub fn is_valid_workspace_id(id: &str) -> (r: bool)
        ensures
            r == valid_id(id@),
    {
        let v = chars_of(id);
        let mut i: usize = 0;
        while i < v.len()
            invariant
                i <= v.len(),
                v@ == id@,
                forall|k: int| 0 <= k < i ==> is_id_char(v@[k]),
            decreases v.len() - i,
        {
            let c = v[i];
            if !(('0' <= c && c <= '9') || ('a' <= c && c <= 'z') || ('A' <= c && c <= 'Z') || c == '-' || c == '_') {
                return false;
            }
            i = i + 1;
        }
        v.len() > 0
    }

    /// Checks a path for "..": refused when it holds one; else the path
    /// resolved (relative paths under the base directory).
    pub fn validate_path(&self, path: &str) -> (r: Result<String, String>)
        ensures
            contains(path@, ".."@) ==> (r matches Err(e) && e@ == PARENT_REFUSED@ + path@),
            !contains(path@, ".."@) ==> (r matches Ok(p) && p@ == resolved_path(self.base_dir@, path@)),
    {
        if str_contains(path, "..") {
            let mut e = owned(PARENT_REFUSED);
            push_str(&mut e, path);
            return Err(e);
        }
        let v = chars_of(path);
        if v.len() > 0 && v[0] == '/' {
            Ok(owned(path))
        } else {
            Ok(join_path(self.base_dir.as_str(), path))
        }
    }

    /// The workspace `id` of `owner` that creating it would register, or why it cannot be created.
    pub fn plan_workspace(&self, id: &str, owner: &str) -> (r: Result<Workspace, String>)
        ensures
            !valid_id(id@) ==> (r matches Err(e) && e@ == INVALID_ID@ + id@),
            valid_id(id@) && index_of(self.registry.workspaces@, id@) is Some ==> (r matches Err(e)
                && e@ == WORKSPACE_QUOTE@ + id@ + ALREADY_EXISTS@),
            valid_id(id@) && index_of(self.registry.workspaces@, id@) is None
                && contains(joined_path(self.base_dir@, id@), ".."@) ==> (r matches Err(e)
                && e@ == PARENT_REFUSED@ + joined_path(self.base_dir@, id@)),
            valid_id(id@) && index_of(self.registry.workspaces@, id@) is None
                && !contains(joined_path(self.base_dir@, id@), ".."@) ==> (r matches Ok(w)
                && w.id@ == id@ && w.owner@ == owner@
                && w.path@ == joined_path(self.base_dir@, id@)
                && within(resolved_path(self.base_dir@, w.path@), self.base_dir@)
                && w.resources == WorkspaceResources::default_limits_spec()
                && forall|q: Seq<char>| #[trigger] lookup(w.allowed_users@, q) == if q == owner@ {
                    Some(Permission::Admin)
                } else {
                    None
                }),
    {
        if !Self::is_valid_workspace_id(id) {
            let mut e = owned(INVALID_ID);
            push_str(&mut e, id);
            return Err(e);
        }
        if self.registry.position(id).is_some() {
            let mut e = owned(WORKSPACE_QUOTE);
            push_str(&mut e, id);
            push_str(&mut e, ALREADY_EXISTS);
            return Err(e);
        }
        let workspace = Workspace::new(id, owner, self.base_dir.as_str());
        let resolved = self.validate_path(workspace.path.as_str())?;
        proof {
            lemma_joined_within(self.base_dir@, id@);
            lemma_joined_within(self.base_dir@, workspace.path@);
        }
        let rv = chars_of(resolved.as_str());
        let bv = chars_of(self.base_dir.as_str());
        let inside = bv.len() == 0 || (starts_with_chars(&rv, &bv) && (rv.len() == bv.len() || bv[bv.len() - 1] == '/'
            || rv[bv.len()] == '/'));
        if !inside {
            return Err(owned(OUTSIDE_BASE));
        }
        Ok(workspace)
    }

    /// Creates and registers the workspace `id` of `owner`, or says why it cannot.
    pub fn create_workspace(&mut self, id: &str, owner: &str) -> (r: Result<Workspace, String>)
        ensures
            r matches Ok(w) ==> final(self).registry.workspaces@.len() == old(self).registry.workspaces@.len() + 1
                && final(self).registry.workspaces@.drop_last() == old(self).registry.workspaces@
                && final(self).registry.workspaces@.last()@ == w@,
            r is Err ==> final(self).registry.workspaces@ == old(self).registry.workspaces@,
            final(self).base_dir == old(self).base_dir,
            final(self).registry_path == old(self).registry_path,
            !valid_id(id@) ==> (r matches Err(e) && e@ == INVALID_ID@ + id@),
            valid_id(id@) && index_of(old(self).registry.workspaces@, id@) is Some ==> (r matches Err(e)
                && e@ == WORKSPACE_QUOTE@ + id@ + ALREADY_EXISTS@),
            valid_id(id@) && index_of(old(self).registry.workspaces@, id@) is None
                && contains(joined_path(old(self).base_dir@, id@), ".."@) ==> (r matches Err(e)
                && e@ == PARENT_REFUSED@ + joined_path(old(self).base_dir@, id@)),
            valid_id(id@) && index_of(old(self).registry.workspaces@, id@) is None
                && !contains(joined_path(old(self).base_dir@, id@), ".."@) ==> (r matches Ok(w)
                && w.id@ == id@ && w.owner@ == owner@
                && w.path@ == joined_path(old(self).base_dir@, id@)
                && within(resolved_path(old(self).base_dir@, w.path@), old(self).base_dir@)
                && w.resources == WorkspaceResources::default_limits_spec()
                && forall|q: Seq<char>| #[trigger] lookup(w.allowed_users@, q) == if q == owner@ {
                    Some(Permission::Admin)
                } else {
                    None
                }),
            ids_unique(old(self).registry.workspaces@) ==> ids_unique(final(self).registry.workspaces@),
    {
        let workspace = self.plan_workspace(id, owner)?;
        proof { lemma_index_of_absent(self.registry.workspaces@, id@); }
        let ghost before = self.registry.workspaces@;
        self.registry.add(workspace.duplicate());
        assert(self.registry.workspaces@.drop_last() =~= before);
        Ok(workspace)
    }

    /// The workspace with id `id`.
    pub fn get_workspace(&self, id: &str) -> (r: Option<&Workspace>)
        ensures
            match index_of(self.registry.workspaces@, id@) {
                Some(i) => r == Some(&self.registry.workspaces@[i]),
                None => r is None,
            },
    {
        self.registry.get(id)
    }

    /// Is `user_id` allowed on the workspace `workspace_id`?
    pub fn has_permission(&self, workspace_id: &str, user_id: &str) -> (r: bool)
        ensures
            r == match index_of(self.registry.workspaces@, workspace_id@) {
                Some(i) => lookup(self.registry.workspaces@[i].allowed_users@, user_id@) is Some,
                None => false,
            },
    {
        self.registry.check_permission(workspace_id, user_id)
    }

    /// The permission of `user_id` on the workspace `workspace_id`.
    pub fn get_user_permission(&self, workspace_id: &str, user_id: &str) -> (r: Option<Permission>)
        ensures
            r == match index_of(self.registry.workspaces@, workspace_id@) {
                Some(i) => lookup(self.registry.workspaces@[i].allowed_users@, user_id@),
                None => None,
            },
    {
        self.registry.get_permission(workspace_id, user_id)
    }

    /// All workspaces, in registration order.
    pub fn list_workspaces(&self) -> (r: Vec<&Workspace>)
        ensures
            r@.len() == self.registry.workspaces@.len(),
            forall|i: int| 0 <= i < r@.len() ==> *r@[i] == self.registry.workspaces@[i],
    {
        self.registry.list_workspaces()
    }

    /// Unregisters the workspace `id` (its directory stays) and returns it.
    pub fn remove_workspace(&mut self, id: &str) -> (r: Result<Workspace, String>)
        ensures
            final(self).base_dir == old(self).base_dir,
            final(self).registry_path == old(self).registry_path,
            match index_of(old(self).registry.workspaces@, id@) {
                Some(i) => r == Ok::<Workspace, String>(old(self).registry.workspaces@[i])
                    && final(self).registry.workspaces@ == old(self).registry.workspaces@.remove(i),
                None => (r matches Err(e) && e@ == WORKSPACE_QUOTE@ + id@ + DOES_NOT_EXIST@)
                    && final(self).registry.workspaces@ == old(self).registry.workspaces@,
            },
            ids_unique(old(self).registry.workspaces@) ==> index_of(final(self).registry.workspaces@, id@) is None
                && ids_unique(final(self).registry.workspaces@),
    {
        proof { lemma_remove_unique(self.registry.workspaces@, id@); }
        match self.registry.remove(id) {
            Some(ws) => Ok(ws),
            None => {
                let mut e = owned(WORKSPACE_QUOTE);
                push_str(&mut e, id);
                push_str(&mut e, DOES_NOT_EXIST);
                Err(e)
            },
        }
    }
}

/// What a read of the registry gives back of a creation: once a workspace
/// is appended to a registry that had none with its id, looking its id up
/// finds it, at the end, and every other id is found where it was.
pub proof fn lemma_created_is_found(before: Seq<Workspace>, after: Seq<Workspace>, w: WorkspaceView, other: Seq<char>)
    requires
        index_of(before, w.id) is None,
        after.len() == before.len() + 1,
        after.drop_last() == before,
        after.last()@ == w,
    ensures
        index_of(after, w.id) == Some(before.len() as int),
        after[before.len() as int]@ == w,
        other != w.id ==> index_of(after, other) == index_of(before, other),
{
    assert forall|j: int| 0 <= j < before.len() implies after[j].id@ != w.id by {
        assert(after.drop_last()[j] == after[j]);
    }
    lemma_index_of(after, w.id, before.len() as int);
    if other != w.id {
        match index_of(before, other) {
            Some(k) => {
                lemma_index_of_spec(before, other);
                assert forall|j: int| 0 <= j < k implies after[j].id@ != other by {
                    assert(after.drop_last()[j] == after[j]);
                }
                assert(after.drop_last()[k] == after[k]);
                lemma_index_of(after, other, k);
            },
            None => {
                lemma_index_of_spec(before, other);
                assert forall|j: int| 0 <= j < after.len() implies after[j].id@ != other by {
                    if j < before.len() {
                        assert(after.drop_last()[j] == after[j]);
                    }
                }
                lemma_index_of(after, other, after.len() as int);
            },
        }
    }
}

/// What `index_of` gives: the first index with the id, or none when no workspace has it.
pub proof fn lemma_index_of_spec(ws: Seq<Workspace>, id: Seq<char>)
    ensures
        match index_of(ws, id) {
            Some(k) => 0 <= k < ws.len() && ws[k].id@ == id && forall|j: int| 0 <= j < k ==> ws[j].id@ != id,
            None => forall|j: int| 0 <= j < ws.len() ==> ws[j].id@ != id,
        },
{
    if exists|i: int| 0 <= i < ws.len() && ws[i].id@ == id {
        let i = choose|i: int| 0 <= i < ws.len() && ws[i].id@ == id;
        lemma_index_of_first(ws, id, i);
    }
}

/// When some workspace at `j` has the id, `index_of` finds the first one, at or before `j`.
pub proof fn lemma_index_of_first(ws: Seq<Workspace>, id: Seq<char>, j: int)
    requires
        0 <= j < ws.len(),
        ws[j].id@ == id,
    ensures
        index_of(ws, id) matches Some(k) && 0 <= k <= j && ws[k].id@ == id && forall|i: int| 0 <= i < k ==> ws[i].id@ != id,
    decreases j,
{
    if exists|k: int| 0 <= k < j && ws[k].id@ == id {
        let k = choose|k: int| 0 <= k < j && ws[k].id@ == id;
        lemma_index_of_first(ws, id, k);
    } else {
        lemma_index_of(ws, id, j);
    }
}

/// A workspace with an id absent from a registry keeps its ids unique.
pub proof fn lemma_index_of_absent(ws: Seq<Workspace>, id: Seq<char>)
    ensures
        index_of(ws, id) is None ==> forall|i: int| 0 <= i < ws.len() ==> ws[i].id@ != id,
{
}

/// Removing the workspace `id` from a registry with unique ids leaves none with that id.
pub proof fn lemma_remove_unique(ws: Seq<Workspace>, id: Seq<char>)
    ensures
        ids_unique(ws) ==> match index_of(ws, id) {
            Some(i) => index_of(ws.remove(i), id) is None && ids_unique(ws.remove(i)),
            None => true,
        },
{
    if ids_unique(ws) {
        match index_of(ws, id) {
            Some(i) => {
                let r = ws.remove(i);
                assert forall|k: int| 0 <= k < r.len() implies r[k].id@ != id by {
                    if k < i {
                        assert(r[k] == ws[k]);
                    } else {
                        assert(r[k] == ws[k + 1]);
                    }
                }
                assert forall|a: int, b: int| 0 <= a < r.len() && 0 <= b < r.len() && a != b implies r[a].id@ != r[b].id@ by {
                    let a2 = if a < i { a } else { a + 1 };
                    let b2 = if b < i { b } else { b + 1 };
                    assert(r[a] == ws[a2]);
                    assert(r[b] == ws[b2]);
                }
            },
            None => {},
        }
    }
}

/// Two workspaces with different valid ids under the same base directory
/// have separate directories: neither lies under the other.
pub proof fn lemma_workspace_paths_disjoint(base: Seq<char>, id1: Seq<char>, id2: Seq<char>)
    requires
        valid_id(id1),
        valid_id(id2),
        id1 != id2,
    ensures
        !within(joined_path(base, id1), joined_path(base, id2)),
{
    let p1 = joined_path(base, id1);
    let p2 = joined_path(base, id2);
    let pre = p1.len() - id1.len();
    assert(p2.len() - id2.len() == pre);
    if within(p1, p2) {
        assert(p2.len() > 0);
        assert(p1.subrange(0, p2.len() as int) == p2);
        assert forall|k: int| 0 <= k < id2.len() implies id1[k] == id2[k] by {
            assert(p1[pre + k] == id1[k]);
            assert(p2[pre + k] == id2[k]);
            assert(p1.subrange(0, p2.len() as int)[pre + k] == p1[pre + k]);
        }
        if p1.len() == p2.len() {
            assert(id1 =~= id2);
        } else {
            assert(p2.last() == id2.last());
            assert(!is_id_char('/'));
            assert(p1[p2.len() as int] == id1[id2.len() as int]);
        }
    }
}
} // verus!
