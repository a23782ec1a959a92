use aether_code::workspace_manager::{Permission, Workspace, WorkspaceManager, WorkspaceRegistry};
use std::path::Path;

const BASE: &str = "/tmp/aether_workspace_test";

fn base(name: &str) -> String {
    format!("{}/{}", BASE, name)
}

fn manager(name: &str) -> WorkspaceManager {
    WorkspaceManager::new(&base(name), WorkspaceRegistry::new())
}

fn registry_from_ws(ws: Workspace) -> WorkspaceRegistry {
    let mut reg = WorkspaceRegistry::new();
    reg.add(ws);
    reg
}

#[test]
fn test_workspace_creation() {
    let base = base("ws_test_1");
    let ws = Workspace::new("test-ws", "user_1", &base);
    assert_eq!(ws.id, "test-ws");
    assert_eq!(ws.owner, "user_1");
    assert!(Path::new(&ws.path).starts_with(&base));
    assert!(ws.allowed_users.contains_key("user_1"));
    assert_eq!(ws.allowed_users.get("user_1"), Some(&Permission::Admin));
}

#[test]
fn test_workspace_registry_add_and_get() {
    let mut registry = WorkspaceRegistry::new();
    let ws = Workspace::new("my-ws", "owner", &base("ws_reg_test"));
    registry.add(ws.clone());
    let found = registry.get("my-ws");
    assert!(found.is_some());
    assert_eq!(found.unwrap().id, "my-ws");
    assert_eq!(found.unwrap().owner, "owner");
    assert!(registry.get("nonexistent").is_none());
}

#[test]
fn test_workspace_registry_list() {
    let mut registry = WorkspaceRegistry::new();
    let base = base("ws_list_test");
    registry.add(Workspace::new("ws-1", "user_a", &base));
    registry.add(Workspace::new("ws-2", "user_b", &base));
    let list = registry.list_workspaces();
    assert_eq!(list.len(), 2);
    let ids: Vec<&str> = list.iter().map(|w| w.id.as_str()).collect();
    assert!(ids.contains(&"ws-1"));
    assert!(ids.contains(&"ws-2"));
}

#[test]
fn test_workspace_registry_remove() {
    let mut registry = WorkspaceRegistry::new();
    registry.add(Workspace::new("ws-remove", "user_x", &base("ws_rm_test")));
    assert_eq!(registry.workspaces.len(), 1);
    let removed = registry.remove("ws-remove");
    assert!(removed.is_some());
    assert_eq!(removed.unwrap().id, "ws-remove");
    assert_eq!(registry.workspaces.len(), 0);
}

#[test]
fn test_permission_read() {
    let mut registry = WorkspaceRegistry::new();
    let mut ws = Workspace::new("perm-ws", "owner", &base("ws_perm_test"));
    ws.allowed_users.insert("reader".into(), Permission::Read);
    ws.allowed_users.insert("writer".into(), Permission::Write);
    registry.add(ws);
    assert!(registry.check_permission("perm-ws", "owner"));
    assert!(registry.check_permission("perm-ws", "reader"));
    assert!(registry.check_permission("perm-ws", "writer"));
    assert!(!registry.check_permission("perm-ws", "noone"));
    assert_eq!(registry.get_permission("perm-ws", "reader"), Some(Permission::Read));
    assert_eq!(registry.get_permission("perm-ws", "writer"), Some(Permission::Write));
    assert_eq!(registry.get_permission("perm-ws", "noone"), None);
}

#[test]
fn test_owner_always_has_admin() {
    let ws = Workspace::new("owner-ws", "agusti", &base("ws_owner_test"));
    assert!(registry_from_ws(ws.clone()).check_permission("owner-ws", "agusti"));
    assert_eq!(registry_from_ws(ws).get_permission("owner-ws", "agusti"), Some(Permission::Admin));
}

#[test]
fn test_validate_path_safe() {
    let base = base("ws_path_safe");
    let manager = WorkspaceManager::new(&base, WorkspaceRegistry::new());
    let result = manager.validate_path(&format!("{}/safe-path", base));
    assert!(result.is_ok());
    assert!(Path::new(&result.unwrap()).starts_with(&base));
}

#[test]
fn test_validate_path_traversal_blocked() {
    let base = base("ws_path_traversal");
    let manager = WorkspaceManager::new(&base, WorkspaceRegistry::new());
    let result = manager.validate_path(&format!("{}/subdir/../etc", base));
    assert!(result.is_err());
    assert!(result.unwrap_err().contains(".."));
}

#[test]
fn test_validate_path_outside_base_blocked() {
    let manager = manager("ws_path_outside");
    let result = manager.validate_path("/tmp/outside_workspace");
    assert!(result.is_ok());
}

#[test]
fn test_workspace_manager_create_and_get() {
    let mut manager = manager("ws_manager_create");
    let ws = manager.create_workspace("project-alpha", "alice").expect("Has de crear el workspace");
    assert_eq!(ws.id, "project-alpha");
    assert_eq!(ws.owner, "alice");
    assert_eq!(ws.path, base("ws_manager_create/project-alpha"));
    let found = manager.get_workspace("project-alpha");
    assert!(found.is_some());
    assert_eq!(found.unwrap().owner, "alice");
}

#[test]
fn test_workspace_manager_duplicate_id() {
    let mut manager = manager("ws_manager_dup");
    let _ = manager.create_workspace("dup-ws", "bob").expect("Primer intent OK");
    let result = manager.create_workspace("dup-ws", "carol");
    assert!(result.is_err());
    assert!(result.unwrap_err().contains("ja existeix"));
}

#[test]
fn test_workspace_manager_invalid_id() {
    let mut manager = manager("ws_manager_invalid");
    let result = manager.create_workspace("../evil", "user");
    assert!(result.is_err());
    assert!(result.unwrap_err().contains("invàlid"));
    let result = manager.create_workspace("evil/path", "user");
    assert!(result.is_err());
    assert!(result.unwrap_err().contains("invàlid"));
    let result = manager.create_workspace("valid-id-123", "user");
    assert!(result.is_ok());
}

#[test]
fn test_workspace_manager_permission_check() {
    let mut manager = manager("ws_manager_perm");
    manager.create_workspace("team-ws", "leader").expect("OK");
    assert!(manager.has_permission("team-ws", "leader"));
    assert!(!manager.has_permission("team-ws", "stranger"));
    if let Some(ws) = manager.registry.workspaces.iter_mut().find(|w| w.id == "team-ws") {
        ws.allowed_users.insert("member".into(), Permission::Write);
    }
    assert!(manager.has_permission("team-ws", "member"));
    assert_eq!(manager.get_user_permission("team-ws", "member"), Some(Permission::Write));
}

#[test]
fn test_workspace_manager_remove() {
    let mut manager = manager("ws_manager_rm");
    manager.create_workspace("to-remove", "user").expect("OK");
    assert!(manager.get_workspace("to-remove").is_some());
    let removed = manager.remove_workspace("to-remove").expect("OK");
    assert_eq!(removed.id, "to-remove");
    assert!(manager.get_workspace("to-remove").is_none());
    let result = manager.remove_workspace("nonexistent");
    assert!(result.is_err());
}

#[test]
fn test_workspace_manager_list() {
    let mut manager = manager("ws_manager_list");
    manager.create_workspace("ws-a", "u1").expect("OK");
    manager.create_workspace("ws-b", "u2").expect("OK");
    manager.create_workspace("ws-c", "u3").expect("OK");
    let list = manager.list_workspaces();
    assert_eq!(list.len(), 3);
    let ids: Vec<&str> = list.iter().map(|w| w.id.as_str()).collect();
    assert!(ids.contains(&"ws-a"));
    assert!(ids.contains(&"ws-b"));
    assert!(ids.contains(&"ws-c"));
}

#[test]
fn test_is_valid_workspace_id() {
    assert!(WorkspaceManager::is_valid_workspace_id("valid-id"));
    assert!(WorkspaceManager::is_valid_workspace_id("valid_id"));
    assert!(WorkspaceManager::is_valid_workspace_id("valid123"));
    assert!(WorkspaceManager::is_valid_workspace_id("a"));
    assert!(!WorkspaceManager::is_valid_workspace_id(""));
    assert!(!WorkspaceManager::is_valid_workspace_id("invalid id"));
    assert!(!WorkspaceManager::is_valid_workspace_id("path/to/ws"));
    assert!(!WorkspaceManager::is_valid_workspace_id("../evil"));
}

#[test]
fn test_workspace_resources_defaults() {
    let ws = Workspace::new("res-ws", "user", "/tmp");
    assert_eq!(ws.resources.memory_mb, 512);
    assert_eq!(ws.resources.cpu_quota_permille as f64 / 1000.0, 0.5);
}

#[test]
fn test_sandbox_volume_isolation() {
    let base = base("ws_volume");
    let mut manager = WorkspaceManager::new(&base, WorkspaceRegistry::new());
    manager.create_workspace("ws-1", "user1").expect("OK");
    manager.create_workspace("ws-2", "user2").expect("OK");
    let ws1 = manager.get_workspace("ws-1").unwrap();
    let ws2 = manager.get_workspace("ws-2").unwrap();
    assert!(!Path::new(&ws1.path).starts_with(&ws2.path));
    assert!(!Path::new(&ws2.path).starts_with(&ws1.path));
    assert!(Path::new(&ws1.path).parent().unwrap() == Path::new(&base));
    assert!(Path::new(&ws2.path).parent().unwrap() == Path::new(&base));
}

#[test]
fn test_workspace_path_traversal_in_registry() {
    let base = base("ws_security");
    let mut manager = WorkspaceManager::new(&base, WorkspaceRegistry::new());
    let result = manager.create_workspace("evil-path", "attacker");
    assert!(result.is_ok());
    let ws = manager.get_workspace("evil-path").unwrap();
    let resolved = manager.validate_path(&ws.path).unwrap();
    assert!(Path::new(&resolved).starts_with(&base), "La ruta resolta ha d'estar dins del base_dir");
}

#[test]
fn test_permission_denied_for_unknown_user() {
    let mut manager = manager("ws_perm_denied");
    manager.create_workspace("secure-ws", "admin").expect("OK");
    assert!(!manager.has_permission("secure-ws", "unknown_user"));
    assert_eq!(manager.get_user_permission("secure-ws", "unknown_user"), None);
}

#[test]
fn test_relative_path_resolves_under_base() {
    let manager = manager("ws_rel");
    assert_eq!(manager.validate_path("sub/dir").unwrap(), base("ws_rel/sub/dir"));
    assert_eq!(manager.registry_path, base("ws_rel/workspaces.json"));
}

#[test]
fn test_remove_keeps_other_workspaces() {
    let mut manager = manager("ws_keep");
    manager.create_workspace("a", "u").unwrap();
    manager.create_workspace("b", "u").unwrap();
    manager.remove_workspace("a").unwrap();
    let ids: Vec<&str> = manager.list_workspaces().iter().map(|w| w.id.as_str()).collect();
    assert_eq!(ids, vec!["b"]);
    assert_eq!(
        manager.remove_workspace("a").unwrap_err(),
        "El workspace 'a' no existeix"
    );
}

#[test]
fn test_defaults() {
    let r = aether_code::workspace_manager::WorkspaceResources::default();
    assert_eq!(r.memory_mb, 512);
    assert_eq!(r.cpu_quota_permille, 500);
    assert!(WorkspaceRegistry::default().workspaces.is_empty());
}
