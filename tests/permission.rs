use qnxg_backend::permission::{Permission, PermissionItem};

fn set_of(paths: &[&str]) -> Permission {
    let items = paths
        .iter()
        .enumerate()
        .map(|(i, p)| PermissionItem {
            id: i as u32 + 1,
            name: format!("item {}", i),
            permission: p.to_string(),
        })
        .collect();
    Permission::new(items)
}

#[test]
fn parent_path_grants_children() {
    let p = set_of(&["yq:user"]);
    assert!(p.has("yq:user:edit"));
    assert!(p.has("yq:user:query"));
    assert!(p.has("yq:user"));
    assert!(!p.has("yq:workHours:edit"));
}

#[test]
fn prefix_must_end_at_a_segment() {
    let p = set_of(&["yq:user"]);
    assert!(!p.has("yq:userx"));
    assert!(!p.has("yq:use"));
    assert!(!p.has("yq"));
}

#[test]
fn wildcard_query_granted_to_empty_set() {
    let p = set_of(&[]);
    assert!(p.has("*"));
    assert!(!p.has("yq:user:query"));
    assert!(!p.has(""));
}

#[test]
fn held_wildcard_grants_everything() {
    let p = set_of(&["*"]);
    assert!(p.has("system:role:edit"));
    assert!(p.has("anything"));
    assert!(p.is_admin());
}

#[test]
fn admin_needs_all_three_namespaces() {
    assert!(!set_of(&["yq", "hdwsh"]).is_admin());
    assert!(set_of(&["system", "yq", "hdwsh"]).is_admin());
    assert!(!set_of(&["system:user", "yq", "hdwsh"]).is_admin());
    assert!(!set_of(&[]).is_admin());
}

#[test]
fn into_inner_returns_items() {
    let items = set_of(&["yq:user", "hdwsh"]).into_inner();
    assert_eq!(items.len(), 2);
    assert_eq!(items[0].permission, "yq:user");
    assert_eq!(items[1].permission, "hdwsh");
    assert_eq!(items[1].id, 2);
}
