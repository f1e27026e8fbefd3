use qnxg_backend::digest::md5_hash;
use qnxg_backend::members::{
    check_user_creation, check_user_deletion, check_user_update, may_view_user, password_matches,
    user_list_scope, ListScope, MemberError, UserUpdate,
};
use qnxg_backend::org::{UserBasicInfo, UserStatus};
use qnxg_backend::permission::{Permission, PermissionItem};
use qnxg_backend::workflow::Actor;

fn actor(user_id: u32, department_id: u32, paths: &[&str]) -> Actor {
    let items = paths
        .iter()
        .enumerate()
        .map(|(i, p)| PermissionItem {
            id: i as u32 + 1,
            name: format!("item {}", i),
            permission: p.to_string(),
        })
        .collect();
    Actor {
        user_id,
        department_id,
        permission: Permission::new(items),
    }
}

fn info(name: &str, department_id: u32) -> UserBasicInfo {
    UserBasicInfo {
        username: None,
        name: name.to_string(),
        stu_id: format!("S{}", name),
        email: None,
        xueyuan: 1,
        gangwei: None,
        zaiku: true,
        qingonggang: false,
        status: UserStatus::Formal,
        department_id,
    }
}

#[test]
fn list_scope_for_admin_and_member() {
    let admin = actor(1, 3, &["*"]);
    assert_eq!(user_list_scope(&admin, None), Ok(ListScope::Everyone));
    assert_eq!(user_list_scope(&admin, Some(7)), Ok(ListScope::Department(7)));
    let member = actor(2, 3, &["yq:user:query"]);
    assert_eq!(user_list_scope(&member, None), Ok(ListScope::Department(3)));
    assert_eq!(user_list_scope(&member, Some(3)), Ok(ListScope::Department(3)));
    assert_eq!(user_list_scope(&member, Some(7)), Ok(ListScope::Nobody));
    let stranger = actor(3, 3, &["yq:workHours"]);
    assert_eq!(user_list_scope(&stranger, None), Err(MemberError::PermissionDenied));
}

#[test]
fn viewing_members() {
    let member = actor(2, 3, &["yq:user"]);
    assert_eq!(may_view_user(&member, 3), Ok(true));
    assert_eq!(may_view_user(&member, 4), Ok(false));
    let admin = actor(1, 3, &["system", "yq", "hdwsh"]);
    assert_eq!(may_view_user(&admin, 4), Ok(true));
    assert_eq!(may_view_user(&actor(5, 3, &[]), 3), Err(MemberError::PermissionDenied));
}

#[test]
fn creating_members() {
    let head = actor(2, 3, &["yq:user:add"]);
    let mine = vec![10, 11];
    assert_eq!(check_user_creation(&head, &mine, 3, &vec![10], false, true), Ok(()));
    assert_eq!(
        check_user_creation(&head, &mine, 3, &vec![10, 12], false, true),
        Err(MemberError::PermissionDenied)
    );
    assert_eq!(
        check_user_creation(&head, &mine, 4, &vec![10], false, true),
        Err(MemberError::PermissionDenied)
    );
    assert_eq!(
        check_user_creation(&head, &mine, 3, &vec![10], true, true),
        Err(MemberError::StuIdTaken)
    );
    assert_eq!(
        check_user_creation(&head, &mine, 3, &vec![10], false, false),
        Err(MemberError::DepartmentMissing)
    );
    let admin = actor(1, 3, &["*"]);
    assert_eq!(check_user_creation(&admin, &vec![], 9, &vec![12], false, true), Ok(()));
    assert_eq!(
        check_user_creation(&actor(5, 3, &["yq:user:query"]), &mine, 3, &vec![], false, true),
        Err(MemberError::PermissionDenied)
    );
}

#[test]
fn members_change_only_their_own_open_fields() {
    let me = actor(5, 3, &[]);
    let current = info("ann", 3);
    let mut own = info("ann", 3);
    own.email = Some("ann@example.org".to_string());
    let update = UserUpdate { id: 5, info: own, password: None, role_id: None };
    assert_eq!(check_user_update(&me, &vec![], &current, &update, true, false), Ok(()));

    let renamed = UserUpdate { id: 5, info: info("bob", 3), password: None, role_id: None };
    assert_eq!(
        check_user_update(&me, &vec![], &current, &renamed, true, false),
        Err(MemberError::PermissionDenied)
    );
    let with_password = UserUpdate {
        id: 5,
        info: info("ann", 3),
        password: Some("secret".to_string()),
        role_id: None,
    };
    assert_eq!(
        check_user_update(&me, &vec![], &current, &with_password, true, false),
        Err(MemberError::PermissionDenied)
    );
    let other = UserUpdate { id: 6, info: info("ann", 3), password: None, role_id: None };
    assert_eq!(
        check_user_update(&me, &vec![], &current, &other, true, false),
        Err(MemberError::PermissionDenied)
    );
}

#[test]
fn editors_stay_in_their_department() {
    let editor = actor(2, 3, &["yq:user:edit"]);
    let current = info("ann", 3);
    let moved = UserUpdate { id: 5, info: info("ann", 4), password: None, role_id: None };
    assert_eq!(
        check_user_update(&editor, &vec![10], &current, &moved, true, false),
        Err(MemberError::PermissionDenied)
    );
    let foreign = info("cid", 4);
    let same = UserUpdate { id: 7, info: info("cid", 4), password: None, role_id: None };
    assert_eq!(
        check_user_update(&editor, &vec![10], &foreign, &same, true, false),
        Err(MemberError::PermissionDenied)
    );
    let roles = UserUpdate { id: 5, info: info("ann", 3), password: None, role_id: Some(vec![11]) };
    assert_eq!(
        check_user_update(&editor, &vec![10], &current, &roles, true, false),
        Err(MemberError::PermissionDenied)
    );
    let renamed = UserUpdate { id: 5, info: info("bea", 3), password: None, role_id: Some(vec![10]) };
    assert_eq!(check_user_update(&editor, &vec![10], &current, &renamed, true, false), Ok(()));
    assert_eq!(
        check_user_update(&editor, &vec![10], &current, &renamed, true, true),
        Err(MemberError::StuIdTaken)
    );
}

#[test]
fn admins_move_members_to_existing_departments() {
    let admin = actor(1, 3, &["*"]);
    let current = info("ann", 3);
    let moved = UserUpdate { id: 5, info: info("ann", 4), password: None, role_id: Some(vec![99]) };
    assert_eq!(check_user_update(&admin, &vec![], &current, &moved, true, false), Ok(()));
    assert_eq!(
        check_user_update(&admin, &vec![], &current, &moved, false, false),
        Err(MemberError::DepartmentMissing)
    );
}

#[test]
fn deleting_members() {
    let head = actor(2, 3, &["yq:user:delete"]);
    assert_eq!(check_user_deletion(&head, 5, 3), Ok(()));
    assert_eq!(check_user_deletion(&head, 5, 4), Err(MemberError::PermissionDenied));
    assert_eq!(check_user_deletion(&head, 2, 3), Err(MemberError::PermissionDenied));
    assert_eq!(check_user_deletion(&actor(1, 3, &["*"]), 5, 4), Ok(()));
    assert_eq!(check_user_deletion(&actor(1, 3, &["yq:user:edit"]), 5, 3), Err(MemberError::PermissionDenied));
}

#[test]
fn password_check_compares_digests() {
    let stored = md5_hash("hunter2");
    assert!(password_matches(&stored, "hunter2"));
    assert!(!password_matches(&stored, "hunter3"));
    assert!(password_matches("098f6bcd4621d373cade4e832627b4f6", "test"));
}
