//! Rules for administering members: which members an actor may list, see,
//! create, change and delete, and the password check. A non-admin acts
//! within their own department only.
use vstd::prelude::*;

use crate::digest::{hex_lower, md5_digest_of, md5_hash};
use crate::org::UserBasicInfo;
use crate::permission::{admin, holds};
use crate::text::same_text;
use crate::workflow::Actor;

verus! {

/// Why an administrative request on members was refused.
#[derive(Debug, Clone, Copy, PartialEq, Eq, Structural)]
pub enum MemberError {
    /// The actor may not do this.
    PermissionDenied,
    /// Another member already has the student number.
    StuIdTaken,
    /// The department does not exist.
    DepartmentMissing,
}

/// Which members a listing may show.
#[derive(Debug, Clone, Copy, PartialEq, Eq, Structural)]
pub enum ListScope {
    /// Members of every department.
    Everyone,
    /// Members of this department only.
    Department(u32),
    /// No member at all.
    Nobody,
}

/// Whether the actor holds `yq:user:<action>`.
pub open spec fn may_on_users(actor: Actor, action: Seq<char>) -> bool {
    holds(actor.permission@, "yq:user:"@ + action)
}

/// Whether every role of `wanted` is among `own`.
pub open spec fn roles_within(wanted: Seq<u32>, own: Seq<u32>) -> bool {
    forall|i: int| 0 <= i < wanted.len() ==> own.contains(#[trigger] wanted[i])
}

/// The scope of a member listing: an admin sees the department asked for,
/// or every department; anyone else sees their own department, and nobody
/// when asking for another one.
pub open spec fn list_scope_of(actor: Actor, requested: Option<u32>) -> ListScope {
    if admin(actor.permission@) {
        match requested {
            None => ListScope::Everyone,
            Some(d) => ListScope::Department(d),
        }
    } else {
        match requested {
            Some(d) if d != actor.department_id => ListScope::Nobody,
            _ => ListScope::Department(actor.department_id),
        }
    }
}

/// The changes to a member that a request asks for.
pub struct UserUpdate {
    /// The member to change.
    pub id: u32,
    /// The new values of every field.
    pub info: UserBasicInfo,
    /// A new password, if it is to change.
    pub password: Option<String>,
    /// New roles, if they are to change.
    pub role_id: Option<Vec<u32>>,
}

/// Whether an update touches what only holders of `yq:user:edit` may
/// change: everything but the username and the email.
pub open spec fn touches_guarded_fields(current: UserBasicInfo, update: UserUpdate) -> bool {
    ||| update.info.name@ != current.name@
    ||| update.info.stu_id@ != current.stu_id@
    ||| text_view(update.info.gangwei) != text_view(current.gangwei)
    ||| update.info.zaiku != current.zaiku
    ||| update.info.qingonggang != current.qingonggang
    ||| update.info.department_id != current.department_id
    ||| update.info.status != current.status
    ||| update.password is Some
    ||| update.role_id is Some
    ||| update.info.xueyuan != current.xueyuan
}

/// The verdict on an update of the member `current` (of department
/// `current.department_id`). The checks come in this order: the right to
/// edit others, the department of the member, the guarded fields, the
/// department and roles given, then that a new department exists and a new
/// student number is free.
pub open spec fn update_verdict(
    actor: Actor,
    actor_roles: Seq<u32>,
    current: UserBasicInfo,
    update: UserUpdate,
    department_exists: bool,
    stu_id_taken: bool,
) -> Result<(), MemberError> {
    let edit = may_on_users(actor, "edit"@);
    let is_admin = admin(actor.permission@);
    if !edit && actor.user_id != update.id {
        Err(MemberError::PermissionDenied)
    } else if !is_admin && actor.department_id != current.department_id {
        Err(MemberError::PermissionDenied)
    } else if !edit && touches_guarded_fields(current, update) {
        Err(MemberError::PermissionDenied)
    } else if !is_admin && update.info.department_id != actor.department_id {
        Err(MemberError::PermissionDenied)
    } else if !is_admin && (update.role_id matches Some(r) && !roles_within(r@, actor_roles)) {
        Err(MemberError::PermissionDenied)
    } else if update.info.department_id != current.department_id && !department_exists {
        Err(MemberError::DepartmentMissing)
    } else if update.info.stu_id@ != current.stu_id@ && stu_id_taken {
        Err(MemberError::StuIdTaken)
    } else {
        Ok(())
    }
}

/// Tests whether every role of `wanted` is among `own`.
pub fn roles_are_within(wanted: &Vec<u32>, own: &Vec<u32>) -> (r: bool)
    ensures
        r == roles_within(wanted@, own@),
{
    let mut i: usize = 0;
    while i < wanted.len()
        invariant
            i <= wanted@.len(),
            forall|k: int| 0 <= k < i ==> own@.contains(#[trigger] wanted@[k]),
        decreases wanted@.len() - i,
    {
        let mut j: usize = 0;
        let mut found = false;
        while j < own.len()
            invariant
                j <= own@.len(),
                i < wanted@.len(),
                found ==> own@.contains(wanted@[i as int]),
                !found ==> forall|m: int| 0 <= m < j ==> own@[m] != wanted@[i as int],
            decreases own@.len() - j,
        {
            if own[j] == wanted[i] {
                found = true;
            }
            j = j + 1;
        }
        if !found {
            assert(!own@.contains(wanted@[i as int]));
            return false;
        }
        i = i + 1;
    }
    true
}

/// The characters of an optional text.
pub open spec fn text_view(a: Option<String>) -> Option<Seq<char>> {
    match a {
        Some(x) => Some(x@),
        None => None,
    }
}

/// Tests whether two optional texts hold the same characters.
fn same_optional_text(a: &Option<String>, b: &Option<String>) -> (r: bool)
    ensures
        r == (text_view(*a) == text_view(*b)),
{
    match (a, b) {
        (None, None) => true,
        (Some(x), Some(y)) => same_text(x.as_str(), y.as_str()),
        _ => false,
    }
}

/// The members that `actor` may list when asking for the department
/// `requested`, if any. Refused without `yq:user:query`.
pub fn user_list_scope(actor: &Actor, requested: Option<u32>) -> (r: Result<ListScope, MemberError>)
    ensures
        !may_on_users(*actor, "query"@) ==> r == Err::<ListScope, MemberError>(
            MemberError::PermissionDenied,
        ),
        may_on_users(*actor, "query"@) ==> r == Ok::<ListScope, MemberError>(
            list_scope_of(*actor, requested),
        ),
{
    proof {
        reveal_strlit("yq:user:query");
        reveal_strlit("yq:user:");
        reveal_strlit("query");
        assert("yq:user:query"@ =~= "yq:user:"@ + "query"@);
    }
    if !actor.permission.has("yq:user:query") {
        return Err(MemberError::PermissionDenied);
    }
    if actor.permission.is_admin() {
        match requested {
            None => Ok(ListScope::Everyone),
            Some(d) => Ok(ListScope::Department(d)),
        }
    } else {
        match requested {
            Some(d) => {
                if d != actor.department_id {
                    Ok(ListScope::Nobody)
                } else {
                    Ok(ListScope::Department(actor.department_id))
                }
            },
            None => Ok(ListScope::Department(actor.department_id)),
        }
    }
}

/// Whether `actor` may see a member of department `department_id`: an admin
/// sees everyone, others their own department. Refused without
/// `yq:user:query`.
pub fn may_view_user(actor: &Actor, department_id: u32) -> (r: Result<bool, MemberError>)
    ensures
        !may_on_users(*actor, "query"@) ==> r == Err::<bool, MemberError>(
            MemberError::PermissionDenied,
        ),
        may_on_users(*actor, "query"@) ==> r == Ok::<bool, MemberError>(
            admin(actor.permission@) || actor.department_id == department_id,
        ),
{
    proof {
        reveal_strlit("yq:user:query");
        reveal_strlit("yq:user:");
        reveal_strlit("query");
        assert("yq:user:query"@ =~= "yq:user:"@ + "query"@);
    }
    if !actor.permission.has("yq:user:query") {
        return Err(MemberError::PermissionDenied);
    }
    Ok(actor.permission.is_admin() || actor.department_id == department_id)
}

/// Whether `actor` may create a member in department `department_id` with
/// the roles `role_id`; `actor_roles` are the actor's own roles. Checked in
/// order: `yq:user:add`, a free student number, an existing department,
/// and, for a non-admin, their own department and a subset of their roles.
pub fn check_user_creation(
    actor: &Actor,
    actor_roles: &Vec<u32>,
    department_id: u32,
    role_id: &Vec<u32>,
    stu_id_taken: bool,
    department_exists: bool,
) -> (r: Result<(), MemberError>)
    ensures
        r == if !may_on_users(*actor, "add"@) {
            Err(MemberError::PermissionDenied)
        } else if stu_id_taken {
            Err(MemberError::StuIdTaken)
        } else if !department_exists {
            Err(MemberError::DepartmentMissing)
        } else if !admin(actor.permission@) && actor.department_id != department_id {
            Err(MemberError::PermissionDenied)
        } else if !admin(actor.permission@) && !roles_within(role_id@, actor_roles@) {
            Err(MemberError::PermissionDenied)
        } else {
            Ok::<(), MemberError>(())
        },
{
    proof {
        reveal_strlit("yq:user:add");
        reveal_strlit("yq:user:");
        reveal_strlit("add");
        assert("yq:user:add"@ =~= "yq:user:"@ + "add"@);
    }
    if !actor.permission.has("yq:user:add") {
        return Err(MemberError::PermissionDenied);
    }
    if stu_id_taken {
        return Err(MemberError::StuIdTaken);
    }
    if !department_exists {
        return Err(MemberError::DepartmentMissing);
    }
    let is_admin = actor.permission.is_admin();
    if !is_admin && actor.department_id != department_id {
        return Err(MemberError::PermissionDenied);
    }
    if !is_admin && !roles_are_within(role_id, actor_roles) {
        return Err(MemberError::PermissionDenied);
    }
    Ok(())
}

/// Whether `actor` may apply `update` to the member whose current record is
/// `current`; `actor_roles` are the actor's own roles, `department_exists`
/// whether the department asked for exists, `stu_id_taken` whether another
/// member has the student number asked for.
pub fn check_user_update(
    actor: &Actor,
    actor_roles: &Vec<u32>,
    current: &UserBasicInfo,
    update: &UserUpdate,
    department_exists: bool,
    stu_id_taken: bool,
) -> (r: Result<(), MemberError>)
    ensures
        r == update_verdict(
            *actor,
            actor_roles@,
            *current,
            *update,
            department_exists,
            stu_id_taken,
        ),
{
    proof {
        reveal_strlit("yq:user:edit");
        reveal_strlit("yq:user:");
        reveal_strlit("edit");
        assert("yq:user:edit"@ =~= "yq:user:"@ + "edit"@);
    }
    let edit = actor.permission.has("yq:user:edit");
    let is_admin = actor.permission.is_admin();
    if !edit && actor.user_id != update.id {
        return Err(MemberError::PermissionDenied);
    }
    if !is_admin && actor.department_id != current.department_id {
        return Err(MemberError::PermissionDenied);
    }
    let new = &update.info;
    let stu_id_changed = new.stu_id != current.stu_id;
    if !edit {
        let guarded = new.name != current.name || stu_id_changed || !same_optional_text(
            &new.gangwei,
            &current.gangwei,
        ) || new.zaiku != current.zaiku || new.qingonggang != current.qingonggang
            || new.department_id != current.department_id || new.status != current.status
            || update.password.is_some() || update.role_id.is_some() || new.xueyuan
            != current.xueyuan;
        if guarded {
            return Err(MemberError::PermissionDenied);
        }
    }
    if !is_admin {
        if new.department_id != actor.department_id {
            return Err(MemberError::PermissionDenied);
        }
        match &update.role_id {
            Some(r) => {
                if !roles_are_within(r, actor_roles) {
                    return Err(MemberError::PermissionDenied);
                }
            },
            None => {},
        }
    }
    if new.department_id != current.department_id && !department_exists {
        return Err(MemberError::DepartmentMissing);
    }
    if stu_id_changed && stu_id_taken {
        return Err(MemberError::StuIdTaken);
    }
    Ok(())
}

/// Whether `actor` may delete the member `target_id` of department
/// `target_department`: it takes `yq:user:delete`, the same department
/// unless the actor is an admin, and nobody deletes themselves.
pub fn check_user_deletion(actor: &Actor, target_id: u32, target_department: u32) -> (r: Result<
    (),
    MemberError,
>)
    ensures
        r is Ok <==> may_on_users(*actor, "delete"@) && (admin(actor.permission@)
            || actor.department_id == target_department) && actor.user_id != target_id,
        r matches Err(e) ==> e == MemberError::PermissionDenied,
{
    proof {
        reveal_strlit("yq:user:delete");
        reveal_strlit("yq:user:");
        reveal_strlit("delete");
        assert("yq:user:delete"@ =~= "yq:user:"@ + "delete"@);
    }
    if !actor.permission.has("yq:user:delete") {
        return Err(MemberError::PermissionDenied);
    }
    if !actor.permission.is_admin() && actor.department_id != target_department {
        return Err(MemberError::PermissionDenied);
    }
    if actor.user_id == target_id {
        return Err(MemberError::PermissionDenied);
    }
    Ok(())
}

/// Whether `password` is the one whose stored digest is `stored`.
pub fn password_matches(stored: &str, password: &str) -> (r: bool)
    ensures
        r == (stored@ == hex_lower(md5_digest_of(password@))),
{
    let digest = md5_hash(password);
    same_text(stored, digest.as_str())
}

} // verus!
