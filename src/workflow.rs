//! The approval workflow of a work-hour record: which status changes are
//! legal, who may make them, and what each one does to the record.
use vstd::prelude::*;

use crate::permission::{holds, Permission};
use crate::work_hour::{WorkHourRecord, WorkHourRecordStatus};
use crate::work_hour::WorkHourRecordStatus::{
    Closed, PendingApproval, PendingDistribution, PendingFinance, Unsubmitted,
};

verus! {

/// Why a workflow operation was refused.
#[derive(Debug, Clone, Copy, PartialEq, Eq, Structural)]
pub enum WorkflowError {
    /// The actor lacks the permission or the department match the step needs.
    PermissionDenied,
    /// A referenced record, user or department does not exist.
    NotFound,
    /// The status change is not in the table, or a precondition of it
    /// fails (resubmitting, rejecting without a comment, empty lines).
    IllegalTransition,
    /// The store could not complete the write.
    InfrastructureError,
}

impl WorkflowError {
    /// The HTTP status that reports this error: 403 for a refused actor,
    /// 404 for a missing record, 400 for an illegal step and 500 for a
    /// failed write.
    pub fn status_code(self) -> (r: u16)
        ensures
            r == match self {
                WorkflowError::PermissionDenied => 403u16,
                WorkflowError::NotFound => 404u16,
                WorkflowError::IllegalTransition => 400u16,
                WorkflowError::InfrastructureError => 500u16,
            },
    {
        match self {
            WorkflowError::PermissionDenied => 403,
            WorkflowError::NotFound => 404,
            WorkflowError::IllegalTransition => 400,
            WorkflowError::InfrastructureError => 500,
        }
    }
}

/// Who asks for a step: their id, their department and their permissions.
pub struct Actor {
    pub user_id: u32,
    pub department_id: u32,
    pub permission: Permission,
}

/// The permission of a department head to approve or send back the
/// records of their department.
pub open spec fn may_check_department(held: Seq<Seq<char>>) -> bool {
    holds(held, "yq:workHours:checkDepartment"@)
}

/// The permission of finance to approve, send back, close, and save the
/// table of inclusions.
pub open spec fn may_generate_table(held: Seq<Seq<char>>) -> bool {
    holds(held, "yq:workHours:generateTable"@)
}

/// The table of legal status changes.
pub open spec fn legal_transition(from: WorkHourRecordStatus, to: WorkHourRecordStatus) -> bool {
    ||| from == Unsubmitted && to == PendingApproval
    ||| from == PendingApproval && to == PendingFinance
    ||| from == PendingApproval && to == Unsubmitted
    ||| from == PendingFinance && to == PendingDistribution
    ||| from == PendingFinance && to == Unsubmitted
    ||| from == PendingDistribution && to == Closed
}

/// Whether the actor may move a record out of its current status: the
/// owner submits, the head of the owner's department decides on a record
/// pending approval, and finance handles every later stage.
pub open spec fn actor_qualified(
    record: WorkHourRecord,
    actor_id: u32,
    actor_department: u32,
    held: Seq<Seq<char>>,
    subject_department: u32,
) -> bool {
    match record.status {
        WorkHourRecordStatus::Unsubmitted => actor_id == record.user_id,
        WorkHourRecordStatus::PendingApproval => may_check_department(held) && actor_department
            == subject_department,
        _ => may_generate_table(held),
    }
}

/// Whether a comment is present and not empty.
pub open spec fn has_text(comment: Option<String>) -> bool {
    comment matches Some(c) && c@.len() > 0
}

/// The outcome of asking to move `record` to `to`. Checked in this order:
/// the table, then the step's own precondition (a comment to send back,
/// lines to submit), then the actor.
pub open spec fn transition_verdict(
    record: WorkHourRecord,
    to: WorkHourRecordStatus,
    actor_id: u32,
    actor_department: u32,
    held: Seq<Seq<char>>,
    subject_department: u32,
    comment: Option<String>,
) -> Result<(), WorkflowError> {
    if !legal_transition(record.status, to) {
        Err(WorkflowError::IllegalTransition)
    } else if to == WorkHourRecordStatus::Unsubmitted && !has_text(comment) {
        Err(WorkflowError::IllegalTransition)
    } else if to == WorkHourRecordStatus::PendingApproval && record.work_descs@.len() == 0 {
        Err(WorkflowError::IllegalTransition)
    } else if !actor_qualified(record, actor_id, actor_department, held, subject_department) {
        Err(WorkflowError::PermissionDenied)
    } else {
        Ok(())
    }
}

/// The record after a legal step to `to`: the status changes, a rejection
/// keeps its comment and every other step clears it, and the lines and
/// inclusions are carried over unchanged.
pub open spec fn moved_to(
    record: WorkHourRecord,
    to: WorkHourRecordStatus,
    comment: Option<String>,
) -> WorkHourRecord {
    WorkHourRecord {
        status: to,
        comment: if to == WorkHourRecordStatus::Unsubmitted {
            comment
        } else {
            None
        },
        ..record
    }
}

/// A status change outside the table is refused as illegal, whoever asks
/// for it and whatever comment comes with it.
pub proof fn lemma_outside_table_is_illegal(
    record: WorkHourRecord,
    to: WorkHourRecordStatus,
    actor: Actor,
    subject_department: u32,
    comment: Option<String>,
)
    requires
        !legal_transition(record.status, to),
    ensures
        transition_verdict(
            record,
            to,
            actor.user_id,
            actor.department_id,
            actor.permission@,
            subject_department,
            comment,
        ) == Err::<(), WorkflowError>(WorkflowError::IllegalTransition),
{
}

/// Sending a record back without a comment always fails, whatever the
/// actor holds.
pub proof fn lemma_rejection_needs_comment(
    record: WorkHourRecord,
    actor: Actor,
    subject_department: u32,
)
    ensures
        transition_verdict(
            record,
            Unsubmitted,
            actor.user_id,
            actor.department_id,
            actor.permission@,
            subject_department,
            None,
        ) is Err,
{
}

/// Tests the table of legal status changes.
pub fn is_legal_transition(from: WorkHourRecordStatus, to: WorkHourRecordStatus) -> (r: bool)
    ensures
        r == legal_transition(from, to),
{
    match from {
        WorkHourRecordStatus::Unsubmitted => to == WorkHourRecordStatus::PendingApproval,
        WorkHourRecordStatus::PendingApproval => to == WorkHourRecordStatus::PendingFinance || to
            == WorkHourRecordStatus::Unsubmitted,
        WorkHourRecordStatus::PendingFinance => to == WorkHourRecordStatus::PendingDistribution
            || to == WorkHourRecordStatus::Unsubmitted,
        WorkHourRecordStatus::PendingDistribution => to == WorkHourRecordStatus::Closed,
        WorkHourRecordStatus::Closed => false,
    }
}

impl Actor {
    /// Whether the actor holds the department-check permission.
    pub fn can_check_department(&self) -> (r: bool)
        ensures
            r == may_check_department(self.permission@),
    {
        self.permission.has("yq:workHours:checkDepartment")
    }

    /// Whether the actor holds the finance permission.
    pub fn can_generate_table(&self) -> (r: bool)
        ensures
            r == may_generate_table(self.permission@),
    {
        self.permission.has("yq:workHours:generateTable")
    }
}

/// Decides whether `actor` may move `record` to `to`, without changing it.
pub fn check_transition(
    record: &WorkHourRecord,
    to: WorkHourRecordStatus,
    actor: &Actor,
    subject_department: u32,
    comment: &Option<String>,
) -> (r: Result<(), WorkflowError>)
    ensures
        r == transition_verdict(
            *record,
            to,
            actor.user_id,
            actor.department_id,
            actor.permission@,
            subject_department,
            *comment,
        ),
{
    if !is_legal_transition(record.status, to) {
        return Err(WorkflowError::IllegalTransition);
    }
    if to == WorkHourRecordStatus::Unsubmitted {
        let present = match comment {
            Some(c) => !c.as_str().is_empty(),
            None => false,
        };
        if !present {
            return Err(WorkflowError::IllegalTransition);
        }
    }
    if to == WorkHourRecordStatus::PendingApproval && record.work_descs.len() == 0 {
        return Err(WorkflowError::IllegalTransition);
    }
    let qualified = match record.status {
        WorkHourRecordStatus::Unsubmitted => actor.user_id == record.user_id,
        WorkHourRecordStatus::PendingApproval => actor.can_check_department()
            && actor.department_id == subject_department,
        _ => actor.can_generate_table(),
    };
    if !qualified {
        return Err(WorkflowError::PermissionDenied);
    }
    Ok(())
}

/// Moves `record` to `to` on behalf of `actor`, whose department is
/// compared with `subject_department`, the department of the record's
/// owner. On refusal the record is left as it was.
pub fn transition(
    record: &mut WorkHourRecord,
    to: WorkHourRecordStatus,
    actor: &Actor,
    subject_department: u32,
    comment: Option<String>,
) -> (r: Result<(), WorkflowError>)
    ensures
        r == transition_verdict(
            *old(record),
            to,
            actor.user_id,
            actor.department_id,
            actor.permission@,
            subject_department,
            comment,
        ),
        r is Ok ==> *final(record) == moved_to(*old(record), to, comment),
        r is Err ==> *final(record) == *old(record),
{
    match check_transition(record, to, actor, subject_department, &comment) {
        Err(e) => Err(e),
        Ok(()) => {
            record.status = to;
            if to == WorkHourRecordStatus::Unsubmitted {
                record.comment = comment;
            } else {
                record.comment = None;
            }
            Ok(())
        },
    }
}

} // verus!
