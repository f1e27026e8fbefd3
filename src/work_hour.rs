//! Work-hour campaigns, the records users declare in them, and the status
//! codes that storage and transport use for both.
use vstd::prelude::*;

use crate::time::{parse_date_time, parsed_date_time_of};

verus! {

/// The status of a campaign. Stored as Pending 0, Ongoing 1, Ended 2 and
/// Closed 4; the value 3 is unused.
#[derive(Debug, Clone, Copy, PartialEq, Eq, Structural)]
pub enum WorkHourStatus {
    /// Not open yet.
    Pending,
    /// Open for declarations.
    Ongoing,
    /// Declarations ended.
    Ended,
    /// Hours paid out.
    Closed,
}

/// The stored code of a campaign status.
pub open spec fn work_hour_status_code(s: WorkHourStatus) -> u32 {
    match s {
        WorkHourStatus::Pending => 0,
        WorkHourStatus::Ongoing => 1,
        WorkHourStatus::Ended => 2,
        WorkHourStatus::Closed => 4,
    }
}

/// The campaign status a stored code names, if it names one.
pub open spec fn work_hour_status_decoded(code: u32) -> Option<WorkHourStatus> {
    if code == 0 {
        Some(WorkHourStatus::Pending)
    } else if code == 1 {
        Some(WorkHourStatus::Ongoing)
    } else if code == 2 {
        Some(WorkHourStatus::Ended)
    } else if code == 4 {
        Some(WorkHourStatus::Closed)
    } else {
        None
    }
}

/// Decoding with the fallback: a code that names no status reads as
/// `Closed`, so that an unknown campaign is never treated as open.
pub open spec fn work_hour_status_or_closed(code: u32) -> WorkHourStatus {
    match work_hour_status_decoded(code) {
        Some(s) => s,
        None => WorkHourStatus::Closed,
    }
}

impl WorkHourStatus {
    /// The status a stored code names, or `None` for 3 and codes above 4.
    pub fn decode(code: u32) -> (r: Option<WorkHourStatus>)
        ensures
            r == work_hour_status_decoded(code),
    {
        if code == 0 {
            Some(WorkHourStatus::Pending)
        } else if code == 1 {
            Some(WorkHourStatus::Ongoing)
        } else if code == 2 {
            Some(WorkHourStatus::Ended)
        } else if code == 4 {
            Some(WorkHourStatus::Closed)
        } else {
            None
        }
    }

    /// The stored code of this status.
    pub fn code(self) -> (r: u32)
        ensures
            r == work_hour_status_code(self),
    {
        match self {
            WorkHourStatus::Pending => 0,
            WorkHourStatus::Ongoing => 1,
            WorkHourStatus::Ended => 2,
            WorkHourStatus::Closed => 4,
        }
    }
}

impl From<u32> for WorkHourStatus {
    /// Decodes with the `Closed` fallback for unknown codes.
    fn from(code: u32) -> (r: WorkHourStatus) {
        match WorkHourStatus::decode(code) {
            Some(s) => s,
            None => WorkHourStatus::Closed,
        }
    }
}

impl vstd::std_specs::convert::FromSpecImpl<u32> for WorkHourStatus {
    open spec fn obeys_from_spec() -> bool {
        true
    }

    open spec fn from_spec(code: u32) -> WorkHourStatus {
        work_hour_status_or_closed(code)
    }
}

impl From<WorkHourStatus> for u32 {
    fn from(s: WorkHourStatus) -> (r: u32) {
        s.code()
    }
}

impl vstd::std_specs::convert::FromSpecImpl<WorkHourStatus> for u32 {
    open spec fn obeys_from_spec() -> bool {
        true
    }

    open spec fn from_spec(s: WorkHourStatus) -> u32 {
        work_hour_status_code(s)
    }
}

/// The lifecycle state of one user's record in a campaign. Stored as
/// Unsubmitted 0 up to Closed 4.
#[derive(Debug, Clone, Copy, PartialEq, Eq, Structural)]
pub enum WorkHourRecordStatus {
    /// Not submitted yet, or sent back by an approver.
    Unsubmitted,
    /// Waiting for the head of the owner's department.
    PendingApproval,
    /// Waiting for finance.
    PendingFinance,
    /// Approved by finance, waiting to be paid out.
    PendingDistribution,
    /// Paid out.
    Closed,
}

/// The stored code of a record status.
pub open spec fn record_status_code(s: WorkHourRecordStatus) -> u32 {
    match s {
        WorkHourRecordStatus::Unsubmitted => 0,
        WorkHourRecordStatus::PendingApproval => 1,
        WorkHourRecordStatus::PendingFinance => 2,
        WorkHourRecordStatus::PendingDistribution => 3,
        WorkHourRecordStatus::Closed => 4,
    }
}

/// The record status a stored code names, if it names one.
pub open spec fn record_status_decoded(code: u32) -> Option<WorkHourRecordStatus> {
    if code == 0 {
        Some(WorkHourRecordStatus::Unsubmitted)
    } else if code == 1 {
        Some(WorkHourRecordStatus::PendingApproval)
    } else if code == 2 {
        Some(WorkHourRecordStatus::PendingFinance)
    } else if code == 3 {
        Some(WorkHourRecordStatus::PendingDistribution)
    } else if code == 4 {
        Some(WorkHourRecordStatus::Closed)
    } else {
        None
    }
}

/// Decoding with the fallback: a code above 4 reads as `Closed`, which
/// takes such a record out of every active stage of the workflow.
pub open spec fn record_status_or_closed(code: u32) -> WorkHourRecordStatus {
    match record_status_decoded(code) {
        Some(s) => s,
        None => WorkHourRecordStatus::Closed,
    }
}

impl WorkHourRecordStatus {
    /// The status a stored code names, or `None` for codes above 4.
    pub fn decode(code: u32) -> (r: Option<WorkHourRecordStatus>)
        ensures
            r == record_status_decoded(code),
    {
        if code == 0 {
            Some(WorkHourRecordStatus::Unsubmitted)
        } else if code == 1 {
            Some(WorkHourRecordStatus::PendingApproval)
        } else if code == 2 {
            Some(WorkHourRecordStatus::PendingFinance)
        } else if code == 3 {
            Some(WorkHourRecordStatus::PendingDistribution)
        } else if code == 4 {
            Some(WorkHourRecordStatus::Closed)
        } else {
            None
        }
    }

    /// The stored code of this status.
    pub fn code(self) -> (r: u32)
        ensures
            r == record_status_code(self),
    {
        match self {
            WorkHourRecordStatus::Unsubmitted => 0,
            WorkHourRecordStatus::PendingApproval => 1,
            WorkHourRecordStatus::PendingFinance => 2,
            WorkHourRecordStatus::PendingDistribution => 3,
            WorkHourRecordStatus::Closed => 4,
        }
    }
}

impl From<u32> for WorkHourRecordStatus {
    /// Decodes with the `Closed` fallback for unknown codes.
    fn from(code: u32) -> (r: WorkHourRecordStatus) {
        match WorkHourRecordStatus::decode(code) {
            Some(s) => s,
            None => WorkHourRecordStatus::Closed,
        }
    }
}

impl vstd::std_specs::convert::FromSpecImpl<u32> for WorkHourRecordStatus {
    open spec fn obeys_from_spec() -> bool {
        true
    }

    open spec fn from_spec(code: u32) -> WorkHourRecordStatus {
        record_status_or_closed(code)
    }
}

impl From<WorkHourRecordStatus> for u32 {
    fn from(s: WorkHourRecordStatus) -> (r: u32) {
        s.code()
    }
}

impl vstd::std_specs::convert::FromSpecImpl<WorkHourRecordStatus> for u32 {
    open spec fn obeys_from_spec() -> bool {
        true
    }

    open spec fn from_spec(s: WorkHourRecordStatus) -> u32 {
        record_status_code(s)
    }
}

/// One line of a declaration: what was done, and for how many hours.
pub struct WorkDesc {
    pub desc: String,
    pub hour: u32,
}

/// An inclusion attached by finance: the record `id` is credited `hour`
/// hours through the record that carries the inclusion.
#[derive(Debug, Clone, Copy, PartialEq, Eq, Structural)]
pub struct WorkInclude {
    pub id: u32,
    pub hour: u32,
}

/// One user's declaration within one campaign.
pub struct WorkHourRecord {
    pub id: u32,
    /// The campaign.
    pub work_hour_id: u32,
    /// The owner.
    pub user_id: u32,
    pub work_descs: Vec<WorkDesc>,
    /// Set only by finance when it saves the table.
    pub includes: Option<Vec<WorkInclude>>,
    /// The approver's reason when the record was sent back.
    pub comment: Option<String>,
    pub status: WorkHourRecordStatus,
}

/// The hours that a list of declaration lines adds up to.
pub open spec fn declared_hours(descs: Seq<WorkDesc>) -> nat
    decreases descs.len(),
{
    if descs.len() == 0 {
        0
    } else {
        declared_hours(descs.drop_last()) + descs.last().hour as nat
    }
}

/// A campaign: a declaration period with its own deadline and lifecycle.
pub struct WorkHour {
    pub id: u32,
    pub name: String,
    pub end_time: crate::time::DateTime,
    pub status: WorkHourStatus,
    pub comment: Option<String>,
}

/// The layout in which a campaign's end time is entered: date, `T`, hours
/// and minutes, as in `2024-06-30T18:00`.
pub const END_TIME_LAYOUT: &'static str = "%Y-%m-%dT%H:%M";

impl WorkHour {
    /// A campaign from the values a form sends: the end time in
    /// `END_TIME_LAYOUT`, and the stored code of the status, where an
    /// unknown code reads as `Closed`. `None` when the end time does not
    /// parse.
    pub fn from_form(
        id: u32,
        name: String,
        end_time: &str,
        status: u32,
        comment: Option<String>,
    ) -> (r: Option<WorkHour>)
        ensures
            r is None <==> parsed_date_time_of(end_time@, END_TIME_LAYOUT@) is None,
            r matches Some(w) ==> w == (WorkHour {
                id,
                name,
                end_time: parsed_date_time_of(end_time@, END_TIME_LAYOUT@)->0,
                status: work_hour_status_or_closed(status),
                comment,
            }),
    {
        match parse_date_time(end_time, END_TIME_LAYOUT) {
            None => None,
            Some(t) => Some(
                WorkHour { id, name, end_time: t, status: WorkHourStatus::from(status), comment },
            ),
        }
    }
}

/// One entry of the table that finance saves: the inclusions that replace
/// those of the record `id`.
pub struct WorkHourTableItem {
    pub id: u32,
    pub includes: Vec<WorkInclude>,
}

/// Per-department counters of a campaign.
#[derive(Debug, Clone, Copy, PartialEq, Eq, Structural)]
pub struct WorkHourStatisticsItem {
    /// The number of records.
    pub count: u32,
    /// The hours those records declare in their own lines.
    pub total_hours: u32,
}

/// The counters of one department.
pub struct WorkHourStatistics {
    pub department: crate::org::Department,
    pub stats: WorkHourStatisticsItem,
}

} // verus!
