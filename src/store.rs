//! The records of all campaigns, held in memory with one record per
//! campaign and user, and the workflow operations that act on them.
use vstd::prelude::*;

use crate::org::Membership;
use crate::statistics::{department_of, find_department};
use crate::work_hour::{WorkDesc, WorkHourRecord, WorkHourRecordStatus, WorkHourTableItem, WorkInclude};
use crate::workflow::{
    check_transition, may_generate_table, moved_to, transition_verdict, Actor, WorkflowError,
};

verus! {

/// Whether `r` is the record of user `u` in campaign `c`.
pub open spec fn keyed(r: WorkHourRecord, c: u32, u: u32) -> bool {
    r.work_hour_id == c && r.user_id == u
}

/// Whether some record of `s` belongs to user `u` in campaign `c`.
pub open spec fn key_present(s: Seq<WorkHourRecord>, c: u32, u: u32) -> bool {
    exists|i: int| 0 <= i < s.len() && #[trigger] keyed(s[i], c, u)
}

/// Whether two records differ in id and in campaign and user.
pub open spec fn apart(x: WorkHourRecord, y: WorkHourRecord) -> bool {
    x.id != y.id && !keyed(x, y.work_hour_id, y.user_id)
}

/// Whether some record of `s` has the id `id`.
pub open spec fn id_present(s: Seq<WorkHourRecord>, id: u32) -> bool {
    exists|i: int| 0 <= i < s.len() && #[trigger] s[i].id == id
}

/// A record resubmitted with new lines: it waits for approval again, and
/// its earlier inclusions and comment are cleared.
pub open spec fn resubmitted(r: WorkHourRecord, descs: Vec<WorkDesc>) -> WorkHourRecord {
    WorkHourRecord {
        work_descs: descs,
        includes: None,
        comment: None,
        status: WorkHourRecordStatus::PendingApproval,
        ..r
    }
}

/// The record that a first submission creates.
pub open spec fn fresh_record(id: u32, c: u32, u: u32, descs: Vec<WorkDesc>) -> WorkHourRecord {
    WorkHourRecord {
        id,
        work_hour_id: c,
        user_id: u,
        work_descs: descs,
        includes: None,
        comment: None,
        status: WorkHourRecordStatus::PendingApproval,
    }
}

/// The outcome of submitting `descs` as user `u` in campaign `c`: the lines
/// must not be empty, an existing record must be unsubmitted, and a new
/// record needs a free id.
pub open spec fn submit_verdict(
    s: Seq<WorkHourRecord>,
    next_id: u32,
    c: u32,
    u: u32,
    descs: Seq<WorkDesc>,
) -> Result<(), WorkflowError> {
    if descs.len() == 0 {
        Err(WorkflowError::IllegalTransition)
    } else if exists|i: int|
        0 <= i < s.len() && #[trigger] keyed(s[i], c, u) && s[i].status
            != WorkHourRecordStatus::Unsubmitted {
        Err(WorkflowError::IllegalTransition)
    } else if !key_present(s, c, u) && next_id == u32::MAX {
        Err(WorkflowError::InfrastructureError)
    } else {
        Ok(())
    }
}

/// `after` is `before` with its inclusions replaced by `incs`, all else kept.
pub open spec fn includes_replaced(
    before: WorkHourRecord,
    after: WorkHourRecord,
    incs: Seq<WorkInclude>,
) -> bool {
    &&& after.includes matches Some(v) && v@ == incs
    &&& after == WorkHourRecord { includes: after.includes, ..before }
}

/// Whether the inclusion `inc`, carried by `carrier`, credits another record
/// of `s` in the same campaign.
pub open spec fn credit_fits(s: Seq<WorkHourRecord>, carrier: WorkHourRecord, inc: WorkInclude) -> bool {
    inc.id != carrier.id && exists|i: int|
        0 <= i < s.len() && #[trigger] s[i].id == inc.id && s[i].work_hour_id == carrier.work_hour_id
}

/// The outcome of giving `carrier` the inclusions `incs`: every credited
/// record must exist (else `NotFound`), and be another record of the same
/// campaign (else `IllegalTransition`).
pub open spec fn inclusion_verdict(
    s: Seq<WorkHourRecord>,
    carrier: WorkHourRecord,
    incs: Seq<WorkInclude>,
) -> Result<(), WorkflowError> {
    if exists|k: int| 0 <= k < incs.len() && !id_present(s, #[trigger] incs[k].id) {
        Err(WorkflowError::NotFound)
    } else if exists|k: int| 0 <= k < incs.len() && !credit_fits(s, carrier, #[trigger] incs[k]) {
        Err(WorkflowError::IllegalTransition)
    } else {
        Ok(())
    }
}

/// Whether the entry `item` names an existing record and credits only
/// existing records.
pub open spec fn entry_refs_present(s: Seq<WorkHourRecord>, item: WorkHourTableItem) -> bool {
    &&& id_present(s, item.id)
    &&& forall|k: int| 0 <= k < item.includes@.len() ==> id_present(s, #[trigger] item.includes@[k].id)
}

/// Whether every inclusion of the entry `item` credits another record of
/// the campaign of the record it names.
pub open spec fn entry_fits(s: Seq<WorkHourRecord>, item: WorkHourTableItem) -> bool {
    forall|j: int|
        0 <= j < s.len() && #[trigger] s[j].id == item.id ==> inclusion_verdict(
            s,
            s[j],
            item.includes@,
        ) == Ok::<(), WorkflowError>(())
}

/// The outcome of saving the table `items`: `NotFound` when an entry names,
/// or credits, a missing record; `IllegalTransition` when an inclusion
/// credits its own record or one of another campaign; `Ok` otherwise.
pub open spec fn table_verdict(s: Seq<WorkHourRecord>, items: Seq<WorkHourTableItem>) -> Result<
    (),
    WorkflowError,
> {
    if exists|n: int| 0 <= n < items.len() && !entry_refs_present(s, #[trigger] items[n]) {
        Err(WorkflowError::NotFound)
    } else if exists|n: int| 0 <= n < items.len() && !entry_fits(s, #[trigger] items[n]) {
        Err(WorkflowError::IllegalTransition)
    } else {
        Ok(())
    }
}

/// A first submission, of non-empty lines while ids are left, succeeds and
/// gives the new record an id that no record holds yet.
pub proof fn lemma_first_submission_succeeds(
    store: WorkHourStore,
    c: u32,
    u: u32,
    descs: Seq<WorkDesc>,
)
    requires
        store.wf(),
        descs.len() > 0,
        !key_present(store@, c, u),
        store.next_id() < u32::MAX,
    ensures
        submit_verdict(store@, store.next_id(), c, u, descs) == Ok::<(), WorkflowError>(()),
        !id_present(store@, store.next_id()),
{
}

/// The position of the last entry of the table `items` for the record `id`,
/// or -1 when there is none: a later entry for a record overrides an
/// earlier one.
pub open spec fn last_entry(items: Seq<WorkHourTableItem>, id: u32) -> int
    decreases items.len(),
{
    if items.len() == 0 {
        -1
    } else if items.last().id == id {
        items.len() - 1
    } else {
        last_entry(items.drop_last(), id)
    }
}

/// `after` is `before` once the table `items` is saved: each record with an
/// entry takes the inclusions of its last entry, the others stay as they were.
pub open spec fn table_applied(
    before: Seq<WorkHourRecord>,
    items: Seq<WorkHourTableItem>,
    after: Seq<WorkHourRecord>,
) -> bool {
    &&& after.len() == before.len()
    &&& forall|k: int|
        #![trigger after[k]]
        0 <= k < before.len() ==> if last_entry(items, before[k].id) < 0 {
            after[k] == before[k]
        } else {
            includes_replaced(before[k], after[k], items[last_entry(items, before[k].id)].includes@)
        }
}

/// The records of `s` after every record of campaign `c` in status `from`
/// moved to `to`; all other records are unchanged.
pub open spec fn campaign_advanced(
    s: Seq<WorkHourRecord>,
    c: u32,
    from: WorkHourRecordStatus,
    to: WorkHourRecordStatus,
) -> Seq<WorkHourRecord> {
    Seq::new(
        s.len(),
        |i: int|
            if s[i].work_hour_id == c && s[i].status == from {
                moved_to(s[i], to, None)
            } else {
                s[i]
            },
    )
}

/// The records of `s` after finance approved every record of campaign `c`
/// that waited for it.
pub open spec fn all_accepted(s: Seq<WorkHourRecord>, c: u32) -> Seq<WorkHourRecord> {
    campaign_advanced(
        s,
        c,
        WorkHourRecordStatus::PendingFinance,
        WorkHourRecordStatus::PendingDistribution,
    )
}

/// The records of `s` after every record of campaign `c` waiting to be paid
/// out was closed.
pub open spec fn all_closed(s: Seq<WorkHourRecord>, c: u32) -> Seq<WorkHourRecord> {
    campaign_advanced(s, c, WorkHourRecordStatus::PendingDistribution, WorkHourRecordStatus::Closed)
}

/// Facts about the last entry of a table for a record.
pub proof fn lemma_last_entry(items: Seq<WorkHourTableItem>, id: u32)
    ensures
        -1 <= last_entry(items, id) < items.len(),
        last_entry(items, id) >= 0 ==> items[last_entry(items, id)].id == id,
        last_entry(items, id) < 0 ==> forall|n: int| 0 <= n < items.len() ==> #[trigger] items[n].id != id,
    decreases items.len(),
{
    if items.len() > 0 {
        lemma_last_entry(items.drop_last(), id);
        if items.last().id != id {
            assert forall|n: int| 0 <= n < items.len() - 1 implies #[trigger] items[n].id == items.drop_last()[n].id by {}
        }
    }
}

/// Closing a campaign twice changes nothing the second time: the first
/// pass leaves no record of the campaign waiting to be paid out.
pub proof fn lemma_close_all_idempotent(s: Seq<WorkHourRecord>, c: u32)
    ensures
        all_closed(all_closed(s, c), c) == all_closed(s, c),
{
    assert(all_closed(all_closed(s, c), c) =~= all_closed(s, c));
}

/// Closing a campaign in which no record waits to be paid out leaves every
/// record as it was.
pub proof fn lemma_close_all_without_eligible_is_noop(s: Seq<WorkHourRecord>, c: u32)
    requires
        forall|i: int|
            0 <= i < s.len() && #[trigger] s[i].work_hour_id == c ==> s[i].status
                != WorkHourRecordStatus::PendingDistribution,
    ensures
        all_closed(s, c) == s,
{
    assert(all_closed(s, c) =~= s);
}

/// A record that already waits for approval refuses a second submission
/// for the same campaign and user.
pub proof fn lemma_pending_record_refuses_submission(
    store: WorkHourStore,
    c: u32,
    u: u32,
    descs: Seq<WorkDesc>,
)
    requires
        store.wf(),
        exists|i: int|
            0 <= i < store@.len() && #[trigger] keyed(store@[i], c, u) && store@[i].status
                == WorkHourRecordStatus::PendingApproval,
    ensures
        submit_verdict(store@, store.next_id(), c, u, descs) is Err,
{
}

/// A record that is unsubmitted, new or sent back, takes a submission of
/// non-empty lines.
pub proof fn lemma_unsubmitted_record_takes_submission(
    store: WorkHourStore,
    c: u32,
    u: u32,
    descs: Seq<WorkDesc>,
)
    requires
        store.wf(),
        descs.len() > 0,
        exists|i: int|
            0 <= i < store@.len() && #[trigger] keyed(store@[i], c, u) && store@[i].status
                == WorkHourRecordStatus::Unsubmitted,
    ensures
        submit_verdict(store@, store.next_id(), c, u, descs) == Ok::<(), WorkflowError>(()),
{
    let i = choose|i: int|
        0 <= i < store@.len() && #[trigger] keyed(store@[i], c, u) && store@[i].status
            == WorkHourRecordStatus::Unsubmitted;
    assert forall|j: int| 0 <= j < store@.len() && #[trigger] keyed(store@[j], c, u) implies j
        == i by {
        if j < i {
            assert(!keyed(store@[j], store@[i].work_hour_id, store@[i].user_id));
        } else if i < j {
            assert(!keyed(store@[i], store@[j].work_hour_id, store@[j].user_id));
        }
    }
}

/// A copy of a list of inclusions.
fn copy_includes(v: &Vec<WorkInclude>) -> (r: Vec<WorkInclude>)
    ensures
        r@ == v@,
{
    let mut r: Vec<WorkInclude> = Vec::new();
    let mut i: usize = 0;
    while i < v.len()
        invariant
            i <= v@.len(),
            r@ == v@.subrange(0, i as int),
        decreases v@.len() - i,
    {
        r.push(v[i]);
        i = i + 1;
        assert(r@ =~= v@.subrange(0, i as int));
    }
    assert(v@.subrange(0, v@.len() as int) =~= v@);
    r
}

/// The position of the last entry of `items` for the record `id`.
fn last_entry_index(items: &Vec<WorkHourTableItem>, id: u32) -> (r: Option<usize>)
    ensures
        r matches Some(m) ==> m as int == last_entry(items@, id),
        r is None ==> last_entry(items@, id) < 0,
{
    let mut best: Option<usize> = None;
    let mut j: usize = 0;
    while j < items.len()
        invariant
            j <= items@.len(),
            best matches Some(m) ==> m as int == last_entry(items@.subrange(0, j as int), id),
            best is None ==> last_entry(items@.subrange(0, j as int), id) < 0,
        decreases items@.len() - j,
    {
        assert(items@.subrange(0, j + 1 as int).drop_last() =~= items@.subrange(0, j as int));
        if items[j].id == id {
            best = Some(j);
        }
        j = j + 1;
    }
    assert(items@.subrange(0, items@.len() as int) =~= items@);
    best
}

/// `r` lists, in increasing order, exactly the positions of `s` whose
/// record satisfies `keep`.
pub open spec fn selected(
    s: Seq<WorkHourRecord>,
    r: Seq<usize>,
    keep: spec_fn(WorkHourRecord) -> bool,
) -> bool {
    &&& forall|k: int| 0 <= k < r.len() ==> #[trigger] r[k] < s.len() && keep(s[r[k] as int])
    &&& forall|i: int| 0 <= i < s.len() && keep(#[trigger] s[i]) ==> r.contains(i as usize)
    &&& forall|k: int, l: int| 0 <= k < l < r.len() ==> #[trigger] r[k] < #[trigger] r[l]
}

/// Appending keeps what a sequence contains, and adds the new element.
proof fn lemma_push_contains(s: Seq<usize>, x: usize)
    ensures
        s.push(x).contains(x),
        forall|y: usize| s.contains(y) ==> #[trigger] s.push(x).contains(y),
{
    assert(s.push(x)[s.len() as int] == x);
    assert forall|y: usize| s.contains(y) implies #[trigger] s.push(x).contains(y) by {
        let k = choose|k: int| 0 <= k < s.len() && s[k] == y;
        assert(s.push(x)[k] == y);
    }
}

/// Whether a record in status `s` has been submitted.
pub open spec fn submitted(s: WorkHourRecordStatus) -> bool {
    s != WorkHourRecordStatus::Unsubmitted
}

/// Whether a record in status `s` has passed its department's approval.
pub open spec fn past_department(s: WorkHourRecordStatus) -> bool {
    s != WorkHourRecordStatus::Unsubmitted && s != WorkHourRecordStatus::PendingApproval
}

/// A record whose inclusion was resolved: the record credited, the hours,
/// and the owner of the record credited.
#[derive(Debug, Clone, Copy, PartialEq, Eq, Structural)]
pub struct IncludedRecord {
    pub id: u32,
    pub hour: u32,
    pub user_id: u32,
}

/// The records of every campaign, at most one per campaign and user.
pub struct WorkHourStore {
    records: Vec<WorkHourRecord>,
    next_id: u32,
}

impl View for WorkHourStore {
    type V = Seq<WorkHourRecord>;

    closed spec fn view(&self) -> Seq<WorkHourRecord> {
        self.records@
    }
}

impl WorkHourStore {
    /// The id the next new record receives.
    pub closed spec fn next_id(&self) -> u32 {
        self.next_id
    }

    /// Ids are unique, the natural key (campaign, user) is unique, and
    /// every id is below the next one to be handed out.
    pub open spec fn wf(&self) -> bool {
        &&& forall|i: int, j: int|
            0 <= i < j < self@.len() ==> #[trigger] self@[i].id != #[trigger] self@[j].id
        &&& forall|i: int, j: int|
            0 <= i < j < self@.len() ==> !keyed(
                #[trigger] self@[i],
                self@[j].work_hour_id,
                #[trigger] self@[j].user_id,
            )
        &&& forall|i: int| 0 <= i < self@.len() ==> #[trigger] self@[i].id < self.next_id()
        &&& self@.len() < self.next_id()
    }

    /// An empty store; the first record gets the id 1.
    pub fn new() -> (r: Self)
        ensures
            r.wf(),
            r@.len() == 0,
            r.next_id() == 1,
    {
        WorkHourStore { records: Vec::new(), next_id: 1 }
    }

    /// A store holding `records`, as loaded from storage. The next new
    /// record gets an id above every id present and above the number of
    /// records. Fails with `IllegalTransition` when two records share an id
    /// or a campaign and user, and with `InfrastructureError` when no id is
    /// left for a new record.
    pub fn from_records(records: Vec<WorkHourRecord>) -> (r: Result<Self, WorkflowError>)
        ensures
            r matches Ok(st) ==> st.wf() && st@ == records@,
            r matches Err(e) ==> {
                ||| e == WorkflowError::IllegalTransition && exists|i: int, j: int|
                    0 <= i < j < records@.len() && (#[trigger] records@[i].id == #[trigger] records@[j].id
                        || keyed(records@[i], records@[j].work_hour_id, records@[j].user_id))
                ||| e == WorkflowError::InfrastructureError && (records@.len() >= u32::MAX
                    || exists|i: int| 0 <= i < records@.len() && #[trigger] records@[i].id == u32::MAX)
            },
            r is Err ==> (exists|i: int, j: int|
                0 <= i < j < records@.len() && (#[trigger] records@[i].id == #[trigger] records@[j].id
                    || keyed(records@[i], records@[j].work_hour_id, records@[j].user_id)))
                || records@.len() >= u32::MAX || exists|i: int|
                0 <= i < records@.len() && #[trigger] records@[i].id == u32::MAX,
    {
        let n = records.len();
        if n >= u32::MAX as usize {
            return Err(WorkflowError::InfrastructureError);
        }
        let mut next: u32 = n as u32 + 1;
        let mut i: usize = 0;
        while i < n
            invariant
                n == records@.len(),
                n < u32::MAX,
                i <= n,
                n < next,
                forall|k: int| 0 <= k < i ==> #[trigger] records@[k].id < next,
                forall|a: int, b: int|
                    0 <= a < b < n && a < i ==> #[trigger] apart(records@[a], records@[b]),
            decreases n - i,
        {
            let id = records[i].id;
            if id == u32::MAX {
                return Err(WorkflowError::InfrastructureError);
            }
            if id >= next {
                next = id + 1;
            }
            let mut j: usize = i + 1;
            while j < n
                invariant
                    n == records@.len(),
                    i < n,
                    i < j <= n,
                    forall|b: int| i < b < j ==> #[trigger] apart(records@[i as int], records@[b]),
                decreases n - j,
            {
                if records[j].id == records[i].id || (records[i].work_hour_id == records[j].work_hour_id
                    && records[i].user_id == records[j].user_id) {
                    return Err(WorkflowError::IllegalTransition);
                }
                assert(apart(records@[i as int], records@[j as int]));
                j = j + 1;
            }
            i = i + 1;
        }
        let st = WorkHourStore { records, next_id: next };
        assert(st@ == records@);
        assert forall|a: int, b: int| 0 <= a < b < st@.len() implies #[trigger] st@[a].id
            != #[trigger] st@[b].id by {
            assert(apart(records@[a], records@[b]));
        }
        assert forall|a: int, b: int| 0 <= a < b < st@.len() implies !keyed(
            #[trigger] st@[a],
            st@[b].work_hour_id,
            #[trigger] st@[b].user_id,
        ) by {
            assert(apart(records@[a], records@[b]));
        }
        Ok(st)
    }

    /// The number of records.
    pub fn len(&self) -> (r: usize)
        ensures
            r == self@.len(),
    {
        self.records.len()
    }

    /// The record at position `i`.
    pub fn get(&self, i: usize) -> (r: &WorkHourRecord)
        requires
            i < self@.len(),
        ensures
            *r == self@[i as int],
    {
        &self.records[i]
    }

    /// The position of the record with the id `id`.
    pub fn find_by_id(&self, id: u32) -> (r: Option<usize>)
        ensures
            r matches Some(i) ==> i < self@.len() && self@[i as int].id == id,
            r is None ==> !id_present(self@, id),
    {
        let mut i: usize = 0;
        while i < self.records.len()
            invariant
                i <= self@.len(),
                forall|j: int| 0 <= j < i ==> #[trigger] self@[j].id != id,
            decreases self@.len() - i,
        {
            if self.records[i].id == id {
                return Some(i);
            }
            i = i + 1;
        }
        None
    }

    /// The position of the record of user `user_id` in campaign `work_hour_id`.
    pub fn find_by_key(&self, work_hour_id: u32, user_id: u32) -> (r: Option<usize>)
        ensures
            r matches Some(i) ==> i < self@.len() && keyed(self@[i as int], work_hour_id, user_id),
            r is None ==> !key_present(self@, work_hour_id, user_id),
    {
        let mut i: usize = 0;
        while i < self.records.len()
            invariant
                i <= self@.len(),
                forall|j: int| 0 <= j < i ==> !#[trigger] keyed(self@[j], work_hour_id, user_id),
            decreases self@.len() - i,
        {
            if self.records[i].work_hour_id == work_hour_id && self.records[i].user_id == user_id {
                return Some(i);
            }
            i = i + 1;
        }
        None
    }

    /// The positions of the records of campaign `c`, in store order.
    pub fn list_by_campaign(&self, c: u32) -> (r: Vec<usize>)
        ensures
            selected(self@, r@, |x: WorkHourRecord| x.work_hour_id == c),
    {
        let mut r: Vec<usize> = Vec::new();
        let mut i: usize = 0;
        while i < self.records.len()
            invariant
                i <= self@.len(),
                forall|k: int|
                    0 <= k < r@.len() ==> #[trigger] r@[k] < i && self@[r@[k] as int].work_hour_id == c,
                forall|j: int| 0 <= j < i && #[trigger] self@[j].work_hour_id == c ==> r@.contains(j as usize),
                forall|k: int, l: int| 0 <= k < l < r@.len() ==> #[trigger] r@[k] < #[trigger] r@[l],
            decreases self@.len() - i,
        {
            if self.records[i].work_hour_id == c {
                proof {
                    lemma_push_contains(r@, i);
                }
                r.push(i);
            }
            i = i + 1;
        }
        r
    }

    /// The positions of the records of campaign `c` that finance sees:
    /// those past their department's approval.
    pub fn list_for_finance(&self, c: u32) -> (r: Vec<usize>)
        ensures
            selected(
                self@,
                r@,
                |x: WorkHourRecord| x.work_hour_id == c && past_department(x.status),
            ),
    {
        let mut r: Vec<usize> = Vec::new();
        let mut i: usize = 0;
        while i < self.records.len()
            invariant
                i <= self@.len(),
                forall|k: int|
                    0 <= k < r@.len() ==> #[trigger] r@[k] < i && self@[r@[k] as int].work_hour_id == c
                        && past_department(self@[r@[k] as int].status),
                forall|j: int|
                    0 <= j < i && #[trigger] self@[j].work_hour_id == c && past_department(
                        self@[j].status,
                    ) ==> r@.contains(j as usize),
                forall|k: int, l: int| 0 <= k < l < r@.len() ==> #[trigger] r@[k] < #[trigger] r@[l],
            decreases self@.len() - i,
        {
            let st = self.records[i].status;
            if self.records[i].work_hour_id == c && st != WorkHourRecordStatus::Unsubmitted && st
                != WorkHourRecordStatus::PendingApproval {
                proof {
                    lemma_push_contains(r@, i);
                }
                r.push(i);
            }
            i = i + 1;
        }
        r
    }

    /// The positions of the submitted records of campaign `c` whose owners
    /// are, by `members`, in department `d`: what the head of `d` sees.
    pub fn list_for_department(&self, c: u32, members: &Vec<Membership>, d: u32) -> (r: Vec<usize>)
        ensures
            selected(
                self@,
                r@,
                |x: WorkHourRecord|
                    x.work_hour_id == c && submitted(x.status) && department_of(members@, x.user_id)
                        == Some(d),
            ),
    {
        let mut r: Vec<usize> = Vec::new();
        let mut i: usize = 0;
        while i < self.records.len()
            invariant
                i <= self@.len(),
                forall|k: int|
                    0 <= k < r@.len() ==> #[trigger] r@[k] < i && self@[r@[k] as int].work_hour_id == c
                        && submitted(self@[r@[k] as int].status) && department_of(
                        members@,
                        self@[r@[k] as int].user_id,
                    ) == Some(d),
                forall|j: int|
                    0 <= j < i && #[trigger] self@[j].work_hour_id == c && submitted(self@[j].status)
                        && department_of(members@, self@[j].user_id) == Some(d) ==> r@.contains(
                        j as usize,
                    ),
                forall|k: int, l: int| 0 <= k < l < r@.len() ==> #[trigger] r@[k] < #[trigger] r@[l],
            decreases self@.len() - i,
        {
            if self.records[i].work_hour_id == c && self.records[i].status
                != WorkHourRecordStatus::Unsubmitted && find_department(
                members,
                self.records[i].user_id,
            ) == Some(d) {
                proof {
                    lemma_push_contains(r@, i);
                }
                r.push(i);
            }
            i = i + 1;
        }
        r
    }

    /// Resolves the inclusions of a record: for each, the owner of the
    /// record it credits. Fails with `NotFound` when a credited record does
    /// not exist.
    pub fn resolve_includes(&self, includes: &Vec<WorkInclude>) -> (r: Result<
        Vec<IncludedRecord>,
        WorkflowError,
    >)
        requires
            self.wf(),
        ensures
            r is Err <==> exists|n: int|
                0 <= n < includes@.len() && !id_present(self@, #[trigger] includes@[n].id),
            r matches Err(e) ==> e == WorkflowError::NotFound,
            r matches Ok(v) ==> v@.len() == includes@.len() && forall|n: int|
                0 <= n < v@.len() ==> #[trigger] v@[n].id == includes@[n].id && v@[n].hour
                    == includes@[n].hour && exists|i: int|
                    0 <= i < self@.len() && self@[i].id == v@[n].id && self@[i].user_id
                        == v@[n].user_id,
    {
        let mut v: Vec<IncludedRecord> = Vec::new();
        let mut n: usize = 0;
        while n < includes.len()
            invariant
                n <= includes@.len(),
                v@.len() == n,
                forall|m: int|
                    0 <= m < n ==> #[trigger] v@[m].id == includes@[m].id && v@[m].hour
                        == includes@[m].hour && exists|i: int|
                        0 <= i < self@.len() && self@[i].id == v@[m].id && self@[i].user_id
                            == v@[m].user_id,
                forall|m: int| 0 <= m < n ==> id_present(self@, #[trigger] includes@[m].id),
            decreases includes@.len() - n,
        {
            let inc = includes[n];
            match self.find_by_id(inc.id) {
                None => {
                    return Err(WorkflowError::NotFound);
                },
                Some(i) => {
                    v.push(IncludedRecord { id: inc.id, hour: inc.hour, user_id: self.records[i].user_id });
                    assert(self@[i as int].id == v@[n as int].id);
                },
            }
            n = n + 1;
        }
        Ok(v)
    }

    /// Submits `work_descs` as user `user_id` in campaign `work_hour_id` and
    /// returns the record's id. The record is created on first submission
    /// and overwritten while it is unsubmitted; a record further along is
    /// refused.
    pub fn submit(&mut self, work_hour_id: u32, user_id: u32, work_descs: Vec<WorkDesc>) -> (r:
        Result<u32, WorkflowError>)
        requires
            old(self).wf(),
        ensures
            final(self).wf(),
            (r is Err) == (submit_verdict(
                old(self)@,
                old(self).next_id(),
                work_hour_id,
                user_id,
                work_descs@,
            ) is Err),
            r matches Err(e) ==> submit_verdict(
                old(self)@,
                old(self).next_id(),
                work_hour_id,
                user_id,
                work_descs@,
            ) == Err::<(), WorkflowError>(e) && *final(self) == *old(self),
            r matches Ok(id) ==> if key_present(old(self)@, work_hour_id, user_id) {
                exists|i: int|
                    0 <= i < old(self)@.len() && #[trigger] keyed(
                        old(self)@[i],
                        work_hour_id,
                        user_id,
                    ) && id == old(self)@[i].id && final(self)@ == old(self)@.update(
                        i,
                        resubmitted(old(self)@[i], work_descs),
                    ) && final(self).next_id() == old(self).next_id()
            } else {
                &&& id == old(self).next_id()
                &&& final(self)@ == old(self)@.push(
                    fresh_record(id, work_hour_id, user_id, work_descs),
                )
                &&& final(self).next_id() == old(self).next_id() + 1
            },
    {
        if work_descs.len() == 0 {
            return Err(WorkflowError::IllegalTransition);
        }
        match self.find_by_key(work_hour_id, user_id) {
            Some(i) => {
                if self.records[i].status != WorkHourRecordStatus::Unsubmitted {
                    return Err(WorkflowError::IllegalTransition);
                }
                assert(keyed(self@[i as int], work_hour_id, user_id));
                let id = self.records[i].id;
                let record = &mut self.records[i];
                record.work_descs = work_descs;
                record.includes = None;
                record.comment = None;
                record.status = WorkHourRecordStatus::PendingApproval;
                Ok(id)
            },
            None => {
                if self.next_id == u32::MAX {
                    return Err(WorkflowError::InfrastructureError);
                }
                let id = self.next_id;
                self.records.push(
                    WorkHourRecord {
                        id,
                        work_hour_id,
                        user_id,
                        work_descs,
                        includes: None,
                        comment: None,
                        status: WorkHourRecordStatus::PendingApproval,
                    },
                );
                self.next_id = id + 1;
                Ok(id)
            },
        }
    }

    /// Moves the record `record_id` to `to` on behalf of `actor`;
    /// `subject_department` is the department of the record's owner.
    pub fn transition(
        &mut self,
        record_id: u32,
        to: WorkHourRecordStatus,
        actor: &Actor,
        subject_department: u32,
        comment: Option<String>,
    ) -> (r: Result<(), WorkflowError>)
        requires
            old(self).wf(),
        ensures
            final(self).wf(),
            !id_present(old(self)@, record_id) ==> r == Err::<(), WorkflowError>(
                WorkflowError::NotFound,
            ),
            r is Err ==> *final(self) == *old(self),
            forall|i: int|
                0 <= i < old(self)@.len() && #[trigger] old(self)@[i].id == record_id ==> {
                    &&& r == transition_verdict(
                        old(self)@[i],
                        to,
                        actor.user_id,
                        actor.department_id,
                        actor.permission@,
                        subject_department,
                        comment,
                    )
                    &&& r is Ok ==> final(self)@ == old(self)@.update(
                        i,
                        moved_to(old(self)@[i], to, comment),
                    ) && final(self).next_id() == old(self).next_id()
                },
    {
        match self.find_by_id(record_id) {
            None => Err(WorkflowError::NotFound),
            Some(i) => {
                match check_transition(&self.records[i], to, actor, subject_department, &comment) {
                    Err(e) => Err(e),
                    Ok(()) => {
                        let ghost before = self@;
                        let record = &mut self.records[i];
                        record.status = to;
                        if to == WorkHourRecordStatus::Unsubmitted {
                            record.comment = comment;
                        } else {
                            record.comment = None;
                        }
                        assert(self@ =~= before.update(i as int, self@[i as int]));
                        Ok(())
                    },
                }
            },
        }
    }

    /// Replaces the inclusions of the record `record_id` with `includes`, as
    /// finance does when it redistributes hours between records. Each
    /// inclusion must credit another existing record of the same campaign.
    pub fn save_inclusions(&mut self, actor: &Actor, record_id: u32, includes: Vec<WorkInclude>) -> (r:
        Result<(), WorkflowError>)
        requires
            old(self).wf(),
        ensures
            final(self).wf(),
            final(self).next_id() == old(self).next_id(),
            !may_generate_table(actor.permission@) ==> r == Err::<(), WorkflowError>(
                WorkflowError::PermissionDenied,
            ),
            may_generate_table(actor.permission@) && !id_present(old(self)@, record_id) ==> r
                == Err::<(), WorkflowError>(WorkflowError::NotFound),
            r is Err ==> *final(self) == *old(self),
            forall|i: int|
                0 <= i < old(self)@.len() && #[trigger] old(self)@[i].id == record_id
                    && may_generate_table(actor.permission@) ==> {
                    &&& r == inclusion_verdict(old(self)@, old(self)@[i], includes@)
                    &&& r is Ok ==> final(self)@.len() == old(self)@.len() && forall|k: int|
                        #![trigger final(self)@[k]]
                        0 <= k < old(self)@.len() ==> if k == i {
                            includes_replaced(old(self)@[k], final(self)@[k], includes@)
                        } else {
                            final(self)@[k] == old(self)@[k]
                        }
                },
    {
        if !actor.can_generate_table() {
            return Err(WorkflowError::PermissionDenied);
        }
        match self.find_by_id(record_id) {
            None => Err(WorkflowError::NotFound),
            Some(i) => {
                match self.check_inclusions(i, &includes) {
                    Err(e) => Err(e),
                    Ok(()) => {
                        self.records[i].includes = Some(includes);
                        Ok(())
                    },
                }
            },
        }
    }

    /// Whether every record that `incs` credits exists.
    fn credits_present(&self, incs: &Vec<WorkInclude>) -> (r: bool)
        ensures
            r == forall|k: int| 0 <= k < incs@.len() ==> id_present(self@, #[trigger] incs@[k].id),
    {
        let mut k: usize = 0;
        while k < incs.len()
            invariant
                k <= incs@.len(),
                forall|m: int| 0 <= m < k ==> id_present(self@, #[trigger] incs@[m].id),
            decreases incs@.len() - k,
        {
            if self.find_by_id(incs[k].id).is_none() {
                return false;
            }
            k = k + 1;
        }
        true
    }

    /// Decides whether the record at `carrier` may carry the inclusions `incs`.
    fn check_inclusions(&self, carrier: usize, incs: &Vec<WorkInclude>) -> (r: Result<(), WorkflowError>)
        requires
            self.wf(),
            carrier < self@.len(),
        ensures
            r == inclusion_verdict(self@, self@[carrier as int], incs@),
    {
        if !self.credits_present(incs) {
            return Err(WorkflowError::NotFound);
        }
        let ghost c = self@[carrier as int];
        let mut k: usize = 0;
        while k < incs.len()
            invariant
                self.wf(),
                carrier < self@.len(),
                c == self@[carrier as int],
                k <= incs@.len(),
                forall|m: int| 0 <= m < incs@.len() ==> id_present(self@, #[trigger] incs@[m].id),
                forall|m: int| 0 <= m < k ==> credit_fits(self@, c, #[trigger] incs@[m]),
            decreases incs@.len() - k,
        {
            let inc = incs[k];
            assert(id_present(self@, incs@[k as int].id));
            match self.find_by_id(inc.id) {
                None => {
                    return Err(WorkflowError::NotFound);
                },
                Some(i) => {
                    if inc.id == self.records[carrier].id || self.records[i].work_hour_id
                        != self.records[carrier].work_hour_id {
                        proof {
                            assert forall|j: int|
                                0 <= j < self@.len() && #[trigger] self@[j].id == inc.id implies j
                                == i && self@[j].work_hour_id != c.work_hour_id || inc.id == c.id by {
                                if j < i {
                                    assert(self@[j].id != self@[i as int].id);
                                } else if i < j {
                                    assert(self@[i as int].id != self@[j].id);
                                }
                            }
                            assert(!credit_fits(self@, c, incs@[k as int]));
                        }
                        return Err(WorkflowError::IllegalTransition);
                    }
                    assert(credit_fits(self@, c, incs@[k as int]));
                },
            }
            k = k + 1;
        }
        Ok(())
    }

    /// Saves the table of inclusions that finance edited: each entry
    /// replaces the inclusions of its record, a later entry for the same
    /// record overriding an earlier one. Nothing is written unless every
    /// entry names an existing record and credits only other existing
    /// records of that record's campaign.
    pub fn save_work_hour_table(&mut self, actor: &Actor, items: &Vec<WorkHourTableItem>) -> (r:
        Result<(), WorkflowError>)
        requires
            old(self).wf(),
        ensures
            final(self).wf(),
            final(self).next_id() == old(self).next_id(),
            !may_generate_table(actor.permission@) ==> r == Err::<(), WorkflowError>(
                WorkflowError::PermissionDenied,
            ),
            may_generate_table(actor.permission@) ==> r == table_verdict(old(self)@, items@),
            r is Err ==> *final(self) == *old(self),
            r is Ok ==> table_applied(old(self)@, items@, final(self)@),
    {
        if !actor.can_generate_table() {
            return Err(WorkflowError::PermissionDenied);
        }
        let mut n: usize = 0;
        while n < items.len()
            invariant
                *self == *old(self),
                self.wf(),
                may_generate_table(actor.permission@),
                n <= items@.len(),
                forall|m: int| 0 <= m < n ==> entry_refs_present(self@, #[trigger] items@[m]),
            decreases items@.len() - n,
        {
            if self.find_by_id(items[n].id).is_none() || !self.credits_present(&items[n].includes) {
                return Err(WorkflowError::NotFound);
            }
            n = n + 1;
        }
        let mut n: usize = 0;
        while n < items.len()
            invariant
                *self == *old(self),
                self.wf(),
                may_generate_table(actor.permission@),
                n <= items@.len(),
                forall|m: int| 0 <= m < items@.len() ==> entry_refs_present(self@, #[trigger] items@[m]),
                forall|m: int| 0 <= m < n ==> entry_fits(self@, #[trigger] items@[m]),
            decreases items@.len() - n,
        {
            let item = &items[n];
            assert(entry_refs_present(self@, items@[n as int]));
            match self.find_by_id(item.id) {
                None => {
                    return Err(WorkflowError::NotFound);
                },
                Some(i) => {
                    let v = self.check_inclusions(i, &item.includes);
                    proof {
                        assert forall|j: int|
                            0 <= j < self@.len() && #[trigger] self@[j].id == item.id implies j
                            == i by {
                            if j < i {
                                assert(self@[j].id != self@[i as int].id);
                            } else if i < j {
                                assert(self@[i as int].id != self@[j].id);
                            }
                        }
                    }
                    if v.is_err() {
                        assert(!entry_fits(self@, items@[n as int]));
                        return Err(WorkflowError::IllegalTransition);
                    }
                },
            }
            n = n + 1;
        }
        let ghost before = self@;
        let mut k: usize = 0;
        while k < self.records.len()
            invariant
                self.wf(),
                self.next_id() == old(self).next_id(),
                before == old(self)@,
                self@.len() == before.len(),
                k <= self@.len(),
                forall|j: int|
                    #![trigger self@[j]]
                    0 <= j < before.len() ==> self@[j].id == before[j].id && self@[j].work_hour_id
                        == before[j].work_hour_id && self@[j].user_id == before[j].user_id,
                forall|j: int| k <= j < before.len() ==> #[trigger] self@[j] == before[j],
                forall|j: int|
                    #![trigger self@[j]]
                    0 <= j < k ==> if last_entry(items@, before[j].id) < 0 {
                        self@[j] == before[j]
                    } else {
                        includes_replaced(
                            before[j],
                            self@[j],
                            items@[last_entry(items@, before[j].id)].includes@,
                        )
                    },
            decreases before.len() - k,
        {
            proof {
                lemma_last_entry(items@, before[k as int].id);
            }
            match last_entry_index(items, self.records[k].id) {
                Some(m) => {
                    let incs = copy_includes(&items[m].includes);
                    self.records[k].includes = Some(incs);
                },
                None => {},
            }
            k = k + 1;
        }
        Ok(())
    }

    /// Moves every record of campaign `c` in status `from` to `to`.
    fn advance_campaign(
        &mut self,
        c: u32,
        from: WorkHourRecordStatus,
        to: WorkHourRecordStatus,
    )
        requires
            old(self).wf(),
            to != WorkHourRecordStatus::Unsubmitted,
        ensures
            final(self).wf(),
            final(self).next_id() == old(self).next_id(),
            final(self)@ == campaign_advanced(old(self)@, c, from, to),
    {
        let ghost before = self@;
        let mut k: usize = 0;
        while k < self.records.len()
            invariant
                self.wf(),
                self.next_id() == old(self).next_id(),
                before == old(self)@,
                self@.len() == before.len(),
                to != WorkHourRecordStatus::Unsubmitted,
                k <= self@.len(),
                forall|j: int|
                    #![trigger self@[j]]
                    0 <= j < before.len() ==> self@[j].id == before[j].id && self@[j].work_hour_id
                        == before[j].work_hour_id && self@[j].user_id == before[j].user_id,
                forall|j: int| k <= j < before.len() ==> #[trigger] self@[j] == before[j],
                forall|j: int|
                    0 <= j < k ==> #[trigger] self@[j] == campaign_advanced(before, c, from, to)[j],
            decreases before.len() - k,
        {
            if self.records[k].work_hour_id == c && self.records[k].status == from {
                self.records[k].status = to;
                self.records[k].comment = None;
            }
            k = k + 1;
        }
        assert(self@ =~= campaign_advanced(before, c, from, to));
    }

    /// Finance approves, in one step, every record of campaign `c` that
    /// waits for finance. Nothing is written when the actor lacks the
    /// finance permission.
    pub fn accept_all(&mut self, actor: &Actor, c: u32) -> (r: Result<(), WorkflowError>)
        requires
            old(self).wf(),
        ensures
            final(self).wf(),
            final(self).next_id() == old(self).next_id(),
            r == if may_generate_table(actor.permission@) {
                Ok::<(), WorkflowError>(())
            } else {
                Err(WorkflowError::PermissionDenied)
            },
            r is Ok ==> final(self)@ == all_accepted(old(self)@, c),
            r is Err ==> *final(self) == *old(self),
    {
        if !actor.can_generate_table() {
            return Err(WorkflowError::PermissionDenied);
        }
        self.advance_campaign(
            c,
            WorkHourRecordStatus::PendingFinance,
            WorkHourRecordStatus::PendingDistribution,
        );
        Ok(())
    }

    /// Finance marks, in one step, every record of campaign `c` that waits
    /// to be paid out as closed. Nothing is written when the actor lacks the
    /// finance permission.
    pub fn close_all(&mut self, actor: &Actor, c: u32) -> (r: Result<(), WorkflowError>)
        requires
            old(self).wf(),
        ensures
            final(self).wf(),
            final(self).next_id() == old(self).next_id(),
            r == if may_generate_table(actor.permission@) {
                Ok::<(), WorkflowError>(())
            } else {
                Err(WorkflowError::PermissionDenied)
            },
            r is Ok ==> final(self)@ == all_closed(old(self)@, c),
            r is Err ==> *final(self) == *old(self),
    {
        if !actor.can_generate_table() {
            return Err(WorkflowError::PermissionDenied);
        }
        self.advance_campaign(c, WorkHourRecordStatus::PendingDistribution, WorkHourRecordStatus::Closed);
        Ok(())
    }
}

} // verus!
