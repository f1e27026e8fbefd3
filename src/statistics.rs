//! Per-department statistics of a campaign: how many records each
//! department has and how many hours they declare.
use vstd::prelude::*;

use crate::org::{Department, Membership};
use crate::store::{table_applied, WorkHourStore};
use crate::work_hour::{
    declared_hours, WorkDesc, WorkHourRecord, WorkHourStatistics, WorkHourStatisticsItem,
    WorkHourTableItem,
};
use crate::workflow::WorkflowError;

verus! {

/// How many items of one kind are in one status.
#[derive(Debug, Clone, Copy, PartialEq, Eq, Structural)]
pub struct StatisticsItem {
    /// The stored code of the status.
    pub status: u32,
    pub count: u32,
}

/// The department of user `u` in the directory `members`; a later entry for
/// the same user overrides an earlier one.
pub open spec fn department_of(members: Seq<Membership>, u: u32) -> Option<u32>
    decreases members.len(),
{
    if members.len() == 0 {
        None
    } else if members.last().user_id == u {
        Some(members.last().department_id)
    } else {
        department_of(members.drop_last(), u)
    }
}

/// Whether `departments` lists a department with the id `d`.
pub open spec fn department_listed(departments: Seq<Department>, d: u32) -> bool {
    exists|k: int| 0 <= k < departments.len() && #[trigger] departments[k].id == d
}

/// Whether the record `r` belongs to campaign `c` and its owner to department `d`.
pub open spec fn counted_in(r: WorkHourRecord, c: u32, members: Seq<Membership>, d: u32) -> bool {
    r.work_hour_id == c && department_of(members, r.user_id) == Some(d)
}

/// The number of records of campaign `c` whose owner is in department `d`.
pub open spec fn department_count(
    s: Seq<WorkHourRecord>,
    c: u32,
    members: Seq<Membership>,
    d: u32,
) -> nat
    decreases s.len(),
{
    if s.len() == 0 {
        0
    } else {
        department_count(s.drop_last(), c, members, d) + if counted_in(s.last(), c, members, d) {
            1nat
        } else {
            0nat
        }
    }
}

/// The hours that the records of campaign `c` whose owner is in department
/// `d` declare in their own lines; inclusions are not counted.
pub open spec fn department_hours(
    s: Seq<WorkHourRecord>,
    c: u32,
    members: Seq<Membership>,
    d: u32,
) -> nat
    decreases s.len(),
{
    if s.len() == 0 {
        0
    } else {
        department_hours(s.drop_last(), c, members, d) + if counted_in(s.last(), c, members, d) {
            declared_hours(s.last().work_descs@)
        } else {
            0nat
        }
    }
}

/// The hours that all records of campaign `c` declare in their own lines.
pub open spec fn campaign_hours(s: Seq<WorkHourRecord>, c: u32) -> nat
    decreases s.len(),
{
    if s.len() == 0 {
        0
    } else {
        campaign_hours(s.drop_last(), c) + if s.last().work_hour_id == c {
            declared_hours(s.last().work_descs@)
        } else {
            0nat
        }
    }
}

/// Whether some record of campaign `c` has an owner missing from `members`
/// or a department missing from `departments`.
pub open spec fn lookup_missing(
    s: Seq<WorkHourRecord>,
    c: u32,
    members: Seq<Membership>,
    departments: Seq<Department>,
) -> bool {
    exists|i: int|
        0 <= i < s.len() && #[trigger] s[i].work_hour_id == c && match department_of(
            members,
            s[i].user_id,
        ) {
            None => true,
            Some(d) => !department_listed(departments, d),
        }
}

/// Whether `departments[k]` is the first entry with its id.
pub open spec fn first_listing(departments: Seq<Department>, k: int) -> bool {
    forall|m: int| 0 <= m < k ==> #[trigger] departments[m].id != departments[k].id
}

/// The rows of the statistics: one per department that has records in
/// campaign `c`, in the order of `departments`, with its count and hours.
pub open spec fn statistics_rows(
    s: Seq<WorkHourRecord>,
    c: u32,
    members: Seq<Membership>,
    departments: Seq<Department>,
) -> Seq<(Department, nat, nat)>
    decreases departments.len(),
{
    if departments.len() == 0 {
        seq![]
    } else {
        let earlier = statistics_rows(s, c, members, departments.drop_last());
        let d = departments.last();
        if first_listing(departments, departments.len() - 1) && department_count(
            s,
            c,
            members,
            d.id,
        ) > 0 {
            earlier.push((d, department_count(s, c, members, d.id), department_hours(s, c, members, d.id)))
        } else {
            earlier
        }
    }
}

/// A row of the result, as the rows of the statistics describe it.
pub open spec fn row_of(x: WorkHourStatistics) -> (Department, nat, nat) {
    (x.department, x.stats.count as nat, x.stats.total_hours as nat)
}

/// Declared hours grow with the lines: a prefix declares no more.
pub proof fn lemma_declared_hours_prefix(descs: Seq<WorkDesc>, i: int)
    requires
        0 <= i <= descs.len(),
    ensures
        declared_hours(descs.subrange(0, i)) <= declared_hours(descs),
    decreases descs.len() - i,
{
    if i < descs.len() {
        lemma_declared_hours_prefix(descs, i + 1);
        assert(descs.subrange(0, i + 1).drop_last() =~= descs.subrange(0, i));
    } else {
        assert(descs.subrange(0, i) =~= descs);
    }
}

/// Campaign hours grow with the records: a prefix declares no more.
pub proof fn lemma_campaign_hours_prefix(s: Seq<WorkHourRecord>, c: u32, i: int)
    requires
        0 <= i <= s.len(),
    ensures
        campaign_hours(s.subrange(0, i), c) <= campaign_hours(s, c),
    decreases s.len() - i,
{
    if i < s.len() {
        lemma_campaign_hours_prefix(s, c, i + 1);
        assert(s.subrange(0, i + 1).drop_last() =~= s.subrange(0, i));
    } else {
        assert(s.subrange(0, i) =~= s);
    }
}

/// A department declares no more hours than its whole campaign, and has no
/// more records than there are.
pub proof fn lemma_department_within_campaign(
    s: Seq<WorkHourRecord>,
    c: u32,
    members: Seq<Membership>,
    d: u32,
)
    ensures
        department_hours(s, c, members, d) <= campaign_hours(s, c),
        department_count(s, c, members, d) <= s.len(),
    decreases s.len(),
{
    if s.len() > 0 {
        lemma_department_within_campaign(s.drop_last(), c, members, d);
    }
}

/// Whether two record lists agree on everything the statistics read:
/// campaign, owner and declared lines, record by record.
pub open spec fn same_declarations(s1: Seq<WorkHourRecord>, s2: Seq<WorkHourRecord>) -> bool {
    &&& s1.len() == s2.len()
    &&& forall|i: int|
        0 <= i < s1.len() ==> #[trigger] s1[i].work_hour_id == s2[i].work_hour_id && s1[i].user_id
            == s2[i].user_id && s1[i].work_descs@ == s2[i].work_descs@
}

/// Counters of a department read only the declarations.
proof fn lemma_counters_read_declarations(
    s1: Seq<WorkHourRecord>,
    s2: Seq<WorkHourRecord>,
    c: u32,
    members: Seq<Membership>,
    d: u32,
)
    requires
        same_declarations(s1, s2),
    ensures
        department_count(s1, c, members, d) == department_count(s2, c, members, d),
        department_hours(s1, c, members, d) == department_hours(s2, c, members, d),
    decreases s1.len(),
{
    if s1.len() > 0 {
        assert(same_declarations(s1.drop_last(), s2.drop_last())) by {
            assert forall|i: int| 0 <= i < s1.len() - 1 implies #[trigger] s1.drop_last()[i].work_hour_id
                == s2.drop_last()[i].work_hour_id && s1.drop_last()[i].user_id
                == s2.drop_last()[i].user_id && s1.drop_last()[i].work_descs@
                == s2.drop_last()[i].work_descs@ by {
                assert(s1[i].work_hour_id == s2[i].work_hour_id);
            }
        }
        assert(s1.last().work_hour_id == s2.last().work_hour_id);
        lemma_counters_read_declarations(s1.drop_last(), s2.drop_last(), c, members, d);
    }
}

/// Statistics read only the declarations: records that differ only in
/// their inclusions, comments or statuses give the same rows. In
/// particular, saving a table of inclusions changes no statistic.
pub proof fn lemma_statistics_ignore_inclusions(
    s1: Seq<WorkHourRecord>,
    s2: Seq<WorkHourRecord>,
    c: u32,
    members: Seq<Membership>,
    departments: Seq<Department>,
)
    requires
        same_declarations(s1, s2),
    ensures
        statistics_rows(s1, c, members, departments) == statistics_rows(s2, c, members, departments),
    decreases departments.len(),
{
    if departments.len() > 0 {
        lemma_statistics_ignore_inclusions(s1, s2, c, members, departments.drop_last());
        lemma_counters_read_declarations(s1, s2, c, members, departments.last().id);
    }
}

/// Saving a table of inclusions keeps every declaration, so the statistics
/// of every campaign are the same before and after.
pub proof fn lemma_saved_table_keeps_statistics(
    before: Seq<WorkHourRecord>,
    items: Seq<WorkHourTableItem>,
    after: Seq<WorkHourRecord>,
    c: u32,
    members: Seq<Membership>,
    departments: Seq<Department>,
)
    requires
        table_applied(before, items, after),
    ensures
        statistics_rows(before, c, members, departments) == statistics_rows(
            after,
            c,
            members,
            departments,
        ),
{
    assert forall|i: int| 0 <= i < before.len() implies #[trigger] before[i].work_hour_id
        == after[i].work_hour_id && before[i].user_id == after[i].user_id && before[i].work_descs@
        == after[i].work_descs@ by {}
    lemma_statistics_ignore_inclusions(before, after, c, members, departments);
}

/// A department none of whose records is in the campaign counts nothing.
proof fn lemma_department_without_records(
    s: Seq<WorkHourRecord>,
    c: u32,
    members: Seq<Membership>,
    d: u32,
)
    requires
        forall|j: int| 0 <= j < s.len() ==> !counted_in(#[trigger] s[j], c, members, d),
    ensures
        department_count(s, c, members, d) == 0,
        department_hours(s, c, members, d) == 0,
    decreases s.len(),
{
    if s.len() > 0 {
        assert(!counted_in(s[s.len() - 1], c, members, d));
        assert forall|j: int| 0 <= j < s.len() - 1 implies !counted_in(
            #[trigger] s.drop_last()[j],
            c,
            members,
            d,
        ) by {
            assert(!counted_in(s[j], c, members, d));
        }
        lemma_department_without_records(s.drop_last(), c, members, d);
    }
}

/// A department with exactly one record `s[i]` in the campaign counts one
/// record and the hours that record declares.
pub proof fn lemma_lone_record_counters(
    s: Seq<WorkHourRecord>,
    c: u32,
    members: Seq<Membership>,
    d: u32,
    i: int,
)
    requires
        0 <= i < s.len(),
        counted_in(s[i], c, members, d),
        forall|j: int| 0 <= j < s.len() && j != i ==> !counted_in(#[trigger] s[j], c, members, d),
    ensures
        department_count(s, c, members, d) == 1,
        department_hours(s, c, members, d) == declared_hours(s[i].work_descs@),
    decreases s.len(),
{
    assert forall|j: int| 0 <= j < s.len() - 1 && j != i implies !counted_in(
        #[trigger] s.drop_last()[j],
        c,
        members,
        d,
    ) by {
        assert(!counted_in(s[j], c, members, d));
    }
    if i == s.len() - 1 {
        lemma_department_without_records(s.drop_last(), c, members, d);
    } else {
        assert(!counted_in(s[s.len() - 1], c, members, d));
        lemma_lone_record_counters(s.drop_last(), c, members, d, i);
    }
}

/// Every row of the statistics is for a department listed in `departments`.
proof fn lemma_rows_from_listing(
    s: Seq<WorkHourRecord>,
    c: u32,
    members: Seq<Membership>,
    departments: Seq<Department>,
)
    ensures
        forall|m: int|
            0 <= m < statistics_rows(s, c, members, departments).len() ==> exists|j: int|
                0 <= j < departments.len() && #[trigger] statistics_rows(
                    s,
                    c,
                    members,
                    departments,
                )[m].0 == departments[j],
    decreases departments.len(),
{
    if departments.len() > 0 {
        let earlier = departments.drop_last();
        lemma_rows_from_listing(s, c, members, earlier);
        let rows = statistics_rows(s, c, members, departments);
        assert forall|m: int| 0 <= m < rows.len() implies exists|j: int|
            0 <= j < departments.len() && #[trigger] rows[m].0 == departments[j] by {
            if m < statistics_rows(s, c, members, earlier).len() {
                let j = choose|j: int|
                    0 <= j < earlier.len() && #[trigger] statistics_rows(s, c, members, earlier)[m].0
                        == earlier[j];
                assert(rows[m].0 == departments[j]);
            } else {
                assert(rows[m].0 == departments[departments.len() - 1]);
            }
        }
    }
}

/// The department first listed at `departments[k]`, when it has records in
/// the campaign, has exactly one row: with its count and its hours.
pub proof fn lemma_department_row(
    s: Seq<WorkHourRecord>,
    c: u32,
    members: Seq<Membership>,
    departments: Seq<Department>,
    k: int,
)
    requires
        0 <= k < departments.len(),
        first_listing(departments, k),
        department_count(s, c, members, departments[k].id) > 0,
    ensures
        ({
            let rows = statistics_rows(s, c, members, departments);
            let row = (
                departments[k],
                department_count(s, c, members, departments[k].id),
                department_hours(s, c, members, departments[k].id),
            );
            &&& exists|m: int| 0 <= m < rows.len() && rows[m] == row
            &&& forall|m: int|
                0 <= m < rows.len() && (#[trigger] rows[m]).0.id == departments[k].id ==> rows[m]
                    == row
        }),
    decreases departments.len(),
{
    let d = departments[k];
    let rows = statistics_rows(s, c, members, departments);
    let row = (d, department_count(s, c, members, d.id), department_hours(s, c, members, d.id));
    let earlier = departments.drop_last();
    let before = statistics_rows(s, c, members, earlier);
    if k == departments.len() - 1 {
        lemma_rows_from_listing(s, c, members, earlier);
        assert(rows == before.push(row));
        assert(rows[before.len() as int] == row);
        assert forall|m: int| 0 <= m < rows.len() && (#[trigger] rows[m]).0.id == d.id implies rows[m]
            == row by {
            if m < before.len() {
                let j = choose|j: int| 0 <= j < earlier.len() && #[trigger] before[m].0 == earlier[j];
                assert(departments[j].id != departments[k].id);
            }
        }
    } else {
        assert forall|m: int| 0 <= m < k implies #[trigger] earlier[m].id != earlier[k].id by {
            assert(departments[m].id != departments[k].id);
        }
        lemma_department_row(s, c, members, earlier, k);
        let m0 = choose|m: int| 0 <= m < before.len() && before[m] == row;
        if rows != before {
            let last = departments.last();
            assert(first_listing(departments, departments.len() - 1));
            assert(departments[k].id != last.id);
            assert(rows[m0] == row);
            assert forall|m: int| 0 <= m < rows.len() && (#[trigger] rows[m]).0.id == d.id implies rows[m]
                == row by {
                if m < before.len() {
                    assert(rows[m] == before[m]);
                }
            }
        } else {
            assert(rows[m0] == row);
        }
    }
}

/// When `s[i]` is the only record of campaign `c` in the department first
/// listed at `departments[k]`, that department has exactly one row, with
/// a count of one and the hours `s[i]` declares in its own lines.
pub proof fn lemma_lone_record_row(
    s: Seq<WorkHourRecord>,
    c: u32,
    members: Seq<Membership>,
    departments: Seq<Department>,
    k: int,
    i: int,
)
    requires
        0 <= k < departments.len(),
        first_listing(departments, k),
        0 <= i < s.len(),
        counted_in(s[i], c, members, departments[k].id),
        forall|j: int|
            0 <= j < s.len() && j != i ==> !counted_in(#[trigger] s[j], c, members, departments[k].id),
    ensures
        ({
            let rows = statistics_rows(s, c, members, departments);
            let row = (departments[k], 1nat, declared_hours(s[i].work_descs@));
            &&& exists|m: int| 0 <= m < rows.len() && rows[m] == row
            &&& forall|m: int|
                0 <= m < rows.len() && (#[trigger] rows[m]).0.id == departments[k].id ==> rows[m]
                    == row
        }),
{
    lemma_lone_record_counters(s, c, members, departments[k].id, i);
    lemma_department_row(s, c, members, departments, k);
}

/// The hours that `descs` declare, given that they fit in a `u32`.
fn sum_hours(descs: &Vec<WorkDesc>) -> (r: u32)
    requires
        declared_hours(descs@) <= u32::MAX,
    ensures
        r == declared_hours(descs@),
{
    let mut total: u32 = 0;
    let mut m: usize = 0;
    while m < descs.len()
        invariant
            m <= descs@.len(),
            declared_hours(descs@) <= u32::MAX,
            total == declared_hours(descs@.subrange(0, m as int)),
        decreases descs@.len() - m,
    {
        assert(descs@.subrange(0, m + 1 as int).drop_last() =~= descs@.subrange(0, m as int));
        proof {
            lemma_declared_hours_prefix(descs@, m + 1);
        }
        total = total + descs[m].hour;
        m = m + 1;
    }
    assert(descs@.subrange(0, descs@.len() as int) =~= descs@);
    total
}

/// The department of user `u` in the directory `members`.
pub fn find_department(members: &Vec<Membership>, u: u32) -> (r: Option<u32>)
    ensures
        r == department_of(members@, u),
{
    let mut best: Option<u32> = None;
    let mut j: usize = 0;
    while j < members.len()
        invariant
            j <= members@.len(),
            best == department_of(members@.subrange(0, j as int), u),
        decreases members@.len() - j,
    {
        assert(members@.subrange(0, j + 1 as int).drop_last() =~= members@.subrange(0, j as int));
        if members[j].user_id == u {
            best = Some(members[j].department_id);
        }
        j = j + 1;
    }
    assert(members@.subrange(0, members@.len() as int) =~= members@);
    best
}

/// Whether `departments` lists the department `d`.
fn is_listed(departments: &Vec<Department>, d: u32) -> (r: bool)
    ensures
        r == department_listed(departments@, d),
{
    let mut k: usize = 0;
    while k < departments.len()
        invariant
            k <= departments@.len(),
            forall|m: int| 0 <= m < k ==> #[trigger] departments@[m].id != d,
        decreases departments@.len() - k,
    {
        if departments[k].id == d {
            return true;
        }
        k = k + 1;
    }
    false
}

/// Whether `departments[k]` is the first entry with its id.
fn is_first_listing(departments: &Vec<Department>, k: usize) -> (r: bool)
    requires
        k < departments@.len(),
    ensures
        r == first_listing(departments@, k as int),
{
    let mut m: usize = 0;
    while m < k
        invariant
            k < departments@.len(),
            m <= k,
            forall|n: int| 0 <= n < m ==> #[trigger] departments@[n].id != departments@[k as int].id,
        decreases k - m,
    {
        if departments[m].id == departments[k].id {
            return false;
        }
        m = m + 1;
    }
    true
}

impl WorkHourStore {
    /// The hours that the records of campaign `c` declare, when they fit in
    /// a `u32`.
    pub fn campaign_hours_fit(&self, c: u32) -> (r: bool)
        ensures
            r == (campaign_hours(self@, c) <= u32::MAX),
    {
        let mut total: u64 = 0;
        let mut i: usize = 0;
        while i < self.len()
            invariant
                i <= self@.len(),
                total == campaign_hours(self@.subrange(0, i as int), c),
                total <= u32::MAX,
            decreases self@.len() - i,
        {
            assert(self@.subrange(0, i + 1 as int).drop_last() =~= self@.subrange(0, i as int));
            proof {
                lemma_campaign_hours_prefix(self@, c, i + 1);
            }
            let record = self.get(i);
            assert(self@.subrange(0, i + 1 as int).last() == self@[i as int]);
            if record.work_hour_id == c {
                let mut m: usize = 0;
                let mut own: u64 = 0;
                while m < record.work_descs.len()
                    invariant
                        m <= record.work_descs@.len(),
                        own == declared_hours(record.work_descs@.subrange(0, m as int)),
                        total + own <= u32::MAX,
                        campaign_hours(self@.subrange(0, i + 1 as int), c) == total
                            + declared_hours(record.work_descs@),
                        campaign_hours(self@.subrange(0, i + 1 as int), c) <= campaign_hours(
                            self@,
                            c,
                        ),
                    decreases record.work_descs@.len() - m,
                {
                    assert(record.work_descs@.subrange(0, m + 1 as int).drop_last()
                        =~= record.work_descs@.subrange(0, m as int));
                    own = own + record.work_descs[m].hour as u64;
                    m = m + 1;
                    if total + own > u32::MAX as u64 {
                        proof {
                            lemma_declared_hours_prefix(record.work_descs@, m as int);
                        }
                        return false;
                    }
                }
                assert(record.work_descs@.subrange(0, m as int) =~= record.work_descs@);
                total = total + own;
            }
            i = i + 1;
        }
        assert(self@.subrange(0, self@.len() as int) =~= self@);
        true
    }

    /// The counters of department `d` in campaign `c`.
    fn department_counters(&self, c: u32, members: &Vec<Membership>, d: u32) -> (r:
        WorkHourStatisticsItem)
        requires
            self.wf(),
            campaign_hours(self@, c) <= u32::MAX,
        ensures
            r.count == department_count(self@, c, members@, d),
            r.total_hours == department_hours(self@, c, members@, d),
    {
        let mut count: u32 = 0;
        let mut hours: u32 = 0;
        let mut i: usize = 0;
        while i < self.len()
            invariant
                self.wf(),
                campaign_hours(self@, c) <= u32::MAX,
                i <= self@.len(),
                count == department_count(self@.subrange(0, i as int), c, members@, d),
                hours == department_hours(self@.subrange(0, i as int), c, members@, d),
            decreases self@.len() - i,
        {
            let ghost prefix = self@.subrange(0, i + 1 as int);
            assert(prefix.drop_last() =~= self@.subrange(0, i as int));
            proof {
                lemma_campaign_hours_prefix(self@, c, i + 1);
                lemma_department_within_campaign(prefix, c, members@, d);
            }
            let record = self.get(i);
            if record.work_hour_id == c && find_department(members, record.user_id) == Some(d) {
                let own = sum_hours(&record.work_descs);
                count = count + 1;
                hours = hours + own;
            }
            i = i + 1;
        }
        assert(self@.subrange(0, self@.len() as int) =~= self@);
        WorkHourStatisticsItem { count, total_hours: hours }
    }

    /// Folds every record of campaign `c` into per-department counters:
    /// one row per listed department with records in the campaign, in the
    /// order of `departments`. `members` gives each user's department.
    /// Fails with `NotFound` when an owner or a department is missing.
    pub fn statistics(&self, c: u32, members: &Vec<Membership>, departments: &Vec<Department>) -> (r:
        Result<Vec<WorkHourStatistics>, WorkflowError>)
        requires
            self.wf(),
            campaign_hours(self@, c) <= u32::MAX,
        ensures
            r is Err <==> lookup_missing(self@, c, members@, departments@),
            r matches Err(e) ==> e == WorkflowError::NotFound,
            r matches Ok(v) ==> v@.map_values(|x: WorkHourStatistics| row_of(x))
                == statistics_rows(self@, c, members@, departments@),
    {
        let mut i: usize = 0;
        while i < self.len()
            invariant
                i <= self@.len(),
                forall|j: int|
                    0 <= j < i && #[trigger] self@[j].work_hour_id == c ==> match department_of(
                        members@,
                        self@[j].user_id,
                    ) {
                        None => false,
                        Some(d) => department_listed(departments@, d),
                    },
            decreases self@.len() - i,
        {
            let record = self.get(i);
            if record.work_hour_id == c {
                match find_department(members, record.user_id) {
                    None => {
                        return Err(WorkflowError::NotFound);
                    },
                    Some(d) => {
                        if !is_listed(departments, d) {
                            return Err(WorkflowError::NotFound);
                        }
                    },
                }
            }
            i = i + 1;
        }
        let mut out: Vec<WorkHourStatistics> = Vec::new();
        let mut k: usize = 0;
        while k < departments.len()
            invariant
                self.wf(),
                campaign_hours(self@, c) <= u32::MAX,
                k <= departments@.len(),
                out@.map_values(|x: WorkHourStatistics| row_of(x)) == statistics_rows(
                    self@,
                    c,
                    members@,
                    departments@.subrange(0, k as int),
                ),
            decreases departments@.len() - k,
        {
            let ghost upto = departments@.subrange(0, k + 1 as int);
            assert(upto.drop_last() =~= departments@.subrange(0, k as int));
            let first = is_first_listing(departments, k);
            proof {
                assert forall|m: int| 0 <= m <= k implies #[trigger] upto[m] == departments@[m] by {}
                if first {
                    assert forall|m: int| 0 <= m < k implies #[trigger] upto[m].id != upto[k as int].id by {
                        assert(departments@[m].id != departments@[k as int].id);
                    }
                } else {
                    let m = choose|m: int| 0 <= m < k && #[trigger] departments@[m].id == departments@[k as int].id;
                    assert(upto[m].id == upto[k as int].id);
                }
            }
            let stats = self.department_counters(c, members, departments[k].id);
            if first && stats.count > 0 {
                let row = WorkHourStatistics { department: departments[k].duplicate(), stats };
                out.push(row);
                assert(out@.map_values(|x: WorkHourStatistics| row_of(x)) =~= statistics_rows(
                    self@,
                    c,
                    members@,
                    upto,
                ));
            }
            k = k + 1;
        }
        assert(departments@.subrange(0, departments@.len() as int) =~= departments@);
        Ok(out)
    }
}

} // verus!
