use qnxg_backend::org::{Department, Membership};
use qnxg_backend::permission::{Permission, PermissionItem};
use qnxg_backend::store::WorkHourStore;
use qnxg_backend::work_hour::{
    WorkDesc, WorkHourRecord, WorkHourRecordStatus, WorkHourTableItem, WorkInclude,
};
use qnxg_backend::workflow::{transition, Actor, WorkflowError};

const CAMPAIGN: u32 = 1;

fn actor(user_id: u32, department_id: u32, paths: &[&str]) -> Actor {
    let items = paths
        .iter()
        .enumerate()
        .map(|(i, p)| PermissionItem {
            id: i as u32 + 1,
            name: format!("item {}", i),
            permission: p.to_string(),
        })
        .collect();
    Actor {
        user_id,
        department_id,
        permission: Permission::new(items),
    }
}

fn head(user_id: u32, department_id: u32) -> Actor {
    actor(user_id, department_id, &["yq:workHours:checkDepartment"])
}

fn finance() -> Actor {
    actor(30, 5, &["yq:workHours:generateTable"])
}

fn lines(items: &[(&str, u32)]) -> Vec<WorkDesc> {
    items
        .iter()
        .map(|(d, h)| WorkDesc {
            desc: d.to_string(),
            hour: *h,
        })
        .collect()
}

fn record_by_id(store: &WorkHourStore, id: u32) -> &WorkHourRecord {
    store.get(store.find_by_id(id).unwrap())
}

fn status_of(store: &WorkHourStore, id: u32) -> WorkHourRecordStatus {
    record_by_id(store, id).status
}

fn department(id: u32, name: &str) -> Department {
    Department {
        id,
        name: name.to_string(),
        desc: String::new(),
    }
}

fn bare_record(status: WorkHourRecordStatus) -> WorkHourRecord {
    WorkHourRecord {
        id: 1,
        work_hour_id: CAMPAIGN,
        user_id: 10,
        work_descs: lines(&[("tutoring", 4)]),
        includes: None,
        comment: None,
        status,
    }
}

#[test]
fn end_to_end_declaration_cycle() {
    let mut store = WorkHourStore::new();
    let u = store.submit(CAMPAIGN, 10, lines(&[("tutoring", 4)])).unwrap();
    assert_eq!(status_of(&store, u), WorkHourRecordStatus::PendingApproval);

    store
        .transition(u, WorkHourRecordStatus::PendingFinance, &head(20, 3), 3, None)
        .unwrap();
    assert_eq!(status_of(&store, u), WorkHourRecordStatus::PendingFinance);

    let other = store.submit(CAMPAIGN, 11, lines(&[("events", 2)])).unwrap();
    store
        .transition(other, WorkHourRecordStatus::PendingFinance, &head(21, 4), 4, None)
        .unwrap();

    let f = finance();
    store
        .save_inclusions(&f, other, vec![WorkInclude { id: u, hour: 4 }])
        .unwrap();
    assert_eq!(
        record_by_id(&store, other).includes,
        Some(vec![WorkInclude { id: u, hour: 4 }])
    );
    assert_eq!(record_by_id(&store, u).includes, None);

    store
        .transition(u, WorkHourRecordStatus::PendingDistribution, &f, 3, None)
        .unwrap();
    assert_eq!(status_of(&store, u), WorkHourRecordStatus::PendingDistribution);
    store
        .transition(u, WorkHourRecordStatus::Closed, &f, 3, None)
        .unwrap();
    assert_eq!(status_of(&store, u), WorkHourRecordStatus::Closed);
    assert_eq!(record_by_id(&store, u).work_descs[0].desc, "tutoring");
    assert_eq!(record_by_id(&store, u).work_descs[0].hour, 4);

    let members = vec![
        Membership { user_id: 10, department_id: 3 },
        Membership { user_id: 11, department_id: 4 },
    ];
    let departments = vec![department(3, "tutors"), department(4, "events")];
    let stats = store.statistics(CAMPAIGN, &members, &departments).unwrap();
    assert_eq!(stats.len(), 2);
    assert_eq!(stats[0].department.id, 3);
    assert_eq!(stats[0].department.name, "tutors");
    assert_eq!(stats[0].stats.count, 1);
    assert_eq!(stats[0].stats.total_hours, 4);
    assert_eq!(stats[1].department.id, 4);
    assert_eq!(stats[1].stats.count, 1);
    assert_eq!(stats[1].stats.total_hours, 2);
}

#[test]
fn pairs_outside_table_are_illegal_for_every_actor() {
    let all = [
        WorkHourRecordStatus::Unsubmitted,
        WorkHourRecordStatus::PendingApproval,
        WorkHourRecordStatus::PendingFinance,
        WorkHourRecordStatus::PendingDistribution,
        WorkHourRecordStatus::Closed,
    ];
    let legal = [(0, 1), (1, 2), (1, 0), (2, 3), (2, 0), (3, 4)];
    let actors = [
        actor(10, 3, &["*"]),
        actor(10, 3, &[]),
        head(20, 3),
        finance(),
    ];
    for (fi, from) in all.iter().enumerate() {
        for (ti, to) in all.iter().enumerate() {
            if legal.contains(&(fi, ti)) {
                continue;
            }
            for a in actors.iter() {
                let mut r = bare_record(*from);
                let res = transition(&mut r, *to, a, 3, Some("why".to_string()));
                assert_eq!(res, Err(WorkflowError::IllegalTransition));
                assert_eq!(r.status, *from);
            }
        }
    }
}

#[test]
fn legal_pairs_need_the_right_actor() {
    let mut r = bare_record(WorkHourRecordStatus::PendingApproval);
    let res = transition(&mut r, WorkHourRecordStatus::PendingFinance, &head(20, 4), 3, None);
    assert_eq!(res, Err(WorkflowError::PermissionDenied));
    let res = transition(&mut r, WorkHourRecordStatus::PendingFinance, &finance(), 3, None);
    assert_eq!(res, Err(WorkflowError::PermissionDenied));
    let res = transition(&mut r, WorkHourRecordStatus::PendingFinance, &head(20, 3), 3, None);
    assert_eq!(res, Ok(()));

    let res = transition(&mut r, WorkHourRecordStatus::PendingDistribution, &head(20, 3), 3, None);
    assert_eq!(res, Err(WorkflowError::PermissionDenied));
    let res = transition(&mut r, WorkHourRecordStatus::PendingDistribution, &finance(), 3, None);
    assert_eq!(res, Ok(()));

    let mut fresh = bare_record(WorkHourRecordStatus::Unsubmitted);
    let res = transition(&mut fresh, WorkHourRecordStatus::PendingApproval, &actor(11, 3, &["*"]), 3, None);
    assert_eq!(res, Err(WorkflowError::PermissionDenied));
    let res = transition(&mut fresh, WorkHourRecordStatus::PendingApproval, &actor(10, 3, &[]), 3, None);
    assert_eq!(res, Ok(()));
}

#[test]
fn rejection_requires_comment() {
    let everyone = actor(20, 3, &["*"]);
    for from in [WorkHourRecordStatus::PendingApproval, WorkHourRecordStatus::PendingFinance] {
        let mut r = bare_record(from);
        let res = transition(&mut r, WorkHourRecordStatus::Unsubmitted, &everyone, 3, None);
        assert_eq!(res, Err(WorkflowError::IllegalTransition));
        let res = transition(&mut r, WorkHourRecordStatus::Unsubmitted, &everyone, 3, Some(String::new()));
        assert_eq!(res, Err(WorkflowError::IllegalTransition));
        assert_eq!(r.status, from);
        let res = transition(
            &mut r,
            WorkHourRecordStatus::Unsubmitted,
            &everyone,
            3,
            Some("missing details".to_string()),
        );
        assert_eq!(res, Ok(()));
        assert_eq!(r.status, WorkHourRecordStatus::Unsubmitted);
        assert_eq!(r.comment.as_deref(), Some("missing details"));
        assert_eq!(r.work_descs.len(), 1);
    }
}

#[test]
fn resubmission_guard() {
    let mut store = WorkHourStore::new();
    let id = store.submit(CAMPAIGN, 10, lines(&[("tutoring", 4)])).unwrap();
    assert_eq!(
        store.submit(CAMPAIGN, 10, lines(&[("more", 1)])),
        Err(WorkflowError::IllegalTransition)
    );
    assert_eq!(record_by_id(&store, id).work_descs[0].desc, "tutoring");

    store
        .transition(
            id,
            WorkHourRecordStatus::Unsubmitted,
            &head(20, 3),
            3,
            Some("split the lines".to_string()),
        )
        .unwrap();
    let again = store
        .submit(CAMPAIGN, 10, lines(&[("tutoring", 2), ("grading", 2)]))
        .unwrap();
    assert_eq!(again, id);
    assert_eq!(store.len(), 1);
    let r = record_by_id(&store, id);
    assert_eq!(r.status, WorkHourRecordStatus::PendingApproval);
    assert_eq!(r.work_descs.len(), 2);
    assert_eq!(r.work_descs[1].desc, "grading");
    assert_eq!(r.comment, None);
}

#[test]
fn submission_needs_lines() {
    let mut store = WorkHourStore::new();
    assert_eq!(
        store.submit(CAMPAIGN, 10, Vec::new()),
        Err(WorkflowError::IllegalTransition)
    );
    assert_eq!(store.len(), 0);
    let a = store.submit(CAMPAIGN, 10, lines(&[("a", 1)])).unwrap();
    let b = store.submit(CAMPAIGN + 1, 10, lines(&[("b", 1)])).unwrap();
    assert_eq!(a, 1);
    assert_eq!(b, 2);
    assert_eq!(store.find_by_key(CAMPAIGN + 1, 10), Some(1));
    assert_eq!(store.find_by_key(CAMPAIGN + 2, 10), None);
}

#[test]
fn unknown_record_is_not_found() {
    let mut store = WorkHourStore::new();
    let res = store.transition(42, WorkHourRecordStatus::PendingFinance, &head(20, 3), 3, None);
    assert_eq!(res, Err(WorkflowError::NotFound));
    let res = store.save_inclusions(&finance(), 42, Vec::new());
    assert_eq!(res, Err(WorkflowError::NotFound));
}

fn campaign_in_distribution() -> (WorkHourStore, Vec<u32>) {
    let mut store = WorkHourStore::new();
    let mut ids = Vec::new();
    for user in 10..13u32 {
        let id = store.submit(CAMPAIGN, user, lines(&[("work", user)])).unwrap();
        store
            .transition(id, WorkHourRecordStatus::PendingFinance, &head(20, 3), 3, None)
            .unwrap();
        ids.push(id);
    }
    store.submit(CAMPAIGN + 1, 10, lines(&[("elsewhere", 1)])).unwrap();
    (store, ids)
}

#[test]
fn accept_all_moves_only_pending_finance() {
    let (mut store, ids) = campaign_in_distribution();
    assert_eq!(
        store.accept_all(&head(20, 3), CAMPAIGN),
        Err(WorkflowError::PermissionDenied)
    );
    assert_eq!(status_of(&store, ids[0]), WorkHourRecordStatus::PendingFinance);
    store.accept_all(&finance(), CAMPAIGN).unwrap();
    for id in ids.iter() {
        assert_eq!(status_of(&store, *id), WorkHourRecordStatus::PendingDistribution);
    }
    assert_eq!(status_of(&store, 4), WorkHourRecordStatus::PendingApproval);
}

#[test]
fn close_all_twice_is_a_no_op() {
    let (mut store, ids) = campaign_in_distribution();
    let f = finance();
    store.accept_all(&f, CAMPAIGN).unwrap();
    store.close_all(&f, CAMPAIGN).unwrap();
    let first: Vec<WorkHourRecordStatus> = (0..store.len()).map(|i| store.get(i).status).collect();
    for id in ids.iter() {
        assert_eq!(status_of(&store, *id), WorkHourRecordStatus::Closed);
    }
    store.close_all(&f, CAMPAIGN).unwrap();
    let second: Vec<WorkHourRecordStatus> = (0..store.len()).map(|i| store.get(i).status).collect();
    assert_eq!(first, second);
    assert_eq!(store.len(), 4);
}

#[test]
fn saved_table_replaces_inclusions() {
    let (mut store, ids) = campaign_in_distribution();
    let f = finance();
    let items = vec![
        WorkHourTableItem { id: ids[0], includes: vec![WorkInclude { id: ids[1], hour: 3 }] },
        WorkHourTableItem { id: ids[2], includes: vec![WorkInclude { id: ids[1], hour: 1 }] },
        WorkHourTableItem { id: ids[0], includes: vec![WorkInclude { id: ids[2], hour: 5 }] },
    ];
    store.save_work_hour_table(&f, &items).unwrap();
    assert_eq!(
        record_by_id(&store, ids[0]).includes,
        Some(vec![WorkInclude { id: ids[2], hour: 5 }])
    );
    assert_eq!(record_by_id(&store, ids[1]).includes, None);
    assert_eq!(
        record_by_id(&store, ids[2]).includes,
        Some(vec![WorkInclude { id: ids[1], hour: 1 }])
    );
    assert_eq!(status_of(&store, ids[0]), WorkHourRecordStatus::PendingFinance);

    let missing = vec![
        WorkHourTableItem { id: ids[1], includes: Vec::new() },
        WorkHourTableItem { id: 99, includes: Vec::new() },
    ];
    assert_eq!(store.save_work_hour_table(&f, &missing), Err(WorkflowError::NotFound));
    assert_eq!(record_by_id(&store, ids[1]).includes, None);
    assert_eq!(
        store.save_work_hour_table(&head(20, 3), &items),
        Err(WorkflowError::PermissionDenied)
    );
}

#[test]
fn statistics_group_by_department() {
    let (store, _) = campaign_in_distribution();
    let members = vec![
        Membership { user_id: 10, department_id: 3 },
        Membership { user_id: 11, department_id: 3 },
        Membership { user_id: 12, department_id: 4 },
    ];
    let departments = vec![department(4, "events"), department(3, "tutors"), department(9, "idle")];
    let stats = store.statistics(CAMPAIGN, &members, &departments).unwrap();
    assert_eq!(stats.len(), 2);
    assert_eq!(stats[0].department.id, 4);
    assert_eq!(stats[0].stats.count, 1);
    assert_eq!(stats[0].stats.total_hours, 12);
    assert_eq!(stats[1].department.id, 3);
    assert_eq!(stats[1].stats.count, 2);
    assert_eq!(stats[1].stats.total_hours, 21);
    assert!(store.campaign_hours_fit(CAMPAIGN));

    let partial = vec![Membership { user_id: 10, department_id: 3 }];
    assert!(matches!(
        store.statistics(CAMPAIGN, &partial, &departments),
        Err(WorkflowError::NotFound)
    ));
    let no_departments: Vec<Department> = Vec::new();
    assert!(matches!(
        store.statistics(CAMPAIGN, &members, &no_departments),
        Err(WorkflowError::NotFound)
    ));
}

#[test]
fn statistics_count_own_lines_only() {
    let mut store = WorkHourStore::new();
    let a = store.submit(CAMPAIGN, 10, lines(&[("a", 7), ("b", 8)])).unwrap();
    let b = store.submit(CAMPAIGN, 11, lines(&[("c", 1)])).unwrap();
    store
        .save_inclusions(&finance(), b, vec![WorkInclude { id: a, hour: 15 }])
        .unwrap();
    let members = vec![
        Membership { user_id: 10, department_id: 3 },
        Membership { user_id: 11, department_id: 3 },
    ];
    let stats = store
        .statistics(CAMPAIGN, &members, &vec![department(3, "tutors")])
        .unwrap();
    assert_eq!(stats.len(), 1);
    assert_eq!(stats[0].stats.count, 2);
    assert_eq!(stats[0].stats.total_hours, 16);
    let empty = store
        .statistics(CAMPAIGN + 5, &members, &vec![department(3, "tutors")])
        .unwrap();
    assert_eq!(empty.len(), 0);
}

#[test]
fn inclusions_must_credit_another_record_of_the_campaign() {
    let (mut store, ids) = campaign_in_distribution();
    let f = finance();
    let elsewhere = 4;
    assert_eq!(
        store.save_inclusions(&f, ids[0], vec![WorkInclude { id: ids[0], hour: 1 }]),
        Err(WorkflowError::IllegalTransition)
    );
    assert_eq!(
        store.save_inclusions(&f, ids[0], vec![WorkInclude { id: elsewhere, hour: 1 }]),
        Err(WorkflowError::IllegalTransition)
    );
    assert_eq!(
        store.save_inclusions(&f, ids[0], vec![WorkInclude { id: 99, hour: 1 }]),
        Err(WorkflowError::NotFound)
    );
    assert_eq!(record_by_id(&store, ids[0]).includes, None);

    let bad_credit = vec![
        WorkHourTableItem { id: ids[0], includes: vec![WorkInclude { id: ids[1], hour: 3 }] },
        WorkHourTableItem { id: ids[1], includes: vec![WorkInclude { id: ids[1], hour: 3 }] },
    ];
    assert_eq!(store.save_work_hour_table(&f, &bad_credit), Err(WorkflowError::IllegalTransition));
    assert_eq!(record_by_id(&store, ids[0]).includes, None);

    let missing_credit = vec![
        WorkHourTableItem { id: ids[1], includes: vec![WorkInclude { id: ids[1], hour: 3 }] },
        WorkHourTableItem { id: ids[0], includes: vec![WorkInclude { id: 99, hour: 3 }] },
    ];
    assert_eq!(store.save_work_hour_table(&f, &missing_credit), Err(WorkflowError::NotFound));
}

#[test]
fn saving_the_same_table_twice_changes_nothing_more() {
    let (mut store, ids) = campaign_in_distribution();
    let f = finance();
    let items = vec![
        WorkHourTableItem { id: ids[0], includes: vec![WorkInclude { id: ids[1], hour: 3 }] },
        WorkHourTableItem { id: ids[2], includes: vec![WorkInclude { id: ids[0], hour: 2 }] },
    ];
    store.save_work_hour_table(&f, &items).unwrap();
    let first: Vec<Option<Vec<WorkInclude>>> = (0..store.len()).map(|i| store.get(i).includes.clone()).collect();
    store.save_work_hour_table(&f, &items).unwrap();
    let second: Vec<Option<Vec<WorkInclude>>> = (0..store.len()).map(|i| store.get(i).includes.clone()).collect();
    assert_eq!(first, second);
    assert_eq!(first[0], Some(vec![WorkInclude { id: ids[1], hour: 3 }]));
    assert_eq!(first[1], None);
}
