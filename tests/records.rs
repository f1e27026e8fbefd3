use qnxg_backend::org::Membership;
use qnxg_backend::permission::{Permission, PermissionItem};
use qnxg_backend::store::{IncludedRecord, WorkHourStore};
use qnxg_backend::time::DateTime;
use qnxg_backend::work_hour::{WorkDesc, WorkHour, WorkHourRecordStatus, WorkHourStatus, WorkInclude};
use qnxg_backend::workflow::{Actor, WorkflowError};

fn actor(user_id: u32, department_id: u32, paths: &[&str]) -> Actor {
    let items = paths
        .iter()
        .enumerate()
        .map(|(i, p)| PermissionItem {
            id: i as u32 + 1,
            name: format!("item {}", i),
            permission: p.to_string(),
        })
        .collect();
    Actor {
        user_id,
        department_id,
        permission: Permission::new(items),
    }
}

fn one_line(hour: u32) -> Vec<WorkDesc> {
    vec![WorkDesc { desc: "work".to_string(), hour }]
}

fn sample() -> WorkHourStore {
    let mut store = WorkHourStore::new();
    let head = actor(20, 3, &["yq:workHours:checkDepartment"]);
    let a = store.submit(1, 10, one_line(1)).unwrap();
    store.submit(1, 11, one_line(2)).unwrap();
    store.submit(2, 10, one_line(3)).unwrap();
    store.submit(1, 12, one_line(4)).unwrap();
    store
        .transition(a, WorkHourRecordStatus::PendingFinance, &head, 3, None)
        .unwrap();
    store
        .transition(2, WorkHourRecordStatus::Unsubmitted, &head, 3, Some("redo".to_string()))
        .unwrap();
    store
}

#[test]
fn listings_filter_by_campaign_stage_and_department() {
    let store = sample();
    assert_eq!(store.list_by_campaign(1), vec![0, 1, 3]);
    assert_eq!(store.list_by_campaign(2), vec![2]);
    assert_eq!(store.list_by_campaign(9), Vec::<usize>::new());
    assert_eq!(store.list_for_finance(1), vec![0]);
    let members = vec![
        Membership { user_id: 10, department_id: 3 },
        Membership { user_id: 11, department_id: 3 },
        Membership { user_id: 12, department_id: 4 },
    ];
    assert_eq!(store.list_for_department(1, &members, 3), vec![0]);
    assert_eq!(store.list_for_department(1, &members, 4), vec![3]);
}

#[test]
fn inclusions_resolve_to_owners() {
    let store = sample();
    let resolved = store
        .resolve_includes(&vec![WorkInclude { id: 2, hour: 5 }, WorkInclude { id: 4, hour: 1 }])
        .unwrap();
    assert_eq!(
        resolved,
        vec![
            IncludedRecord { id: 2, hour: 5, user_id: 11 },
            IncludedRecord { id: 4, hour: 1, user_id: 12 },
        ]
    );
    assert_eq!(
        store.resolve_includes(&vec![WorkInclude { id: 2, hour: 5 }, WorkInclude { id: 77, hour: 1 }]),
        Err(WorkflowError::NotFound)
    );
    assert_eq!(store.resolve_includes(&vec![]), Ok(vec![]));
}

#[test]
fn error_status_codes() {
    assert_eq!(WorkflowError::PermissionDenied.status_code(), 403);
    assert_eq!(WorkflowError::NotFound.status_code(), 404);
    assert_eq!(WorkflowError::IllegalTransition.status_code(), 400);
    assert_eq!(WorkflowError::InfrastructureError.status_code(), 500);
}

#[test]
fn campaign_from_form_values() {
    let w = WorkHour::from_form(7, "spring".to_string(), "2024-06-30T18:05", 1, None).unwrap();
    assert_eq!(
        w.end_time,
        DateTime { year: 2024, month: 6, day: 30, hour: 18, minute: 5, second: 0 }
    );
    assert_eq!(w.status, WorkHourStatus::Ongoing);
    assert_eq!(w.name, "spring");
    assert_eq!(w.id, 7);
    let closed = WorkHour::from_form(8, "x".to_string(), "2024-01-02T03:04", 3, Some("c".to_string())).unwrap();
    assert_eq!(closed.status, WorkHourStatus::Closed);
    assert_eq!(closed.comment.as_deref(), Some("c"));
    assert!(WorkHour::from_form(9, "x".to_string(), "2024-06-30 18:05", 1, None).is_none());
    assert!(WorkHour::from_form(9, "x".to_string(), "2024-13-01T00:00", 1, None).is_none());
}

fn loaded(id: u32, work_hour_id: u32, user_id: u32, hour: u32) -> qnxg_backend::work_hour::WorkHourRecord {
    qnxg_backend::work_hour::WorkHourRecord {
        id,
        work_hour_id,
        user_id,
        work_descs: one_line(hour),
        includes: None,
        comment: None,
        status: WorkHourRecordStatus::Unsubmitted,
    }
}

#[test]
fn loading_records_checks_keys() {
    let mut store = WorkHourStore::from_records(vec![loaded(40, 1, 10, 1), loaded(7, 1, 11, 1)]).unwrap();
    assert_eq!(store.len(), 2);
    assert_eq!(store.find_by_id(7), Some(1));
    let fresh = store.submit(1, 12, one_line(2)).unwrap();
    assert_eq!(fresh, 41);
    let again = store.submit(1, 10, one_line(3)).unwrap();
    assert_eq!(again, 40);

    assert!(matches!(
        WorkHourStore::from_records(vec![loaded(5, 1, 10, 1), loaded(5, 2, 11, 1)]),
        Err(WorkflowError::IllegalTransition)
    ));
    assert!(matches!(
        WorkHourStore::from_records(vec![loaded(5, 1, 10, 1), loaded(6, 1, 10, 1)]),
        Err(WorkflowError::IllegalTransition)
    ));
    assert!(matches!(
        WorkHourStore::from_records(vec![loaded(u32::MAX, 1, 10, 1)]),
        Err(WorkflowError::InfrastructureError)
    ));
    assert_eq!(WorkHourStore::from_records(Vec::new()).unwrap().len(), 0);
}

#[test]
fn hour_totals_that_overflow_are_detected() {
    let store = WorkHourStore::from_records(vec![
        loaded(1, 1, 10, u32::MAX),
        loaded(2, 1, 11, 1),
        loaded(3, 2, 12, u32::MAX),
    ])
    .unwrap();
    assert!(!store.campaign_hours_fit(1));
    assert!(store.campaign_hours_fit(2));
    assert!(store.campaign_hours_fit(3));
}
