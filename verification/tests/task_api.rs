use sqlx_crud::task_api::{
    outcome_status, task_status, update_task_plan, Fetched, Task, UpdatePlan,
};

#[test]
fn outcome_statuses() {
    assert_eq!(outcome_status(true), 200);
    assert_eq!(outcome_status(false), 500);
}

#[test]
fn task_statuses() {
    assert_eq!(task_status(Fetched::Found), 200);
    assert_eq!(task_status(Fetched::Missing), 404);
    assert_eq!(task_status(Fetched::Failed), 500);
}

#[test]
fn update_takes_id_from_path() {
    let t = Task { id: 99, task: "write".to_string() };
    match update_task_plan(3, Fetched::Found, t) {
        UpdatePlan::Update(t) => {
            assert_eq!(t.id, 3);
            assert_eq!(t.task, "write");
        }
        UpdatePlan::Reject(_) => panic!("rejected"),
    }
}

#[test]
fn update_of_missing_or_failed_is_refused() {
    for f in [Fetched::Missing, Fetched::Failed] {
        let t = Task { id: 1, task: "x".to_string() };
        match update_task_plan(1, f, t) {
            UpdatePlan::Reject(s) => assert_eq!(s, 406),
            UpdatePlan::Update(_) => panic!("updated"),
        }
    }
}
