use web_component::{PendingLoad, Resource, ResourceState};

fn tag(s: &ResourceState<i32>) -> usize {
    [s.is_unloaded(), s.is_loading(), s.is_unavailable(), s.is_loaded()]
        .iter()
        .filter(|b| **b)
        .count()
}

#[test]
fn default_cell_is_unloaded() {
    let cell: Resource<i32> = Resource::default();
    assert!(cell.is_unloaded());
    assert_eq!(cell.get(), None);
    assert_eq!(cell.as_loaded(), None);
}

#[test]
fn new_cell_is_loading_and_silent() {
    let (cell, job): (Resource<i32>, PendingLoad) = Resource::new();
    assert!(cell.get_state().is_loading());
    assert!(!job.notifies_owner());
}

#[test]
fn completion_with_value_loads_it() {
    let mut cell: Resource<i32> = Resource::default();
    let job = cell.load();
    assert!(cell.get_state().is_loading());
    let notify = cell.complete(job, Some(7));
    assert!(!notify);
    assert_eq!(cell.get(), Some(7));
    assert_eq!(cell.as_loaded(), Some(7));
    assert_eq!(cell.get_state().as_loaded(), Some(&7));
}

#[test]
fn completion_without_value_is_unavailable() {
    let mut cell: Resource<i32> = Resource::default();
    let job = cell.load();
    cell.complete(job, None);
    assert!(cell.get_state().is_unavailable());
    assert!(!cell.is_unloaded());
    assert_eq!(cell.get(), None);
}

#[test]
fn end_to_end_value_and_one_notification() {
    let mut cell: Resource<i32> = Resource::default();
    let (snapshot, job) = cell.acquire_resource();
    assert!(snapshot.is_loading());
    assert!(cell.get_state().is_loading());
    let job = job.expect("an unloaded cell starts a job");
    let mut notifications = 0;
    if cell.complete(job, Some(42)) {
        notifications += 1;
    }
    assert_eq!(cell.get(), Some(42));
    assert!(matches!(cell.get_state(), ResourceState::Loaded(42)));
    assert_eq!(notifications, 1);
}

#[test]
fn acquire_twice_starts_one_load() {
    let mut cell: Resource<i32> = Resource::default();
    let (first, job1) = cell.acquire_resource();
    let (second, job2) = cell.acquire_resource();
    assert!(job1.is_some());
    assert!(job1.unwrap().notifies_owner());
    assert!(job2.is_none());
    assert!(first.is_loading());
    assert!(second.is_loading());
}

#[test]
fn acquire_on_loaded_cell_returns_value_and_starts_nothing() {
    let mut cell: Resource<i32> = Resource::default();
    let job = cell.load();
    cell.complete(job, Some(5));
    let (snapshot, job) = cell.acquire_resource();
    assert!(job.is_none());
    assert_eq!(snapshot.as_loaded(), Some(&5));
}

#[test]
fn acquire_on_unavailable_cell_does_not_retry() {
    let mut cell: Resource<i32> = Resource::default();
    let job = cell.load();
    cell.complete(job, None);
    let (snapshot, job) = cell.acquire_resource();
    assert!(job.is_none());
    assert!(snapshot.is_unavailable());
}

#[test]
fn update_resource_always_starts_a_notifying_job() {
    let mut cell: Resource<i32> = Resource::default();
    let job = cell.load();
    cell.complete(job, Some(1));
    let job = cell.update_resource();
    assert!(job.notifies_owner());
    assert!(cell.get_state().is_loading());
    assert_eq!(cell.get(), None);
    assert!(cell.complete(job, Some(2)));
    assert_eq!(cell.get(), Some(2));
}

#[test]
fn load_and_notify_asks_for_notification() {
    let mut cell: Resource<i32> = Resource::default();
    let job = cell.load_and_notify();
    assert!(job.notifies_owner());
    assert!(cell.complete(job, None));
}

#[test]
fn last_completion_wins_over_last_start() {
    let mut cell: Resource<i32> = Resource::default();
    let job_a = cell.load();
    let job_b = cell.load();
    cell.complete(job_b, Some(2));
    assert_eq!(cell.get(), Some(2));
    cell.complete(job_a, Some(1));
    assert_eq!(cell.get(), Some(1));
}

#[test]
fn late_empty_completion_overwrites_value() {
    let mut cell: Resource<i32> = Resource::default();
    let job_a = cell.load();
    let job_b = cell.load();
    cell.complete(job_b, Some(2));
    cell.complete(job_a, None);
    assert!(cell.get_state().is_unavailable());
}

#[test]
fn clear_does_not_cancel_the_job_in_flight() {
    let mut cell: Resource<i32> = Resource::default();
    let job = cell.load();
    cell.clear();
    assert!(cell.is_unloaded());
    cell.complete(job, Some(9));
    assert_eq!(cell.get(), Some(9));
}

#[test]
fn clear_then_late_empty_completion() {
    let (mut cell, job): (Resource<i32>, PendingLoad) = Resource::new();
    cell.clear();
    assert!(cell.is_unloaded());
    cell.complete(job, None);
    assert!(cell.get_state().is_unavailable());
}

#[test]
fn every_state_has_exactly_one_tag() {
    let mut cell: Resource<i32> = Resource::default();
    assert_eq!(tag(cell.get_state()), 1);
    let a = cell.load();
    assert_eq!(tag(cell.get_state()), 1);
    let b = cell.load();
    cell.clear();
    assert_eq!(tag(cell.get_state()), 1);
    cell.complete(b, None);
    assert_eq!(tag(cell.get_state()), 1);
    cell.complete(a, Some(3));
    assert_eq!(tag(cell.get_state()), 1);
    assert_eq!(cell.get(), Some(3));
}

#[test]
fn state_snapshot_clones_value() {
    let s: ResourceState<String> = ResourceState::Loaded(String::from("x"));
    let t = s.clone();
    assert_eq!(t.as_loaded(), Some(&String::from("x")));
    let d: ResourceState<i32> = ResourceState::default();
    assert!(d.is_unloaded());
}
