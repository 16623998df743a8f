use runekernel::job::Job;
use runekernel::job::JobState;
use runekernel::storage::InMemoryStorage;
use runekernel::storage::Storage;
use runekernel::time::Timestamp;
use runekernel::Error;
use runekernel::Runtime;

fn text(s: &str) -> serde_json::Value {
    serde_json::Value::String(s.to_string())
}

#[test]
fn test_runtime_creation() {
    let runtime = Runtime::new();
    assert!(runtime.is_ok());
}

#[test]
fn test_job_submission_and_execution() {
    let mut runtime = Runtime::new().unwrap();

    // Submit a job
    let mut job = Job::new();
    job.set_data("name".to_string(), text("integration-test"));

    let job_id = runtime.submit_job(job).unwrap();

    // Verify job exists
    let loaded_job = runtime.get_job(&job_id).unwrap();
    assert_eq!(*loaded_job.id(), job_id);
    assert_eq!(loaded_job.state(), JobState::Pending);

    // Run the job
    runtime.run_job(&job_id).unwrap();

    // Verify state change
    let updated_job = runtime.get_job(&job_id).unwrap();
    assert_eq!(updated_job.state(), JobState::Running);
}

#[test]
fn submit_then_get_round_trip() {
    let mut runtime = Runtime::new().unwrap();
    let mut job = Job::with_id_at("job-1".to_string(), Timestamp::new(100, 5));
    job.set_data_at("name".to_string(), text("x"), Timestamp::new(101, 0));
    job.set_data_at("size".to_string(), serde_json::Value::from(3u64), Timestamp::new(102, 0));
    let id = runtime.submit_job(job).unwrap();
    assert_eq!(id, "job-1");
    let found = runtime.get_job(&id).unwrap();
    assert_eq!(found.id(), "job-1");
    assert_eq!(found.state(), JobState::Pending);
    assert_eq!(found.data().len(), 2);
    assert_eq!(found.data().get("name"), Some(&text("x")));
    assert_eq!(found.data().get("size"), Some(&serde_json::Value::from(3u64)));
    assert_eq!(found.created_at(), Timestamp::new(100, 5));
    assert_eq!(found.updated_at(), Timestamp::new(102, 0));
}

#[test]
fn submit_keeps_whatever_state_the_job_carries() {
    let mut runtime = Runtime::new().unwrap();
    let mut job = Job::with_id_at("done".to_string(), Timestamp::new(1, 0));
    job.set_state_at(JobState::Completed, Timestamp::new(2, 0));
    let id = runtime.submit_job(job).unwrap();
    assert_eq!(runtime.get_job(&id).unwrap().state(), JobState::Completed);
}

#[test]
fn submit_replaces_a_record_with_the_same_id() {
    let mut runtime = Runtime::new().unwrap();
    let first = Job::with_id_at("same".to_string(), Timestamp::new(1, 0));
    let mut second = Job::with_id_at("same".to_string(), Timestamp::new(7, 0));
    second.set_state_at(JobState::Failed, Timestamp::new(8, 0));
    runtime.submit_job(first).unwrap();
    runtime.submit_job(second).unwrap();
    let found = runtime.get_job(&"same".to_string()).unwrap();
    assert_eq!(found.state(), JobState::Failed);
    assert_eq!(found.created_at(), Timestamp::new(7, 0));
}

#[test]
fn run_job_moves_pending_to_running_and_keeps_the_id() {
    let mut runtime = Runtime::new().unwrap();
    let job = Job::with_id_at("a".to_string(), Timestamp::new(10, 0));
    let other = Job::with_id_at("b".to_string(), Timestamp::new(11, 0));
    runtime.submit_job(job).unwrap();
    runtime.submit_job(other).unwrap();
    assert_eq!(runtime.run_job_at(&"a".to_string(), Timestamp::new(20, 1)), Ok(()));
    let found = runtime.get_job(&"a".to_string()).unwrap();
    assert_eq!(found.id(), "a");
    assert_eq!(found.state(), JobState::Running);
    assert_eq!(found.created_at(), Timestamp::new(10, 0));
    assert_eq!(found.updated_at(), Timestamp::new(20, 1));
    let untouched = runtime.get_job(&"b".to_string()).unwrap();
    assert_eq!(untouched.state(), JobState::Pending);
    assert_eq!(untouched.updated_at(), Timestamp::new(11, 0));
}

fn run_is_rejected_in(state: JobState) {
    let mut runtime = Runtime::new().unwrap();
    let mut job = Job::with_id_at("j".to_string(), Timestamp::new(1, 0));
    job.set_state_at(state, Timestamp::new(2, 0));
    let id = runtime.submit_job(job).unwrap();
    let outcome = runtime.run_job(&id);
    assert_eq!(outcome, Err(Error::InvalidTransition("Job must be pending to run".to_string())));
    let found = runtime.get_job(&id).unwrap();
    assert_eq!(found.state(), state);
    assert_eq!(found.updated_at(), Timestamp::new(2, 0));
}

#[test]
fn run_job_rejects_a_running_job() {
    run_is_rejected_in(JobState::Running);
}

#[test]
fn run_job_rejects_a_completed_job() {
    run_is_rejected_in(JobState::Completed);
}

#[test]
fn run_job_rejects_a_failed_job() {
    run_is_rejected_in(JobState::Failed);
}

#[test]
fn run_job_rejects_a_cancelled_job() {
    run_is_rejected_in(JobState::Cancelled);
}

#[test]
fn run_job_twice_fails_the_second_time() {
    let mut runtime = Runtime::new().unwrap();
    let id = runtime.submit_job(Job::new()).unwrap();
    assert_eq!(runtime.run_job(&id), Ok(()));
    assert!(matches!(runtime.run_job(&id), Err(Error::InvalidTransition(_))));
    assert_eq!(runtime.get_job(&id).unwrap().state(), JobState::Running);
}

#[test]
fn get_job_of_an_unknown_id_is_not_found() {
    let mut runtime = Runtime::new().unwrap();
    let missing = "never-submitted".to_string();
    assert_eq!(runtime.get_job(&missing).err(), Some(Error::JobNotFound(missing.clone())));
    runtime.submit_job(Job::with_id("another".to_string())).unwrap();
    assert_eq!(runtime.get_job(&missing).err(), Some(Error::JobNotFound(missing.clone())));
}

#[test]
fn run_and_update_of_an_unknown_id_are_not_found() {
    let mut runtime = Runtime::new().unwrap();
    let missing = "nobody".to_string();
    assert_eq!(runtime.run_job(&missing), Err(Error::JobNotFound(missing.clone())));
    assert_eq!(
        runtime.update_job_state(&missing, JobState::Failed),
        Err(Error::JobNotFound(missing.clone()))
    );
    assert!(runtime.get_job(&missing).is_err());
}

#[test]
fn update_job_state_overwrites_without_asking() {
    let mut runtime = Runtime::new().unwrap();
    let id = runtime.submit_job(Job::with_id_at("u".to_string(), Timestamp::new(5, 0))).unwrap();
    // Pending to Completed is no entry of any table, and is carried out all the same.
    assert_eq!(runtime.update_job_state_at(&id, JobState::Completed, Timestamp::new(6, 0)), Ok(()));
    let found = runtime.get_job(&id).unwrap();
    assert_eq!(found.state(), JobState::Completed);
    assert_eq!(found.updated_at(), Timestamp::new(6, 0));
    assert_eq!(runtime.update_job_state(&id, JobState::Pending), Ok(()));
    assert_eq!(runtime.get_job(&id).unwrap().state(), JobState::Pending);
}

#[test]
fn payload_survives_a_run_and_the_update_time_moves_on() {
    let mut runtime = Runtime::new().unwrap();
    let mut job = Job::with_id_at("p".to_string(), Timestamp::new(1_000, 0));
    job.set_data_at("name".to_string(), text("x"), Timestamp::new(1_000, 10));
    let id = runtime.submit_job(job).unwrap();
    let submitted = runtime.get_job(&id).unwrap();
    assert_eq!(submitted.state(), JobState::Pending);
    let recorded = submitted.updated_at();

    runtime.run_job_at(&id, Timestamp::new(1_000, 11)).unwrap();
    let found = runtime.get_job(&id).unwrap();
    assert_eq!(found.state(), JobState::Running);
    assert_eq!(found.data().len(), 1);
    assert_eq!(found.data().get("name"), Some(&text("x")));
    assert!(found.updated_at() > recorded);
    assert!(recorded.is_before(&found.updated_at()));
}

#[test]
fn runtime_over_a_storage_that_holds_records() {
    let mut storage = InMemoryStorage::new();
    storage.save_job(Job::with_id_at("kept".to_string(), Timestamp::new(3, 0))).unwrap();
    let mut runtime = Runtime::with_storage(storage);
    assert_eq!(runtime.get_job(&"kept".to_string()).unwrap().state(), JobState::Pending);
    assert_eq!(runtime.run_job(&"kept".to_string()), Ok(()));
}

#[test]
fn storage_saves_loads_and_lists() {
    let mut storage = InMemoryStorage::new();
    assert_eq!(storage.list_jobs().unwrap().len(), 0);
    assert_eq!(storage.load_job("a").err(), Some(Error::JobNotFound("a".to_string())));

    storage.save_job(Job::with_id_at("a".to_string(), Timestamp::new(1, 0))).unwrap();
    storage.save_job(Job::with_id_at("b".to_string(), Timestamp::new(2, 0))).unwrap();
    let mut again = Job::with_id_at("a".to_string(), Timestamp::new(3, 0));
    again.set_state_at(JobState::Cancelled, Timestamp::new(4, 0));
    storage.save_job(again).unwrap();

    let a = storage.load_job("a").unwrap();
    assert_eq!(a.id(), "a");
    assert_eq!(a.state(), JobState::Cancelled);
    assert_eq!(a.created_at(), Timestamp::new(3, 0));
    assert_eq!(storage.load_job("b").unwrap().created_at(), Timestamp::new(2, 0));
    assert_eq!(storage.load_job("c").err(), Some(Error::JobNotFound("c".to_string())));

    let list = storage.list_jobs().unwrap();
    assert_eq!(list.len(), 2);
    let mut ids: Vec<String> = list.iter().map(|job| job.id().clone()).collect();
    ids.sort();
    assert_eq!(ids, vec!["a".to_string(), "b".to_string()]);
}

#[test]
fn a_loaded_job_is_a_copy() {
    let mut storage = InMemoryStorage::new();
    storage.save_job(Job::with_id_at("a".to_string(), Timestamp::new(1, 0))).unwrap();
    let mut copy = storage.load_job("a").unwrap();
    copy.set_state_at(JobState::Failed, Timestamp::new(2, 0));
    assert_eq!(storage.load_job("a").unwrap().state(), JobState::Pending);
}
