use vmworker::job::Job;
use vmworker::status::Status;
use vmworker::store::job_from_row;
use vmworker::store::JobStore;
use vmworker::store::StoredJob;
use vmworker::store::StoreError;

fn queued_row(id: i32, created_at: i64) -> StoredJob {
    StoredJob {
        id,
        status: Status::QUEUED,
        created_at,
        started_at: None,
        completed_at: None,
        output: String::new(),
        memsnapshot: None,
        tests_image: None,
        base_image: String::from("debian.img"),
        prompt: String::from("root@host:~#"),
        command: String::from("ls /"),
        command_timeout: 30,
        git_url: String::from("https://example.invalid/repo.git"),
    }
}

#[test]
fn claim_on_empty_queue_is_no_job_not_error() {
    let mut store = JobStore { rows: Vec::new() };
    let r = store.claim(100);
    assert!(matches!(r, Ok(None)));
}

#[test]
fn claim_on_drained_queue_is_no_job_not_error() {
    let mut store = JobStore { rows: vec![queued_row(1, 10)] };
    assert!(matches!(store.claim(100), Ok(Some(_))));
    let r = store.claim(101);
    assert!(matches!(r, Ok(None)));
}

#[test]
fn claim_picks_the_oldest_queued_job() {
    let mut store = JobStore {
        rows: vec![queued_row(1, 50), queued_row(2, 10), queued_row(3, 30)],
    };
    let job = store.claim(100).unwrap().unwrap();
    assert_eq!(job.id, 2);
    assert_eq!(store.rows[1].status, Status::RUNNING);
    assert_eq!(store.rows[1].started_at, Some(100));
    assert_eq!(store.rows[0].status, Status::QUEUED);
    assert_eq!(store.rows[2].status, Status::QUEUED);
}

#[test]
fn claim_breaks_creation_ties_by_position() {
    let mut store = JobStore { rows: vec![queued_row(7, 20), queued_row(8, 20)] };
    let job = store.claim(100).unwrap().unwrap();
    assert_eq!(job.id, 7);
}

#[test]
fn n_queued_jobs_give_exactly_n_claims_each_job_once() {
    let mut store = JobStore {
        rows: vec![
            queued_row(1, 40),
            queued_row(2, 20),
            queued_row(3, 10),
            queued_row(4, 30),
        ],
    };
    let mut claimed: Vec<i32> = Vec::new();
    for t in 0i64..6i64 {
        match store.claim(100 + t).unwrap() {
            Some(job) => claimed.push(job.id),
            None => {}
        }
    }
    assert_eq!(claimed, vec![3, 2, 4, 1]);
    for row in &store.rows {
        assert_eq!(row.status, Status::RUNNING);
    }
}

#[test]
fn claim_stamps_the_returned_job() {
    let mut store = JobStore { rows: vec![queued_row(5, 10)] };
    let job = store.claim(777).unwrap().unwrap();
    assert_eq!(job.status, Status::RUNNING);
    assert_eq!(job.started_at, Some(777));
    assert_eq!(job.completed_at, None);
    assert_eq!(job.command, "ls /");
    assert_eq!(job.command_timeout, 30);
    assert_eq!(job.base_image, "debian.img");
    assert_eq!(job.prompt, "root@host:~#");
    assert_eq!(job.git_url, "https://example.invalid/repo.git");
}

#[test]
fn malformed_stored_timeout_is_a_query_error() {
    let mut row = queued_row(1, 10);
    row.command_timeout = -5;
    let mut store = JobStore { rows: vec![row] };
    let r = store.claim(100);
    assert!(matches!(r, Err(StoreError::Query)));
    // the atomic statement has already transitioned the row
    assert_eq!(store.rows[0].status, Status::RUNNING);
}

fn final_job(id: i32) -> Job {
    Job {
        id,
        status: Status::COMPLETE,
        started_at: Some(100),
        completed_at: Some(105),
        memsnapshot: None,
        tests_image: None,
        base_image: String::from("debian.img"),
        prompt: String::from("root@host:~#"),
        command: String::from("ls /"),
        command_timeout: 30,
        output: String::from("bin\netc\nroot@host:~#\n"),
        git_url: String::from("https://example.invalid/repo.git"),
    }
}

fn assert_rows_equal(a: &StoredJob, b: &StoredJob) {
    assert_eq!(a.id, b.id);
    assert_eq!(a.status, b.status);
    assert_eq!(a.created_at, b.created_at);
    assert_eq!(a.started_at, b.started_at);
    assert_eq!(a.completed_at, b.completed_at);
    assert_eq!(a.output, b.output);
    assert_eq!(a.memsnapshot, b.memsnapshot);
    assert_eq!(a.tests_image, b.tests_image);
    assert_eq!(a.base_image, b.base_image);
    assert_eq!(a.prompt, b.prompt);
    assert_eq!(a.command, b.command);
    assert_eq!(a.command_timeout, b.command_timeout);
    assert_eq!(a.git_url, b.git_url);
}

#[test]
fn persist_writes_only_worker_owned_columns() {
    let mut store = JobStore { rows: vec![queued_row(1, 10), queued_row(2, 20)] };
    let job = final_job(1);
    store.persist(&job);
    let row = &store.rows[0];
    assert_eq!(row.status, Status::COMPLETE);
    assert_eq!(row.started_at, Some(100));
    assert_eq!(row.completed_at, Some(105));
    assert_eq!(row.output, "bin\netc\nroot@host:~#\n");
    // static job-definition columns are untouched
    assert_eq!(row.created_at, 10);
    assert_eq!(row.command, "ls /");
    assert_eq!(row.base_image, "debian.img");
    // the other row is untouched
    assert_eq!(store.rows[1].status, Status::QUEUED);
    assert_eq!(store.rows[1].output, "");
}

#[test]
fn persist_is_idempotent() {
    let mut once = JobStore { rows: vec![queued_row(1, 10), queued_row(2, 20)] };
    let job = final_job(1);
    once.persist(&job);
    let mut twice = JobStore { rows: once.rows.clone() };
    twice.persist(&job);
    assert_eq!(once.rows.len(), twice.rows.len());
    for (a, b) in once.rows.iter().zip(twice.rows.iter()) {
        assert_rows_equal(a, b);
    }
}

#[test]
fn row_mapping_accepts_a_well_formed_row() {
    let job = job_from_row(
        9,
        "RUNNING",
        Some(100),
        None,
        None,
        Some(String::from("tests.iso")),
        String::from("debian.img"),
        String::from("root@host:~#"),
        String::from("ls /"),
        30,
        String::new(),
        String::from("https://example.invalid/repo.git"),
    )
    .unwrap();
    assert_eq!(job.id, 9);
    assert_eq!(job.status, Status::RUNNING);
    assert_eq!(job.started_at, Some(100));
    assert_eq!(job.command_timeout, 30);
    assert_eq!(job.tests_image, Some(String::from("tests.iso")));
}

#[test]
fn row_mapping_rejects_a_negative_timeout() {
    let r = job_from_row(
        9,
        "QUEUED",
        None,
        None,
        None,
        None,
        String::from("debian.img"),
        String::from("root@host:~#"),
        String::from("ls /"),
        -1,
        String::new(),
        String::new(),
    );
    assert!(matches!(r, Err(StoreError::Query)));
}
