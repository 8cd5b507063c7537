use vmworker::channel::OutputScript;
use vmworker::channel::TimedLine;
use vmworker::channel::VmError;
use vmworker::job::Job;
use vmworker::runner::compose_command;
use vmworker::runner::finalize;
use vmworker::runner::finalize_now;
use vmworker::runner::run_cycle;
use vmworker::runner::SessionOutcome;
use vmworker::status::Status;
use vmworker::store::JobStore;
use vmworker::store::StoredJob;

fn line(at: u64, text: &str) -> TimedLine {
    TimedLine { at, text: String::from(text) }
}

fn claimed_job() -> Job {
    Job {
        id: 1,
        status: Status::RUNNING,
        started_at: Some(100),
        completed_at: None,
        memsnapshot: None,
        tests_image: None,
        base_image: String::from("debian.img"),
        prompt: String::from("root@host:~#"),
        command: String::from("ls /"),
        command_timeout: 30,
        output: String::new(),
        git_url: String::from("https://example.invalid/repo.git"),
    }
}

#[test]
fn composed_command_appends_the_repository_url() {
    let c = compose_command("ls /", "https://example.invalid/repo.git");
    assert_eq!(c, "ls / https://example.invalid/repo.git");
}

#[test]
fn a_successful_session_completes_the_job() {
    let j = finalize(
        claimed_job(),
        SessionOutcome::Completed(String::from("ls /\nbin\nroot@host:~#\n")),
        105,
    );
    assert_eq!(j.status, Status::COMPLETE);
    assert_eq!(j.started_at, Some(100));
    assert_eq!(j.completed_at, Some(105));
    assert!(j.completed_at.unwrap() >= j.started_at.unwrap());
    assert_eq!(j.output, "ls /\nbin\nroot@host:~#\n");
    assert_eq!(j.elapsed_secs(), Some(5));
}

#[test]
fn a_failed_session_marks_the_job_error_with_completion_stamped() {
    let j = finalize(
        claimed_job(),
        SessionOutcome::Failed(VmError::CommandTimeout, String::new()),
        105,
    );
    assert_eq!(j.status, Status::ERROR);
    assert_eq!(j.started_at, Some(100));
    assert_eq!(j.completed_at, Some(105));
    assert_eq!(j.output, "");
}

#[test]
fn finalizing_at_the_wall_clock_stamps_completion() {
    let j = finalize_now(claimed_job(), SessionOutcome::Failed(VmError::BootTimeout, String::new()));
    assert_eq!(j.status, Status::ERROR);
    assert!(j.completed_at.is_some());
}

#[test]
fn elapsed_needs_both_stamps() {
    let mut j = claimed_job();
    assert_eq!(j.elapsed_secs(), None);
    j.completed_at = Some(112);
    assert_eq!(j.elapsed_secs(), Some(12));
    assert!(j.timestamps_set());
}

fn one_job_store() -> JobStore {
    JobStore {
        rows: vec![StoredJob {
            id: 1,
            status: Status::QUEUED,
            created_at: 10,
            started_at: None,
            completed_at: None,
            output: String::new(),
            memsnapshot: None,
            tests_image: None,
            base_image: String::from("debian.img"),
            prompt: String::from("root@host:~#"),
            command: String::from("ls /"),
            command_timeout: 30,
            git_url: String::from("https://example.invalid/repo.git"),
        }],
    }
}

#[test]
fn full_cycle_persists_a_complete_job_with_its_transcript() {
    let mut store = one_job_store();
    let boot = OutputScript {
        lines: vec![line(2, "boot chatter"), line(7, "root@host:~#")],
        closes: false,
    };
    let cmd = OutputScript {
        lines: vec![
            line(0, "ls /"),
            line(3, "bin  boot  etc  home  root  usr  var"),
            line(3, "root@host:~#"),
        ],
        closes: false,
    };
    let job = run_cycle(&mut store, &boot, &cmd, 100, 105).unwrap().unwrap();
    assert_eq!(job.status, Status::COMPLETE);
    assert!(job.output.contains("ls /"));
    assert!(job.output.contains("bin  boot  etc  home  root  usr  var"));
    assert_eq!(job.started_at, Some(100));
    assert_eq!(job.completed_at, Some(105));
    assert_eq!(job.completed_at.unwrap() - job.started_at.unwrap(), 5);
    // the stored row carries the same final state
    let row = &store.rows[0];
    assert_eq!(row.status, Status::COMPLETE);
    assert_eq!(row.started_at, Some(100));
    assert_eq!(row.completed_at, Some(105));
    assert_eq!(row.output, "ls /\nbin  boot  etc  home  root  usr  var\nroot@host:~#\n");
}

#[test]
fn full_cycle_persists_an_error_job_when_boot_fails() {
    let mut store = one_job_store();
    let boot = OutputScript { lines: vec![line(1, "no prompt")], closes: true };
    let cmd = OutputScript { lines: vec![], closes: false };
    let job = run_cycle(&mut store, &boot, &cmd, 100, 103).unwrap().unwrap();
    assert_eq!(job.status, Status::ERROR);
    assert_eq!(job.completed_at, Some(103));
    let row = &store.rows[0];
    assert_eq!(row.status, Status::ERROR);
    assert!(!row.status.to_str().is_empty());
    assert_eq!(row.completed_at, Some(103));
}

#[test]
fn full_cycle_with_nothing_queued_is_a_no_op() {
    let mut store = JobStore { rows: Vec::new() };
    let boot = OutputScript { lines: vec![], closes: false };
    let cmd = OutputScript { lines: vec![], closes: false };
    let r = run_cycle(&mut store, &boot, &cmd, 100, 100).unwrap();
    assert!(r.is_none());
    assert!(store.rows.is_empty());
}
