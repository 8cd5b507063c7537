//! The job entity and the worker-owned state transitions.
//!
//! A job is created externally in `QUEUED`, stamped `RUNNING` with
//! `started_at` at claim time, and driven by the worker to exactly one
//! terminal state: `COMPLETE` on a successful VM session, `ERROR` on
//! any session failure, in both cases with `completed_at` stamped.

use vstd::prelude::*;

verus! {

use crate::status::Status;

/// One unit of work: a command to run inside a VM, the VM's boot
/// parameters, and the bookkeeping fields the worker stamps.
///
/// Timestamps are seconds since the epoch; `command_timeout` is in
/// whole seconds.
#[derive(Clone)]
pub struct Job {
    pub id: i32,
    pub status: Status,
    pub started_at: Option<i64>,
    pub completed_at: Option<i64>,
    pub memsnapshot: Option<String>,
    pub tests_image: Option<String>,
    pub base_image: String,
    pub prompt: String,
    pub command: String,
    pub command_timeout: u64,
    pub output: String,
    pub git_url: String,
}

/// The job after a successful VM session: `COMPLETE`, terminal
/// timestamp stamped, transcript recorded. All other fields keep their
/// claimed values.
pub open spec fn completed_job(job: Job, output: String, now: i64) -> Job {
    Job { status: Status::COMPLETE, completed_at: Some(now), output: output, ..job }
}

/// The job after a failed VM session: `ERROR`, terminal timestamp
/// stamped, whatever partial output was salvaged (possibly empty)
/// recorded. All other fields keep their claimed values.
pub open spec fn failed_job(job: Job, output: String, now: i64) -> Job {
    Job { status: Status::ERROR, completed_at: Some(now), output: output, ..job }
}

/// Duplicate an optional string, preserving its value.
pub fn clone_opt_string(o: &Option<String>) -> (r: Option<String>)
    ensures
        r == *o,
{
    match o {
        Some(s) => Some(s.clone()),
        None => None,
    }
}

/// A status a job can end a cycle in.
pub open spec fn is_terminal(s: Status) -> bool {
    s == Status::COMPLETE || s == Status::ERROR
}

impl Job {
    /// Transition to `COMPLETE` with the session transcript.
    pub fn complete(self, output: String, now: i64) -> (j: Job)
        ensures
            j == completed_job(self, output, now),
    {
        Job { status: Status::COMPLETE, completed_at: Some(now), output, ..self }
    }

    /// Transition to `ERROR` with whatever partial output is available.
    pub fn fail(self, output: String, now: i64) -> (j: Job)
        ensures
            j == failed_job(self, output, now),
    {
        Job { status: Status::ERROR, completed_at: Some(now), output, ..self }
    }

    /// Both lifecycle timestamps have been stamped.
    pub fn timestamps_set(&self) -> (r: bool)
        ensures
            r == (self.started_at is Some && self.completed_at is Some),
    {
        self.started_at.is_some() && self.completed_at.is_some()
    }

    /// Elapsed wall-clock seconds between claim and completion, when
    /// both stamps exist and their difference is representable.
    pub fn elapsed_secs(&self) -> (r: Option<i64>)
        ensures
            match (self.started_at, self.completed_at) {
                (Some(s), Some(c)) => if i64::MIN <= c - s <= i64::MAX {
                    r == Some((c - s) as i64)
                } else {
                    r is None
                },
                _ => r is None,
            },
    {
        match (self.started_at, self.completed_at) {
            (Some(s), Some(c)) => c.checked_sub(s),
            _ => None,
        }
    }
}

} // verus!
