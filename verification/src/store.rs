//! The job store: atomic claim of the oldest queued job, and persist of
//! the worker-owned fields.
//!
//! `JobStore` is an executable model of the queue store with the same
//! observable semantics the worker relies on: claim picks the
//! earliest-created `QUEUED` row (ties broken by position), stamps it
//! `RUNNING` with `started_at`, and returns the joined job record;
//! persist writes back only the columns the worker owns. The laws of the
//! claim protocol — at most one claim per row over any sequence of
//! claims, and a clean "no job" result on an empty queue — are proved
//! against this model.

use vstd::prelude::*;

verus! {

use vstd::math::min;

use crate::job::clone_opt_string;
use crate::job::Job;
use crate::status::status_of_text;
use crate::status::Status;

/// Errors surfaced by the job store.
#[derive(Clone, Copy, PartialEq, Eq, Structural, Debug)]
pub enum StoreError {
    /// The store could not be reached.
    Connection,
    /// A query failed or a row was malformed.
    Query,
}

/// One stored job row, joined with the test-definition fields (images,
/// prompt, command, timeout) and the group field (repository URL) that
/// the claim query denormalizes.
#[derive(Clone)]
pub struct StoredJob {
    pub id: i32,
    pub status: Status,
    pub created_at: i64,
    pub started_at: Option<i64>,
    pub completed_at: Option<i64>,
    pub output: String,
    pub memsnapshot: Option<String>,
    pub tests_image: Option<String>,
    pub base_image: String,
    pub prompt: String,
    pub command: String,
    /// The store keeps the timeout as a signed integer of seconds, so a
    /// malformed (negative) value is possible; claim rejects it.
    pub command_timeout: i32,
    pub git_url: String,
}

/// The queue store, modeled as its rows in creation order of no
/// particular arrangement; claim orders by `created_at` itself.
pub struct JobStore {
    pub rows: Vec<StoredJob>,
}

/// The row is available for a claim.
pub open spec fn is_queued(r: StoredJob) -> bool {
    r.status == Status::QUEUED
}

/// How many rows are available for a claim.
pub open spec fn queued_count(rows: Seq<StoredJob>) -> nat
    decreases rows.len(),
{
    if rows.len() == 0 {
        0
    } else {
        queued_count(rows.drop_last()) + if is_queued(rows.last()) {
            1nat
        } else {
            0nat
        }
    }
}

/// The index of the row a claim picks: the queued row with the earliest
/// `created_at`, ties broken by the lowest index; `-1` when no row is
/// queued.
pub open spec fn claim_pick(rows: Seq<StoredJob>) -> int
    decreases rows.len(),
{
    if rows.len() == 0 {
        -1
    } else {
        let rest = claim_pick(rows.drop_last());
        let last = rows.len() - 1;
        if !is_queued(rows[last]) {
            rest
        } else if rest == -1 {
            last
        } else if rows[rest].created_at <= rows[last].created_at {
            rest
        } else {
            last
        }
    }
}

/// The claimed row as the store keeps it afterwards: running, with the
/// claim time stamped.
pub open spec fn claimed_row(r: StoredJob, now: i64) -> StoredJob {
    StoredJob { status: Status::RUNNING, started_at: Some(now), ..r }
}

/// The joined job record a successful claim returns.
pub open spec fn claimed_job(r: StoredJob, now: i64) -> Job {
    Job {
        id: r.id,
        status: Status::RUNNING,
        started_at: Some(now),
        completed_at: r.completed_at,
        memsnapshot: r.memsnapshot,
        tests_image: r.tests_image,
        base_image: r.base_image,
        prompt: r.prompt,
        command: r.command,
        command_timeout: r.command_timeout as u64,
        output: r.output,
        git_url: r.git_url,
    }
}

/// The store's rows after one claim call.
pub open spec fn claim_step(rows: Seq<StoredJob>, now: i64) -> Seq<StoredJob> {
    let i = claim_pick(rows);
    if i == -1 {
        rows
    } else {
        rows.update(i, claimed_row(rows[i], now))
    }
}

/// A row after the worker-owned fields of `job` are written back into
/// it; every other column keeps its stored value.
pub open spec fn persisted_row(r: StoredJob, job: Job) -> StoredJob {
    StoredJob {
        status: job.status,
        completed_at: job.completed_at,
        started_at: job.started_at,
        output: job.output,
        ..r
    }
}

/// The store's rows after persisting `job` by its identifier.
pub open spec fn persist_rows(rows: Seq<StoredJob>, job: Job) -> Seq<StoredJob> {
    rows.map(
        |idx: int, r: StoredJob|
            if r.id == job.id {
                persisted_row(r, job)
            } else {
                r
            },
    )
}

/// The picked index is a queued row with the minimal creation time, and
/// `-1` exactly when nothing is queued.
pub proof fn lemma_claim_pick(rows: Seq<StoredJob>)
    ensures
        claim_pick(rows) == -1 ==> forall|j: int| 0 <= j < rows.len() ==> !is_queued(rows[j]),
        claim_pick(rows) != -1 ==> {
            let i = claim_pick(rows);
            &&& 0 <= i < rows.len()
            &&& is_queued(rows[i])
            &&& forall|j: int|
                0 <= j < rows.len() && is_queued(rows[j]) ==> rows[i].created_at
                    <= rows[j].created_at
            &&& forall|j: int|
                0 <= j < i && is_queued(rows[j]) ==> rows[i].created_at < rows[j].created_at
        },
    decreases rows.len(),
{
    if rows.len() > 0 {
        let prefix = rows.drop_last();
        lemma_claim_pick(prefix);
        assert(forall|j: int| 0 <= j < prefix.len() ==> prefix[j] == rows[j]);
    }
}

/// No row is queued exactly when the queued count is zero.
pub proof fn lemma_queued_count_zero(rows: Seq<StoredJob>)
    ensures
        (queued_count(rows) == 0) <==> (forall|j: int|
            0 <= j < rows.len() ==> !is_queued(rows[j])),
    decreases rows.len(),
{
    if rows.len() > 0 {
        let prefix = rows.drop_last();
        lemma_queued_count_zero(prefix);
        assert(forall|j: int| 0 <= j < prefix.len() ==> prefix[j] == rows[j]);
        assert(rows.last() == rows[rows.len() - 1]);
    }
}

/// Replacing one row changes the queued count by the difference of the
/// two rows' queued flags.
pub proof fn lemma_queued_count_update(rows: Seq<StoredJob>, i: int, r: StoredJob)
    requires
        0 <= i < rows.len(),
    ensures
        queued_count(rows.update(i, r)) + (if is_queued(rows[i]) {
            1int
        } else {
            0int
        }) == queued_count(rows) + (if is_queued(r) {
            1int
        } else {
            0int
        }),
    decreases rows.len(),
{
    let updated = rows.update(i, r);
    if i == rows.len() - 1 {
        assert(updated.drop_last() =~= rows.drop_last());
        assert(updated.last() == r);
    } else {
        assert(updated.drop_last() =~= rows.drop_last().update(i, r));
        assert(updated.last() == rows.last());
        lemma_queued_count_update(rows.drop_last(), i, r);
    }
}

impl JobStore {
    /// Atomically claim the oldest queued job: lock and transition that
    /// row to `RUNNING`, stamp `started_at`, and return the joined job
    /// record. With nothing queued the result is `Ok(None)` — an
    /// explicit "no job available", never an error. A claimed row whose
    /// stored timeout is malformed (negative) yields a query error; the
    /// row is still transitioned, as the atomic statement has already
    /// run by the time the record is read.
    pub fn claim(&mut self, now: i64) -> (r: Result<Option<Job>, StoreError>)
        ensures
            final(self).rows@ == claim_step(old(self).rows@, now),
            queued_count(old(self).rows@) == 0 ==> final(self).rows@ == old(self).rows@ && r
                == Ok::<Option<Job>, StoreError>(None),
            claim_pick(old(self).rows@) == -1 <==> queued_count(old(self).rows@) == 0,
            claim_pick(old(self).rows@) != -1 ==> {
                let i = claim_pick(old(self).rows@);
                &&& (old(self).rows@[i].command_timeout >= 0 ==> r == Ok::<
                    Option<Job>,
                    StoreError,
                >(Some(claimed_job(old(self).rows@[i], now))))
                &&& (old(self).rows@[i].command_timeout < 0 ==> r == Err::<
                    Option<Job>,
                    StoreError,
                >(StoreError::Query))
            },
    {
        proof {
            lemma_claim_pick(self.rows@);
            lemma_queued_count_zero(self.rows@);
        }
        let ghost rows0 = self.rows@;
        let n = self.rows.len();
        let mut found = false;
        let mut best: usize = 0;
        let mut i: usize = 0;
        while i < n
            invariant
                self.rows@ == rows0,
                n == rows0.len(),
                i <= n,
                found ==> best < i,
                claim_pick(rows0.subrange(0, i as int)) == if found {
                    best as int
                } else {
                    -1
                },
            decreases n - i,
        {
            let ghost pre = rows0.subrange(0, i as int);
            let ghost post = rows0.subrange(0, i + 1 as int);
            if self.rows[i].status == Status::QUEUED {
                if !found {
                    found = true;
                    best = i;
                } else if !(self.rows[best].created_at <= self.rows[i].created_at) {
                    best = i;
                }
            }
            proof {
                assert(post.drop_last() =~= pre);
                assert(post.last() == rows0[i as int]);
            }
            i = i + 1;
        }
        proof {
            assert(rows0.subrange(0, n as int) =~= rows0);
        }
        if !found {
            return Ok(None);
        }
        let timeout = self.rows[best].command_timeout;
        self.rows[best].status = Status::RUNNING;
        self.rows[best].started_at = Some(now);
        proof {
            assert(self.rows@ =~= rows0.update(best as int, claimed_row(rows0[best as int], now)));
        }
        if timeout < 0 {
            return Err(StoreError::Query);
        }
        let row = &self.rows[best];
        let job = Job {
            id: row.id,
            status: Status::RUNNING,
            started_at: Some(now),
            completed_at: row.completed_at,
            memsnapshot: clone_opt_string(&row.memsnapshot),
            tests_image: clone_opt_string(&row.tests_image),
            base_image: row.base_image.clone(),
            prompt: row.prompt.clone(),
            command: row.command.clone(),
            command_timeout: timeout as u64,
            output: row.output.clone(),
            git_url: row.git_url.clone(),
        };
        Ok(Some(job))
    }

    /// Write back only the worker-owned columns — status, the two
    /// timestamps and the output — of every row matching the job's
    /// identifier; all other columns keep their stored values.
    pub fn persist(&mut self, job: &Job)
        ensures
            final(self).rows@ == persist_rows(old(self).rows@, *job),
    {
        let ghost rows0 = self.rows@;
        let n = self.rows.len();
        let mut i: usize = 0;
        while i < n
            invariant
                n == rows0.len(),
                self.rows@.len() == n,
                i <= n,
                forall|j: int|
                    0 <= j < i ==> self.rows@[j] == (if rows0[j].id == job.id {
                        persisted_row(rows0[j], *job)
                    } else {
                        rows0[j]
                    }),
                forall|j: int| i <= j < n ==> self.rows@[j] == rows0[j],
            decreases n - i,
        {
            if self.rows[i].id == job.id {
                self.rows[i].status = job.status;
                self.rows[i].completed_at = job.completed_at;
                self.rows[i].started_at = job.started_at;
                self.rows[i].output = job.output.clone();
            }
            i = i + 1;
        }
        proof {
            assert(self.rows@ =~= persist_rows(rows0, *job));
        }
    }
}

/// Law: persisting the same final job state twice yields the same
/// stored rows as persisting it once.
pub proof fn lemma_persist_idempotent(rows: Seq<StoredJob>, job: Job)
    ensures
        persist_rows(persist_rows(rows, job), job) == persist_rows(rows, job),
{
    let once = persist_rows(rows, job);
    let twice = persist_rows(once, job);
    assert forall|j: int| 0 <= j < rows.len() implies twice[j] == once[j] by {
        assert(once[j] == if rows[j].id == job.id {
            persisted_row(rows[j], job)
        } else {
            rows[j]
        });
    }
    assert(twice =~= once);
}

/// The indices claimed by a sequence of claim calls at the given times,
/// in call order; unsuccessful calls claim nothing.
pub open spec fn claim_trace(rows: Seq<StoredJob>, times: Seq<i64>) -> Seq<int>
    decreases times.len(),
{
    if times.len() == 0 {
        Seq::empty()
    } else {
        let i = claim_pick(rows);
        let rest = claim_trace(claim_step(rows, times[0]), times.drop_first());
        if i == -1 {
            rest
        } else {
            seq![i] + rest
        }
    }
}

/// Law: lock exclusivity of the claim protocol. The row-level lock
/// inside the atomic claim statement serializes concurrent claimants,
/// so any interleaving of workers is observed by the store as some
/// sequence of claim calls. Over any such sequence against a store with
/// N queued rows, exactly min(calls, N) claims succeed, every claimed
/// row was queued at the start, and no row is ever claimed twice.
pub proof fn lemma_claims_exclusive(rows: Seq<StoredJob>, times: Seq<i64>)
    ensures
        ({
            let t = claim_trace(rows, times);
            &&& t.len() == min(times.len() as int, queued_count(rows) as int)
            &&& forall|k: int| 0 <= k < t.len() ==> 0 <= #[trigger] t[k] < rows.len()
            &&& forall|k: int| 0 <= k < t.len() ==> is_queued(rows[#[trigger] t[k]])
            &&& forall|k: int, l: int| 0 <= k < l < t.len() ==> t[k] != t[l]
        }),
    decreases times.len(),
{
    if times.len() > 0 {
        let i = claim_pick(rows);
        lemma_claim_pick(rows);
        lemma_queued_count_zero(rows);
        let stepped = claim_step(rows, times[0]);
        let rest = claim_trace(stepped, times.drop_first());
        lemma_claims_exclusive(stepped, times.drop_first());
        if i == -1 {
            assert(queued_count(rows) == 0);
        } else {
            lemma_queued_count_update(rows, i, claimed_row(rows[i], times[0]));
            assert(queued_count(stepped) == queued_count(rows) - 1);
            let t = claim_trace(rows, times);
            assert(t == seq![i] + rest);
            assert(t[0] == i);
            assert forall|k: int| 1 <= k < t.len() implies 0 <= #[trigger] t[k] < rows.len()
                && is_queued(rows[t[k]]) && t[k] != i by {
                assert(t[k] == rest[k - 1]);
                assert(is_queued(stepped[rest[k - 1]]));
                assert(!is_queued(stepped[i]));
                assert(stepped[rest[k - 1]] == rows[rest[k - 1]]);
            }
            assert forall|k: int, l: int| 0 <= k < l < t.len() implies t[k] != t[l] by {
                if k > 0 {
                    assert(t[k] == rest[k - 1] && t[l] == rest[l - 1]);
                }
            }
        }
    }
}

/// Map the columns the claim query returns into a job record, rejecting
/// a malformed (negative) stored timeout as a query error.
pub fn job_from_row(
    id: i32,
    status_word: &str,
    started_at: Option<i64>,
    completed_at: Option<i64>,
    memsnapshot: Option<String>,
    tests_image: Option<String>,
    base_image: String,
    prompt: String,
    command: String,
    command_timeout: i32,
    output: String,
    git_url: String,
) -> (r: Result<Job, StoreError>)
    ensures
        command_timeout < 0 ==> r == Err::<Job, StoreError>(StoreError::Query),
        command_timeout >= 0 ==> r == Ok::<Job, StoreError>(
            Job {
                id,
                status: status_of_text(status_word@),
                started_at,
                completed_at,
                memsnapshot,
                tests_image,
                base_image,
                prompt,
                command,
                command_timeout: command_timeout as u64,
                output,
                git_url,
            },
        ),
{
    if command_timeout < 0 {
        return Err(StoreError::Query);
    }
    Ok(
        Job {
            id,
            status: Status::from_str(status_word),
            started_at,
            completed_at,
            memsnapshot,
            tests_image,
            base_image,
            prompt,
            command,
            command_timeout: command_timeout as u64,
            output,
            git_url,
        },
    )
}

} // verus!
