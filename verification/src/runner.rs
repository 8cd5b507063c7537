//! The job runner cycle: claim, execute in a VM session, persist.
//!
//! Each cycle claims the oldest queued job, runs its command in one VM
//! session, stamps the job's terminal state — `COMPLETE` with the
//! transcript on success, `ERROR` with the salvaged partial output on
//! any session failure — and persists exactly once per claimed job. A
//! cycle with nothing queued is a no-op; a claim error ends the cycle
//! without a persist and the loop retries after the pause.

use vstd::prelude::*;

verus! {

use crate::channel::scan_outcome;
use crate::channel::transcript;
use crate::channel::OutputScript;
use crate::channel::VmError;
use crate::clock::now_secs;
use crate::job::completed_job;
use crate::job::failed_job;
use crate::job::is_terminal;
use crate::job::Job;
use crate::session::run_exchange;
use crate::session::BOOT_TIMEOUT;
use crate::status::Status;
use crate::store::claim_pick;
use crate::store::claim_step;
use crate::store::claimed_job;
use crate::store::persist_rows;
use crate::store::queued_count;
use crate::store::JobStore;
use crate::store::StoreError;
use vstd::string::StringExecFns;

/// Seconds the loop pauses after every cycle, job or no job.
pub const JOB_PAUSE: u64 = 2;

/// The command line actually sent to the VM: the job's command with the
/// job's repository URL appended, space-separated.
pub fn compose_command(command: &str, git_url: &str) -> (r: String)
    ensures
        r@ == command@ + " "@ + git_url@,
{
    let r = String::from_str(command).concat(" ").concat(git_url);
    proof {
        assert(r@ =~= command@ + " "@ + git_url@);
    }
    r
}

/// What one VM session handed back for a claimed job: the full
/// transcript, or the failure together with whatever partial output was
/// salvaged (possibly empty).
pub enum SessionOutcome {
    Completed(String),
    Failed(VmError, String),
}

/// The job's terminal state for a session outcome, stamped at `now`.
pub open spec fn finalized_job(job: Job, outcome: SessionOutcome, now: i64) -> Job {
    match outcome {
        SessionOutcome::Completed(out) => completed_job(job, out, now),
        SessionOutcome::Failed(_, partial) => failed_job(job, partial, now),
    }
}

/// Turn a session outcome into the job's terminal state: `COMPLETE`
/// with the transcript on success, `ERROR` with the partial output on
/// any failure; either way `completed_at` is stamped with `now`.
pub fn finalize(job: Job, outcome: SessionOutcome, now: i64) -> (j: Job)
    ensures
        j == finalized_job(job, outcome, now),
{
    match outcome {
        SessionOutcome::Completed(out) => job.complete(out, now),
        SessionOutcome::Failed(_, partial) => job.fail(partial, now),
    }
}

/// Turn a session outcome into the job's terminal state, stamped at the
/// current wall-clock time.
pub fn finalize_now(job: Job, outcome: SessionOutcome) -> (j: Job)
    ensures
        exists|now: i64| j == #[trigger] finalized_job(job, outcome, now),
{
    let now = now_secs();
    finalize(job, outcome, now)
}

/// Law: a job whose VM session succeeds ends with status `COMPLETE`,
/// both lifecycle timestamps set, and completion no earlier than the
/// start — provided the clock did not run backwards between the claim
/// stamp and the completion stamp.
pub proof fn lemma_success_terminal(job: Job, out: String, now: i64)
    requires
        job.started_at matches Some(s) && s <= now,
    ensures
        ({
            let j = completed_job(job, out, now);
            &&& j.status == Status::COMPLETE
            &&& j.started_at matches Some(s)
            &&& j.completed_at == Some(now)
            &&& (j.started_at matches Some(s) && j.completed_at matches Some(c) && s <= c)
            &&& j.output == out
        }),
{
}

/// Law: a job whose VM session fails, for any reason, ends with status
/// `ERROR`, `completed_at` set, and its claim stamp untouched.
pub proof fn lemma_failure_terminal(job: Job, partial: String, now: i64)
    ensures
        ({
            let j = failed_job(job, partial, now);
            &&& j.status == Status::ERROR
            &&& j.completed_at == Some(now)
            &&& j.started_at == job.started_at
            &&& j.output == partial
        }),
{
}

/// Errors that end one loop cycle without a persisted outcome.
#[derive(Clone, Copy, PartialEq, Eq, Structural, Debug)]
pub enum CycleError {
    /// The claim failed; the loop treats it like "no job available" and
    /// retries after the pause.
    Claim(StoreError),
    /// A reported success left a lifecycle timestamp unset: an
    /// internal-consistency violation the cycle guards against.
    Postcondition,
}

/// One full worker cycle against the store and a scripted VM console:
/// claim the oldest queued job, run the prompt-synchronized exchange,
/// stamp the terminal state at `t_done`, and persist it. Exactly one
/// persist is attempted per claimed job, success or failure; with
/// nothing queued the cycle is a no-op. The internal-consistency guard
/// — a reported success must carry both timestamps — provably never
/// fires here.
pub fn run_cycle(
    store: &mut JobStore,
    boot: &OutputScript,
    cmd: &OutputScript,
    t_claim: i64,
    t_done: i64,
) -> (r: Result<Option<Job>, CycleError>)
    requires
        t_claim <= t_done,
    ensures
        queued_count(old(store).rows@) == 0 ==> r == Ok::<Option<Job>, CycleError>(None)
            && final(store).rows@ == old(store).rows@,
        r != Err::<Option<Job>, CycleError>(CycleError::Postcondition),
        ({
            let rows0 = old(store).rows@;
            let i = claim_pick(rows0);
            i != -1 ==> {
                let job = claimed_job(rows0[i], t_claim);
                &&& (rows0[i].command_timeout < 0 ==> r == Err::<Option<Job>, CycleError>(
                    CycleError::Claim(StoreError::Query),
                ) && final(store).rows@ == claim_step(rows0, t_claim))
                &&& (rows0[i].command_timeout >= 0 ==> (r matches Ok(oj) && oj matches Some(j) && {
                    &&& final(store).rows@ == persist_rows(claim_step(rows0, t_claim), j)
                    &&& is_terminal(j.status)
                    &&& j.started_at == Some(t_claim)
                    &&& j.completed_at == Some(t_done)
                    &&& match scan_outcome(
                        boot.lines@,
                        rows0[i].prompt@,
                        BOOT_TIMEOUT,
                        boot.closes,
                        VmError::BootTimeout,
                    ) {
                        Err(_) => j == failed_job(job, job.output, t_done),
                        Ok(_) => match scan_outcome(
                            cmd.lines@,
                            rows0[i].prompt@,
                            job.command_timeout,
                            cmd.closes,
                            VmError::CommandTimeout,
                        ) {
                            Ok(k) => exists|out: String|
                                out@ == transcript(cmd.lines@, k + 1) && j == #[trigger] completed_job(
                                    job,
                                    out,
                                    t_done,
                                ),
                            Err(_) => j == failed_job(job, job.output, t_done),
                        },
                    }
                }))
            }
        }),
{
    let job = match store.claim(t_claim) {
        Ok(Some(job)) => job,
        Ok(None) => {
            return Ok(None);
        },
        Err(e) => {
            return Err(CycleError::Claim(e));
        },
    };
    let ghost job0 = job;
    let j = match run_exchange(boot, cmd, job.prompt.as_str(), job.command_timeout) {
        Ok(out) => {
            let ghost gout = out;
            let j = job.complete(out, t_done);
            if !j.timestamps_set() {
                return Err(CycleError::Postcondition);
            }
            proof {
                assert(j == completed_job(job0, gout, t_done));
            }
            j
        },
        Err(_) => {
            let partial = job.output.clone();
            job.fail(partial, t_done)
        },
    };
    store.persist(&j);
    Ok(Some(j))
}

} // verus!
