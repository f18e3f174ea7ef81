//! The perpetual job loop's decisions: which jobs start a run, and what is
//! enqueued when one finishes.
//!
//! The scheduler keeps an unordered set of in-flight jobs and never lets it
//! drain: every finished job yields exactly the same job again — a
//! successful pass schedules its next cycle, a failed one is retried after
//! the error delay. Waiting, spawning and gathering happen outside this
//! library; the decisions live here.

use vstd::prelude::*;

use crate::chain::{all_chains, spec_all_chains, Chain};

verus! {

/// The mode the service was started in.
#[derive(Clone, Copy, PartialEq, Eq, Structural, Debug)]
pub enum Command {
    /// Import and calculate, the default.
    Run,
    /// Import passes only.
    Import,
    /// Calculation cycles only.
    Calculate,
}

/// One schedulable unit of work.
#[derive(Clone, Copy, PartialEq, Eq, Structural, Debug)]
pub enum Job {
    /// One import pass for one chain.
    Import(Chain),
    /// One calculation cycle over all chains.
    Calculate,
}

/// The initial job set for a mode: one import job per known chain, one
/// calculation job, or both.
pub fn init_jobs(cmd: Command) -> (jobs: Vec<Job>)
    ensures
        match cmd {
            Command::Run => jobs@.len() == spec_all_chains().len() + 1 && (forall|i: int|
                0 <= i < spec_all_chains().len() ==> jobs@[i] == Job::Import(spec_all_chains()[i]))
                && jobs@[spec_all_chains().len() as int] == Job::Calculate,
            Command::Import => jobs@.len() == spec_all_chains().len() && (forall|i: int|
                0 <= i < spec_all_chains().len() ==> jobs@[i] == Job::Import(
                    spec_all_chains()[i],
                )),
            Command::Calculate => jobs@.len() == 1 && jobs@[0] == Job::Calculate,
        },
{
    match cmd {
        Command::Run => {
            let mut jobs = import_jobs();
            jobs.push(Job::Calculate);
            jobs
        },
        Command::Import => import_jobs(),
        Command::Calculate => {
            let jobs: Vec<Job> = vec![Job::Calculate];
            jobs
        },
    }
}

/// One import job per known chain, in the fixed chain order.
fn import_jobs() -> (jobs: Vec<Job>)
    ensures
        jobs@.len() == spec_all_chains().len(),
        forall|i: int|
            0 <= i < spec_all_chains().len() ==> jobs@[i] == Job::Import(spec_all_chains()[i]),
{
    let chains = all_chains();
    let mut jobs: Vec<Job> = Vec::new();
    let mut i: usize = 0;
    while i < chains.len()
        invariant
            chains@ == spec_all_chains(),
            i <= chains@.len(),
            jobs@.len() == i,
            forall|j: int| 0 <= j < i ==> jobs@[j] == Job::Import(spec_all_chains()[j]),
        decreases chains@.len() - i,
    {
        jobs.push(Job::Import(chains[i]));
        i = i + 1;
    }
    jobs
}

/// What to enqueue when a job finishes: exactly the same job, whether it
/// succeeded (its next cycle) or failed (an indefinite retry after the
/// error delay). Jobs are never dropped, so the set never drains.
pub fn job_follow_ups(job: Job, succeeded: bool) -> (next: Vec<Job>)
    ensures
        next@.len() == 1,
        next@[0] == job,
{
    let next: Vec<Job> = vec![job];
    next
}

} // verus!
