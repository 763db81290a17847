use vstd::prelude::*;

use crate::search::ConfigError;

verus! {

/// What one search is set up with: the number of matches wanted and of workers.
#[derive(Debug, Clone, Copy, PartialEq, Eq, Structural)]
pub struct SearchPlan {
    pub target: usize,
    pub workers: usize,
}

/// Relies on `num_cpus::get`: the number of CPUs this process may use, read from the system.
#[verifier::external_body]
fn available_cpus() -> (r: usize) {
    num_cpus::get()
}

/// The requested number of workers, or where none is requested the number
/// available, and never fewer than one.
pub fn resolve_worker_count(requested: usize, available: usize) -> (r: usize)
    ensures
        r == if requested > 0 {
            requested
        } else if available > 0 {
            available
        } else {
            1
        },
{
    if requested > 0 {
        requested
    } else if available > 0 {
        available
    } else {
        1
    }
}

/// Sets a search up: zero matches is a configuration error; zero workers means
/// one per available CPU.
pub fn plan_search(count: usize, threads: usize) -> (r: Result<SearchPlan, ConfigError>)
    ensures
        count == 0 <==> r is Err,
        r is Err ==> r == Err::<SearchPlan, ConfigError>(ConfigError::ZeroTarget),
        r matches Ok(p) ==> {
            &&& p.target == count
            &&& p.workers >= 1
            &&& threads > 0 ==> p.workers == threads
        },
{
    if count == 0 {
        return Err(ConfigError::ZeroTarget);
    }
    let available = if threads > 0 {
        0
    } else {
        available_cpus()
    };
    Ok(SearchPlan { target: count, workers: resolve_worker_count(threads, available) })
}

/// The stages of one search, in the only order in which they occur.
#[derive(Debug, Clone, Copy, PartialEq, Eq, Structural)]
pub enum Phase {
    Idle,
    Running,
    Draining,
    ReporterStopped,
    Done,
}

pub open spec fn phase_rank(p: Phase) -> nat {
    match p {
        Phase::Idle => 0,
        Phase::Running => 1,
        Phase::Draining => 2,
        Phase::ReporterStopped => 3,
        Phase::Done => 4,
    }
}

impl Phase {
    /// The stage after this one; `Done` stays `Done`.
    pub fn advance(self) -> (r: Phase)
        ensures
            self != Phase::Done ==> phase_rank(r) == phase_rank(self) + 1,
            self == Phase::Done ==> r == Phase::Done,
    {
        match self {
            Phase::Idle => Phase::Running,
            Phase::Running => Phase::Draining,
            Phase::Draining => Phase::ReporterStopped,
            Phase::ReporterStopped => Phase::Done,
            Phase::Done => Phase::Done,
        }
    }
}

} // verus!
