//! The judgement of the pending jobs that the engine executed.

use vstd::prelude::*;
use vstd::string::*;
use crate::eserror::EsError;
use crate::eserror::EsErrorView;
use crate::eserror::ErrorKind;
use crate::quickjsruntime::loaders::unit_view;
use crate::quickjsruntime::QuickJsRuntime;

verus! {

/// What the engine reported of one pending job that it executed: the flag
/// that the execution returned, and the exception that was pending in the
/// job's context afterwards, if there was one.
#[derive(Debug)]
pub struct JobOutcome {
    pub flag: i32,
    pub exception: Option<EsError>,
}

/// What the engine has just answered in a drain of the pending jobs.
#[derive(Debug)]
pub enum DrainEvent {
    /// The flag with which it answered whether a job is pending.
    Pending(i32),
    /// What it reported of the job that it executed.
    Executed(JobOutcome),
}

/// What is to be asked of the engine next in a drain of the pending jobs.
#[derive(Clone, Copy, Debug, PartialEq, Eq, Structural)]
pub enum DrainStep {
    /// Whether a job is pending.
    AskPending,
    /// To execute one pending job.
    ExecuteJob,
    /// Nothing: no job is pending.
    Done,
}

/// The error of a job that failed without leaving an exception.
pub open spec fn unknown_job_error() -> EsErrorView {
    EsErrorView {
        kind: ErrorKind::PendingJobFailed,
        message: "Unknown exception while running pending job"@,
        stack: Seq::<char>::empty(),
    }
}

/// What [`QuickJsRuntime::run_pending_job`] returns: a negative flag means
/// that the job failed.
pub open spec fn job_result(flag: i32, exception: Option<EsErrorView>) -> Result<(), EsErrorView> {
    if flag < 0 {
        match exception {
            Some(e) => Err(EsErrorView { kind: ErrorKind::PendingJobFailed, ..e }),
            None => Err(unknown_job_error()),
        }
    } else {
        Ok(())
    }
}

/// The view of an optional error.
pub open spec fn opt_error_view(e: Option<EsError>) -> Option<EsErrorView> {
    match e {
        Some(e) => Some(e@),
        None => None,
    }
}

/// The views of a list of errors.
pub open spec fn errors_view(errors: Seq<EsError>) -> Seq<EsErrorView> {
    Seq::new(errors.len(), |i: int| errors[i]@)
}

impl QuickJsRuntime {
    /// Judges the flag with which the engine answers whether a job is
    /// pending: a positive flag means that one is.
    pub fn has_pending_jobs(&self, pending_flag: i32) -> (pending: bool)
        ensures
            pending == (pending_flag > 0),
    {
        pending_flag > 0
    }

    /// Judges what the engine reported of one job that it executed.
    pub fn run_pending_job(&self, flag: i32, exception: Option<EsError>) -> (r: Result<(), EsError>)
        ensures
            unit_view(r) == job_result(flag, opt_error_view(exception)),
    {
        if flag < 0 {
            let e = match exception {
                Some(e) => e.with_kind(ErrorKind::PendingJobFailed),
                None => EsError::new(
                    ErrorKind::PendingJobFailed,
                    String::from_str("Unknown exception while running pending job"),
                ),
            };
            return Err(e);
        }
        Ok(())
    }

    /// Takes the drain of the pending jobs one step further: from what
    /// the engine has just answered to what is to be asked of it next.
    ///
    /// The drain starts by asking the engine whether a job is pending. On
    /// the answer, a job is executed if one is pending, and the drain is
    /// done if none is. After a job was executed, the engine is asked
    /// again, whether the job failed or not: a failure is added to
    /// `failures`, to be reported, and never ends the drain.
    pub fn run_pending_jobs_if_any(&self, failures: &mut Vec<EsError>, event: DrainEvent) -> (step:
        DrainStep)
        ensures
            match event {
                DrainEvent::Pending(pending_flag) => {
                    &&& final(failures)@ == old(failures)@
                    &&& step == if pending_flag > 0 {
                        DrainStep::ExecuteJob
                    } else {
                        DrainStep::Done
                    }
                },
                DrainEvent::Executed(job) => {
                    &&& step == DrainStep::AskPending
                    &&& errors_view(final(failures)@) == match job_result(
                        job.flag,
                        opt_error_view(job.exception),
                    ) {
                        Ok(_) => errors_view(old(failures)@),
                        Err(e) => errors_view(old(failures)@).push(e),
                    }
                },
            },
    {
        match event {
            DrainEvent::Pending(pending_flag) => {
                if self.has_pending_jobs(pending_flag) {
                    DrainStep::ExecuteJob
                } else {
                    DrainStep::Done
                }
            },
            DrainEvent::Executed(job) => {
                let ghost before = errors_view(failures@);
                match self.run_pending_job(job.flag, job.exception) {
                    Ok(()) => {},
                    Err(e) => {
                        failures.push(e);
                        assert(errors_view(failures@) =~= before.push(e@));
                    },
                }
                DrainStep::AskPending
            },
        }
    }
}

} // verus!
