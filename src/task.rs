//! Per-track retry state machine.
//!
//! Each attempt first waits on the governor, then fetches the playback
//! metadata and transfers the file. The worker running the track reports
//! what happened through the methods below, which also keep the shared
//! governor informed, and learns whether to try again or what the track
//! resolved to.
use vstd::prelude::*;
use crate::error::DownloadError;
use crate::governor::{RateLimitState, after_error, after_success};

verus! {

/// Attempts that one track gets before it is given up.
pub const MAX_ATTEMPTS: u32 = 10;

/// What the worker does after reporting an event.
pub enum TaskStep {
    /// Wait on the governor and make another attempt.
    Retry,
    /// The track is done: `Ok(true)` downloaded, `Ok(false)` skipped
    /// because its file was already there, `Err` failed.
    Resolved(Result<bool, DownloadError>),
}

/// Whether the failure that brings the attempt count to `attempts` ends
/// the track.
pub open spec fn failure_resolves(attempts: nat, retryable: bool) -> bool {
    !retryable || attempts >= MAX_ATTEMPTS
}

pub struct TrackTask {
    attempts: u32,
}

impl TrackTask {
    pub closed spec fn spec_attempts(&self) -> nat {
        self.attempts as nat
    }

    /// A task that is still running has attempts left.
    pub open spec fn wf(&self) -> bool {
        self.spec_attempts() < MAX_ATTEMPTS
    }

    pub fn new() -> (r: Self)
        ensures
            r.spec_attempts() == 0,
            r.wf(),
    {
        TrackTask { attempts: 0 }
    }

    /// Failed attempts so far.
    pub fn attempts(&self) -> (r: u32)
        ensures
            r as nat == self.spec_attempts(),
    {
        self.attempts
    }

    /// The playback metadata arrived: the governor hears of a success,
    /// whatever the transfer that follows does.
    pub fn on_metadata(&self, governor: &mut RateLimitState)
        requires
            old(governor).wf(),
        ensures
            final(governor).wf(),
            final(governor)@ == after_success(old(governor)@),
    {
        governor.on_success();
    }

    /// The attempt failed with `err` at time `now`. A transient failure is
    /// reported to the governor and retried while attempts remain; the last
    /// error is what the track fails with.
    pub fn on_failure(&mut self, governor: &mut RateLimitState, err: DownloadError, now: u64) -> (r:
        TaskStep)
        requires
            old(self).wf(),
            old(governor).wf(),
        ensures
            final(self).spec_attempts() == old(self).spec_attempts() + 1,
            final(governor).wf(),
            err.spec_retryable() ==> final(governor)@ == after_error(old(governor)@, now as nat),
            !err.spec_retryable() ==> final(governor)@ == old(governor)@,
            failure_resolves(final(self).spec_attempts(), err.spec_retryable()) ==> r
                == TaskStep::Resolved(Err(err)),
            !failure_resolves(final(self).spec_attempts(), err.spec_retryable()) ==> r
                == TaskStep::Retry && final(self).wf(),
    {
        self.attempts = self.attempts + 1;
        if err.is_retryable() {
            governor.on_error(now);
            if self.attempts >= MAX_ATTEMPTS {
                TaskStep::Resolved(Err(err))
            } else {
                TaskStep::Retry
            }
        } else {
            TaskStep::Resolved(Err(err))
        }
    }

    /// The transfer finished (`downloaded`) or found the file already there.
    pub fn on_transfer(&self, downloaded: bool) -> (r: TaskStep)
        ensures
            r == TaskStep::Resolved(Ok(downloaded)),
    {
        TaskStep::Resolved(Ok(downloaded))
    }
}

/// From a new task, transient failures are retried until the tenth: the
/// first nine leave attempts for one more try, so a fetch that succeeds on
/// the tenth attempt takes the success path, and the tenth failure resolves
/// the track as failed.
pub proof fn lemma_retry_budget(k: nat)
    requires
        1 <= k,
    ensures
        k < MAX_ATTEMPTS ==> !failure_resolves(k, true),
        k >= MAX_ATTEMPTS ==> failure_resolves(k, true),
        failure_resolves(k, false),
{
}

} // verus!
