//! Process-wide rate-limit governor, shared by every worker of one batch.
//!
//! Consecutive failures reported by any worker are pooled; once
//! `ERROR_THRESHOLD` of them come in a row the governor becomes limited and
//! records when the backoff started. Workers then wait until
//! `BACKOFF_MILLIS` have passed since that moment, after which the governor
//! is reset. Time is a monotonic clock reading in milliseconds, supplied by
//! the caller.
use vstd::prelude::*;

verus! {

/// Consecutive failures (across all workers) that signal throttling.
pub const ERROR_THRESHOLD: u64 = 3;

/// Length of the pause imposed on all workers once throttling is inferred.
pub const BACKOFF_MILLIS: u64 = 5000;

/// Abstract state of the governor.
pub struct GovernorModel {
    pub limited: bool,
    pub errors: nat,
    pub backoff_start: Option<nat>,
}

pub struct RateLimitState {
    is_rate_limited: bool,
    consecutive_errors: u64,
    last_backoff_time: Option<u64>,
}

/// The governor as it is before any report, and after each backoff.
pub open spec fn fresh_model() -> GovernorModel {
    GovernorModel { limited: false, errors: 0, backoff_start: None }
}

/// A backoff start time is held exactly while the governor is limited.
pub open spec fn model_wf(m: GovernorModel) -> bool {
    m.limited <==> m.backoff_start.is_some()
}

/// The counter after one more failure; it stops at `u64::MAX`.
pub open spec fn bumped(errors: nat) -> nat {
    if errors < u64::MAX { errors + 1 } else { errors }
}

/// Effect of one failure report at time `now`.
pub open spec fn after_error(m: GovernorModel, now: nat) -> GovernorModel {
    let errors = bumped(m.errors);
    if errors >= ERROR_THRESHOLD && !m.limited {
        GovernorModel { limited: true, errors, backoff_start: Some(now) }
    } else {
        GovernorModel { errors, ..m }
    }
}

/// Effect of one success report: ignored while limited.
pub open spec fn after_success(m: GovernorModel) -> GovernorModel {
    if m.limited { m } else { GovernorModel { errors: 0, ..m } }
}

/// How long a worker arriving at `now` still has to wait.
pub open spec fn remaining_wait(m: GovernorModel, now: nat) -> nat {
    match m.backoff_start {
        Some(start) => {
            let elapsed: nat = if now >= start { (now - start) as nat } else { 0 };
            if m.limited && elapsed < BACKOFF_MILLIS { (BACKOFF_MILLIS - elapsed) as nat } else { 0 }
        },
        None => 0,
    }
}

/// Starting from a fresh governor, two failure reports in a row leave it
/// unlimited, a third one limits it and records that moment as the backoff
/// start, and further failures during the backoff do not start it again.
pub proof fn lemma_burst_limits_once(t1: nat, t2: nat, t3: nat, t4: nat)
    ensures
        !after_error(fresh_model(), t1).limited,
        !after_error(after_error(fresh_model(), t1), t2).limited,
        after_error(after_error(after_error(fresh_model(), t1), t2), t3).limited,
        after_error(after_error(after_error(fresh_model(), t1), t2), t3).backoff_start == Some(t3),
        after_error(after_error(after_error(after_error(fresh_model(), t1), t2), t3), t4).backoff_start
            == Some(t3),
{
}

/// While limited, a worker that sleeps for the remaining wait wakes no
/// earlier than `BACKOFF_MILLIS` after the backoff start, and one that is
/// told to wait zero arrives after that point. Once the backoff ends the
/// governor is fresh: workers that were queued behind the one that ended
/// it wait no more, and a new burst of failures limits it again.
pub proof fn lemma_backoff_window(m: GovernorModel, now: nat, t1: nat, t2: nat, t3: nat)
    requires
        model_wf(m),
        m.limited,
        now >= m.backoff_start.unwrap(),
    ensures
        now + remaining_wait(m, now) >= m.backoff_start.unwrap() + BACKOFF_MILLIS,
        remaining_wait(m, now) == 0 <==> now >= m.backoff_start.unwrap() + BACKOFF_MILLIS,
        remaining_wait(fresh_model(), now) == 0,
        after_error(after_error(after_error(fresh_model(), t1), t2), t3).limited,
{
}

impl View for RateLimitState {
    type V = GovernorModel;

    closed spec fn view(&self) -> GovernorModel {
        GovernorModel {
            limited: self.is_rate_limited,
            errors: self.consecutive_errors as nat,
            backoff_start: match self.last_backoff_time {
                Some(t) => Some(t as nat),
                None => None,
            },
        }
    }
}

impl RateLimitState {
    pub open spec fn wf(&self) -> bool {
        model_wf(self@)
    }

    pub fn new() -> (r: Self)
        ensures
            r@ == fresh_model(),
            r.wf(),
    {
        RateLimitState { is_rate_limited: false, consecutive_errors: 0, last_backoff_time: None }
    }

    pub fn is_limited(&self) -> (r: bool)
        ensures
            r == self@.limited,
    {
        self.is_rate_limited
    }

    pub fn consecutive_errors(&self) -> (r: u64)
        ensures
            r as nat == self@.errors,
    {
        self.consecutive_errors
    }

    /// Reports one failed fetch, seen by any worker, at time `now`.
    pub fn on_error(&mut self, now: u64)
        requires
            old(self).wf(),
        ensures
            final(self).wf(),
            final(self)@ == after_error(old(self)@, now as nat),
    {
        if self.consecutive_errors < u64::MAX {
            self.consecutive_errors = self.consecutive_errors + 1;
        }
        if self.consecutive_errors >= ERROR_THRESHOLD && !self.is_rate_limited {
            self.is_rate_limited = true;
            self.last_backoff_time = Some(now);
        }
    }

    /// Reports one successful metadata fetch.
    pub fn on_success(&mut self)
        requires
            old(self).wf(),
        ensures
            final(self).wf(),
            final(self)@ == after_success(old(self)@),
    {
        if !self.is_rate_limited {
            self.consecutive_errors = 0;
        }
    }

    /// Milliseconds that a worker arriving at `now` must still sleep before
    /// the backoff is over; zero when not limited.
    pub fn wait_if_rate_limited(&self, now: u64) -> (r: u64)
        requires
            self.wf(),
        ensures
            r as nat == remaining_wait(self@, now as nat),
            r <= BACKOFF_MILLIS,
            !self@.limited ==> r == 0,
    {
        match self.last_backoff_time {
            Some(start) => {
                let elapsed: u64 = if now >= start { now - start } else { 0 };
                if self.is_rate_limited && elapsed < BACKOFF_MILLIS {
                    BACKOFF_MILLIS - elapsed
                } else {
                    0
                }
            },
            None => 0,
        }
    }

    /// Ends the backoff once its window has passed: the governor is fresh
    /// again. Does nothing when it is not limited.
    pub fn end_backoff(&mut self)
        requires
            old(self).wf(),
        ensures
            final(self).wf(),
            old(self)@.limited ==> final(self)@ == fresh_model(),
            !old(self)@.limited ==> final(self)@ == old(self)@,
    {
        if self.is_rate_limited {
            self.last_backoff_time = None;
            self.is_rate_limited = false;
            self.consecutive_errors = 0;
        }
    }
}

} // verus!
