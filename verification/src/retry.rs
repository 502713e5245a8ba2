//! Retry policy of the coordinator client's request sender.
//!
//! Every request goes through the same policy: on HTTP 200 the body is
//! returned; on 502 or 504 (upstream unavailable) the sender sleeps a fixed
//! interval and retries, up to a bounded number of attempts, after which the
//! call fails with "coordinator is down"; any other status is a final
//! rejection and fails at once.
//!
//! The chosen pair is a 5 second interval and 12 attempts, about a minute of
//! patience in all. `RetryState` holds the decision logic; the unverified
//! sender performs one HTTP round trip per decision and sleeps when told to.

use vstd::prelude::*;

verus! {

/// Seconds slept between attempts after a transient upstream error.
pub const RETRY_INTERVAL_SECONDS: u64 = 5;

/// Attempts made before the sender gives up on transient upstream errors.
pub const DEFAULT_MAX_ATTEMPTS: u64 = 12;

/// What one HTTP status means to the sender.
#[derive(Debug, Clone, Copy, PartialEq, Eq, Structural)]
pub enum StatusClass {
    /// 200: the request went through; return the body.
    Success,
    /// 502 or 504: the upstream is briefly unavailable; worth retrying.
    Transient,
    /// Anything else: a final rejection; never retried.
    Rejected,
}

/// The classification of an HTTP status code.
pub open spec fn spec_classify(status: u16) -> StatusClass {
    if status == 200 {
        StatusClass::Success
    } else if status == 502 || status == 504 {
        StatusClass::Transient
    } else {
        StatusClass::Rejected
    }
}

/// Classify one HTTP status code.
pub fn classify_status(status: u16) -> (c: StatusClass)
    ensures
        c == spec_classify(status),
{
    if status == 200 {
        StatusClass::Success
    } else if status == 502 || status == 504 {
        StatusClass::Transient
    } else {
        StatusClass::Rejected
    }
}

/// What the sender must do after one response.
#[derive(Debug, Clone, Copy, PartialEq, Eq, Structural)]
pub enum RetryDecision {
    /// Return the response body to the caller.
    Accept,
    /// Sleep the backoff interval, then send the request again.
    SleepAndRetry,
    /// Fail now: the coordinator rejected the request for good.
    RejectNow,
    /// Fail now: the retry budget is exhausted, the coordinator is down.
    GiveUp,
}

/// The decision after a response of class `c`, when `used` attempts out of
/// `max` have then been made.
pub open spec fn spec_decision(c: StatusClass, used: nat, max: nat) -> RetryDecision {
    match c {
        StatusClass::Success => RetryDecision::Accept,
        StatusClass::Rejected => RetryDecision::RejectNow,
        StatusClass::Transient => if used >= max {
            RetryDecision::GiveUp
        } else {
            RetryDecision::SleepAndRetry
        },
    }
}

/// The attempt counter of one request being sent.
#[derive(Debug, Clone, Copy, PartialEq, Eq, Structural)]
pub struct RetryState {
    pub attempts_used: u64,
    pub max_attempts: u64,
}

impl RetryState {
    /// A fresh counter for one request, allowed `max_attempts` attempts.
    pub fn new(max_attempts: u64) -> (s: Self)
        requires
            max_attempts >= 1,
        ensures
            s.attempts_used == 0,
            s.max_attempts == max_attempts,
    {
        RetryState { attempts_used: 0, max_attempts }
    }

    /// Record the status of one attempt and decide what to do next: accept
    /// a 200, reject any final status at once, and on a transient status
    /// retry until the budget is spent, then give up.
    pub fn on_response(&mut self, status: u16) -> (d: RetryDecision)
        requires
            old(self).attempts_used < old(self).max_attempts,
        ensures
            final(self).max_attempts == old(self).max_attempts,
            final(self).attempts_used == old(self).attempts_used + 1,
            d == spec_decision(
                spec_classify(status),
                (old(self).attempts_used + 1) as nat,
                old(self).max_attempts as nat,
            ),
    {
        self.attempts_used = self.attempts_used + 1;
        match classify_status(status) {
            StatusClass::Success => RetryDecision::Accept,
            StatusClass::Rejected => RetryDecision::RejectNow,
            StatusClass::Transient => if self.attempts_used >= self.max_attempts {
                RetryDecision::GiveUp
            } else {
                RetryDecision::SleepAndRetry
            },
        }
    }
}

/// How one request ends, and after how many attempts.
#[derive(Debug, Clone, Copy, PartialEq, Eq, Structural)]
pub enum SendOutcome {
    /// A 200 arrived on the given attempt.
    Delivered { attempts: u64 },
    /// A final non-retriable status arrived on the given attempt.
    Rejected { attempts: u64, status: u16 },
    /// Every allowed attempt saw a transient status: the coordinator is down.
    GaveUp { attempts: u64 },
}

/// The outcome of sending one request against the statuses `responses`,
/// attempt `i` being answered by `responses[i]`, with `max` attempts
/// allowed and `i` of them already spent.
pub open spec fn spec_send_outcome_from(responses: Seq<u16>, max: nat, i: nat) -> SendOutcome
    recommends
        max <= u64::MAX,
        responses.len() >= max,
    decreases max - i,
{
    if i >= max || i >= responses.len() {
        SendOutcome::GaveUp { attempts: i as u64 }
    } else {
        match spec_classify(responses[i as int]) {
            StatusClass::Success => SendOutcome::Delivered { attempts: (i + 1) as u64 },
            StatusClass::Rejected => SendOutcome::Rejected {
                attempts: (i + 1) as u64,
                status: responses[i as int],
            },
            StatusClass::Transient => spec_send_outcome_from(responses, max, i + 1),
        }
    }
}

/// The outcome of sending one request, attempt by attempt, against the
/// statuses `responses`.
pub open spec fn spec_send_outcome(responses: Seq<u16>, max: nat) -> SendOutcome {
    spec_send_outcome_from(responses, max, 0)
}

/// Run the retry policy against a simulated coordinator that answers
/// attempt `i` with status `responses[i]`.
pub fn run_with_responses(responses: &Vec<u16>, max_attempts: u64) -> (r: SendOutcome)
    requires
        max_attempts >= 1,
        max_attempts <= usize::MAX,
        responses@.len() >= max_attempts,
    ensures
        r == spec_send_outcome(responses@, max_attempts as nat),
{
    let mut state = RetryState::new(max_attempts);
    loop
        invariant
            max_attempts <= usize::MAX,
            state.max_attempts == max_attempts,
            state.attempts_used < max_attempts,
            responses@.len() >= max_attempts,
            spec_send_outcome(responses@, max_attempts as nat) == spec_send_outcome_from(
                responses@,
                max_attempts as nat,
                state.attempts_used as nat,
            ),
        decreases max_attempts - state.attempts_used,
    {
        let attempt = state.attempts_used;
        let status = responses[attempt as usize];
        match state.on_response(status) {
            RetryDecision::Accept => {
                return SendOutcome::Delivered { attempts: attempt + 1 };
            },
            RetryDecision::RejectNow => {
                return SendOutcome::Rejected { attempts: attempt + 1, status };
            },
            RetryDecision::GiveUp => {
                return SendOutcome::GaveUp { attempts: attempt + 1 };
            },
            RetryDecision::SleepAndRetry => {},
        }
    }
}

/// If the coordinator answers 502 to the first `a` attempts and 200 to
/// attempt `a + 1`, with `a` below the allowed maximum, the request is
/// delivered on attempt `a + 1` and the caller sees no failure.
pub proof fn lemma_retry_delivers_after_transients(responses: Seq<u16>, max: nat, a: nat)
    requires
        max <= u64::MAX,
        a < max,
        a < responses.len(),
        forall|i: int| 0 <= i < a ==> responses[i] == 502,
        responses[a as int] == 200,
    ensures
        spec_send_outcome(responses, max) == (SendOutcome::Delivered { attempts: (a + 1) as u64 }),
{
    lemma_transient_prefix_skipped(responses, max, 0, a);
}

/// If the coordinator answers 502 to every attempt, the sender gives up
/// after exactly the allowed maximum of attempts, and attempts no more.
pub proof fn lemma_retry_gives_up(responses: Seq<u16>, max: nat)
    requires
        max <= u64::MAX,
        max <= responses.len(),
        forall|i: int| 0 <= i < max ==> responses[i] == 502,
    ensures
        spec_send_outcome(responses, max) == (SendOutcome::GaveUp { attempts: max as u64 }),
{
    lemma_transient_prefix_skipped(responses, max, 0, max);
}

/// Transient answers to attempts `i` up to `a` leave the outcome to the
/// attempts from `a` on.
proof fn lemma_transient_prefix_skipped(responses: Seq<u16>, max: nat, i: nat, a: nat)
    requires
        max <= u64::MAX,
        i <= a <= max,
        a <= responses.len(),
        forall|j: int| i <= j < a ==> spec_classify(responses[j]) is Transient,
    ensures
        spec_send_outcome_from(responses, max, i) == spec_send_outcome_from(responses, max, a),
    decreases a - i,
{
    if i < a {
        lemma_transient_prefix_skipped(responses, max, i + 1, a);
    }
}

} // verus!
