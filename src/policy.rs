//! Retry classification and backoff.
use vstd::prelude::*;

verus! {

/// Statuses that are worth another attempt.
pub open spec fn is_retriable_code(code: u16) -> bool {
    code == 408 || code == 429 || code == 500 || code == 502 || code == 503 || code == 504
}

/// Whether an HTTP status code is transient.
pub fn retriable_status(code: u16) -> (r: bool)
    ensures
        r == is_retriable_code(code),
{
    code == 500 || code == 502 || code == 503 || code == 504 || code == 429 || code == 408
}

/// The shortest wait between two attempts, in milliseconds.
pub const MIN_DELAY_MS: u64 = 1000;

/// `min(max, max(1s, 1.5 * current))`, in whole milliseconds.
pub open spec fn next_delay(current: int, max: int) -> int {
    let grown = current + current / 2;
    let floored = if grown < MIN_DELAY_MS { MIN_DELAY_MS as int } else { grown };
    if floored > max { max } else { floored }
}

/// Next backoff delay (milliseconds) after waiting `current_ms`, capped at `max_ms`.
pub fn backoff(current_ms: u64, max_ms: u64) -> (r: u64)
    ensures
        r == next_delay(current_ms as int, max_ms as int),
{
    let half = current_ms / 2;
    if current_ms >= max_ms || half >= max_ms - current_ms {
        return max_ms;
    }
    let grown = current_ms + half;
    let floored = if grown < MIN_DELAY_MS { MIN_DELAY_MS } else { grown };
    if floored > max_ms { max_ms } else { floored }
}

/// Laws of the backoff: the delay never exceeds the ceiling, grows (or
/// stays) with the current delay, and never shrinks while under the ceiling.
pub proof fn lemma_backoff_monotonic(a: int, b: int, max: int)
    requires
        0 <= a <= b,
    ensures
        next_delay(a, max) <= next_delay(b, max),
        next_delay(a, max) <= max,
        a <= max ==> a <= next_delay(a, max),
{
}

/// What the request primitive does with the outcome of one attempt.
#[derive(PartialEq, Eq, Structural, Clone, Copy, Debug)]
pub enum RequestDecision {
    /// Hand the response to the caller.
    Deliver,
    /// Wait, then send the request again.
    Retry,
    /// The connection failed and the budget is spent.
    GiveUp,
}

/// A counter after one more failure; it stops at the largest `usize`.
pub open spec fn bump(n: usize) -> int {
    if n < usize::MAX {
        n + 1
    } else {
        n as int
    }
}

/// The attempt counter of one request.
pub struct RetryBudget {
    pub attempts: usize,
    pub max_attempts: usize,
}

impl RetryBudget {
    pub fn new(max_attempts: usize) -> (r: RetryBudget)
        ensures
            r.attempts == 0,
            r.max_attempts == max_attempts,
    {
        RetryBudget { attempts: 0, max_attempts }
    }

    /// Takes the outcome of one attempt: a response status, or `None` when no
    /// response came. A transient status or a failed connection counts
    /// against the budget and is retried while the budget lasts; once it is
    /// spent a response is delivered as it is and a failed connection is
    /// given up. Any other status is delivered at once.
    pub fn on_outcome(&mut self, status: Option<u16>) -> (r: RequestDecision)
        ensures
            final(self).max_attempts == old(self).max_attempts,
            match status {
                Some(code) => if is_retriable_code(code) {
                    final(self).attempts == bump(old(self).attempts) && r == if final(self).attempts
                        >= final(self).max_attempts {
                        RequestDecision::Deliver
                    } else {
                        RequestDecision::Retry
                    }
                } else {
                    final(self).attempts == old(self).attempts && r == RequestDecision::Deliver
                },
                None => final(self).attempts == bump(old(self).attempts) && r == if final(self).attempts
                    >= final(self).max_attempts {
                    RequestDecision::GiveUp
                } else {
                    RequestDecision::Retry
                },
            },
    {
        let transient = match status {
            Some(code) => retriable_status(code),
            None => true,
        };
        if !transient {
            return RequestDecision::Deliver;
        }
        if self.attempts < usize::MAX {
            self.attempts = self.attempts + 1;
        }
        if self.attempts >= self.max_attempts {
            if status.is_some() {
                RequestDecision::Deliver
            } else {
                RequestDecision::GiveUp
            }
        } else {
            RequestDecision::Retry
        }
    }
}

/// Whether a status is a success (2xx).
pub open spec fn is_success(status: u16) -> bool {
    200 <= status <= 299
}

/// Whether a status is a success (2xx).
pub fn success_status(status: u16) -> (r: bool)
    ensures
        r == is_success(status),
{
    200 <= status && status <= 299
}

} // verus!
