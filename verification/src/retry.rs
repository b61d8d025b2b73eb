use vstd::prelude::*;

verus! {

/// A stateless decision table for status-code-driven retries. A response
/// status is either retried, after a fixed backoff delay, or surfaced to the
/// caller unchanged. The policy is immutable once constructed and is consulted
/// only by the operations that explicitly attach it (the final send call).
#[derive(Clone, Debug)]
pub struct RetryPolicy {
    /// Maximum number of retries after the initial call.
    pub max_attempts: u32,
    /// Fixed delay between attempts, in milliseconds; not exponential.
    pub backoff_delay_ms: u64,
    /// The statuses that are retried; every other status ends the loop.
    pub retryable_statuses: Vec<u16>,
}

impl RetryPolicy {
    /// Whether `status` belongs to the set of statuses this policy retries.
    pub open spec fn spec_retryable(&self, status: u16) -> bool {
        self.retryable_statuses@.contains(status)
    }

    /// The policy attached to the send step: up to ten retries, one second
    /// apart, on rate limiting (429), request timeout (408), too-early (425)
    /// and not-found (404). Retrying not-found is deliberate: it masks
    /// read-after-write lag right after a draft is created.
    pub open spec fn is_default_send(&self) -> bool {
        &&& self.max_attempts == 10
        &&& self.backoff_delay_ms == 1000
        &&& self.retryable_statuses@ == seq![429u16, 408u16, 425u16, 404u16]
    }

    pub fn default_send() -> (p: RetryPolicy)
        ensures
            p.is_default_send(),
    {
        let mut v: Vec<u16> = Vec::new();
        v.push(429);
        v.push(408);
        v.push(425);
        v.push(404);
        proof {
            assert(v@ =~= seq![429u16, 408u16, 425u16, 404u16]);
        }
        RetryPolicy { max_attempts: 10, backoff_delay_ms: 1000, retryable_statuses: v }
    }

    pub fn is_retryable(&self, status: u16) -> (r: bool)
        ensures
            r == self.spec_retryable(status),
    {
        let mut i: usize = 0;
        while i < self.retryable_statuses.len()
            invariant
                i <= self.retryable_statuses@.len(),
                forall|j: int| 0 <= j < i ==> self.retryable_statuses@[j] != status,
            decreases self.retryable_statuses@.len() - i,
        {
            if self.retryable_statuses[i] == status {
                return true;
            }
            i = i + 1;
        }
        false
    }

    /// Whether one more retry is allowed for `status` after `retries_done`
    /// retries have already been made.
    pub fn should_retry(&self, status: u16, retries_done: u32) -> (r: bool)
        ensures
            r == (self.spec_retryable(status) && retries_done < self.max_attempts),
    {
        self.is_retryable(status) && retries_done < self.max_attempts
    }

    /// The delay before any retry is the policy's fixed backoff; it does not
    /// grow with the number of retries already made.
    pub fn backoff_before_retry(&self, _retries_done: u32) -> (d: u64)
        ensures
            d == self.backoff_delay_ms,
    {
        self.backoff_delay_ms
    }

    /// Runs the retry loop against the statuses the transport would return:
    /// `statuses@[i]` is the status of the `i`-th call. Returns the number of
    /// retries made together with the final status: the first status outside
    /// the retry set, or, once `max_attempts` retries are exhausted, the last
    /// retryable status received, surfaced unchanged.
    pub fn run_to_completion(&self, statuses: &Vec<u16>) -> (r: (u32, u16))
        requires
            statuses@.len() > self.max_attempts,
        ensures
            r.0 <= self.max_attempts,
            r.0 < statuses@.len(),
            r.1 == statuses@[r.0 as int],
            forall|j: int| 0 <= j < r.0 ==> self.spec_retryable(statuses@[j]),
            self.spec_retryable(r.1) ==> r.0 == self.max_attempts,
    {
        let mut i: u32 = 0;
        loop
            invariant
                i <= self.max_attempts,
                (i as int) < statuses@.len(),
                statuses@.len() > self.max_attempts,
                forall|j: int| 0 <= j < i ==> self.spec_retryable(statuses@[j]),
            decreases self.max_attempts - i,
        {
            let status = statuses[i as usize];
            if !self.is_retryable(status) {
                return (i, status);
            }
            if i == self.max_attempts {
                return (i, status);
            }
            i = i + 1;
        }
    }
}

} // verus!
