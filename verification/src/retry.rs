//! How often and how patiently the service tries to reach Redis before it
//! gives up: a bounded number of attempts with a pause between two of them.

use vstd::prelude::*;

verus! {

/// The message of the error reported once every attempt has failed.
pub const RETRIES_EXHAUSTED_MESSAGE: &'static str = "Over max retry count for redis connection";

/// How many times the channel listener tries to connect.
pub const LISTENER_CONNECT_ATTEMPTS: u32 = 5;

/// Counts connection attempts against a budget. The view is the pair of
/// the attempts made so far and the number allowed.
pub struct ConnectRetry {
    attempts: u32,
    max_attempts: u32,
    timeout_secs: u64,
    wait_secs: u64,
}

/// The state after one more failed attempt: the count goes up while the
/// budget lasts and stays put once it is spent.
pub open spec fn after_failure(state: (nat, nat)) -> (nat, nat) {
    if state.0 < state.1 {
        ((state.0 + 1) as nat, state.1)
    } else {
        state
    }
}

/// The state after `n` more failed attempts.
pub open spec fn after_failures(state: (nat, nat), n: nat) -> (nat, nat)
    decreases n,
{
    if n == 0 {
        state
    } else {
        after_failure(after_failures(state, (n - 1) as nat))
    }
}

impl View for ConnectRetry {
    type V = (nat, nat);

    closed spec fn view(&self) -> (nat, nat) {
        (self.attempts as nat, self.max_attempts as nat)
    }
}

impl ConnectRetry {
    #[verifier::type_invariant]
    spec fn within_budget(self) -> bool {
        self.attempts <= self.max_attempts
    }

    /// The timeout of one attempt, in seconds.
    pub closed spec fn timeout_view(&self) -> u64 {
        self.timeout_secs
    }

    /// The pause after a failed attempt, in seconds.
    pub closed spec fn wait_view(&self) -> u64 {
        self.wait_secs
    }

    /// A budget of `max_attempts` attempts, none made yet.
    pub fn new(max_attempts: u32, timeout_secs: u64, wait_secs: u64) -> (r: Self)
        ensures
            r@ == (0nat, max_attempts as nat),
            r.timeout_view() == timeout_secs,
            r.wait_view() == wait_secs,
    {
        ConnectRetry { attempts: 0, max_attempts, timeout_secs, wait_secs }
    }

    /// The policy for taking a lock: ten attempts of at most thirty seconds
    /// each, five seconds apart.
    pub fn for_lock() -> (r: Self)
        ensures
            r@ == (0nat, 10nat),
            r.timeout_view() == 30,
            r.wait_view() == 5,
    {
        ConnectRetry::new(10, 30, 5)
    }

    /// The policy of the channel listener: `max_retries` attempts of at most
    /// ten seconds each, ten seconds apart.
    pub fn for_listener(max_retries: u32) -> (r: Self)
        ensures
            r@ == (0nat, max_retries as nat),
            r.timeout_view() == 10,
            r.wait_view() == 10,
    {
        ConnectRetry::new(max_retries, 10, 10)
    }

    /// Whether the budget allows another attempt.
    pub fn may_attempt(&self) -> (b: bool)
        ensures
            b == (self@.0 < self@.1),
    {
        self.attempts < self.max_attempts
    }

    /// The timeout of one attempt, in seconds.
    pub fn timeout_secs(&self) -> (t: u64)
        ensures
            t == self.timeout_view(),
    {
        self.timeout_secs
    }

    /// Records a failed attempt. Returns the pause to take before the next
    /// attempt, or `None` when the budget is spent and the caller gives up.
    pub fn record_failure(&mut self) -> (wait: Option<u64>)
        ensures
            final(self)@ == after_failure(old(self)@),
            final(self).timeout_view() == old(self).timeout_view(),
            final(self).wait_view() == old(self).wait_view(),
            wait == (if final(self)@.0 < final(self)@.1 {
                Some(old(self).wait_view())
            } else {
                None::<u64>
            }),
    {
        proof {
            use_type_invariant(&*self);
        }
        if self.attempts < self.max_attempts {
            self.attempts = self.attempts + 1;
        }
        if self.attempts < self.max_attempts {
            Some(self.wait_secs)
        } else {
            None
        }
    }
}

/// Starting from a fresh budget of `max` attempts, `n` failures leave
/// `min(n, max)` attempts made: the count never exceeds the budget.
pub proof fn lemma_attempts_never_exceed_budget(max: nat, n: nat)
    ensures
        after_failures((0nat, max), n) == (if n < max { (n, max) } else { (max, max) }),
    decreases n,
{
    if n > 0 {
        lemma_attempts_never_exceed_budget(max, (n - 1) as nat);
    }
}

/// With a budget of `max` attempts, the caller may try again after each of
/// the first `max - 1` failures and gives up at the `max`-th.
pub proof fn lemma_gives_up_exactly_at_budget(max: nat, n: nat)
    requires
        n <= max,
    ensures
        (after_failures((0nat, max), n).0 < max) <==> n < max,
{
    lemma_attempts_never_exceed_budget(max, n);
}

} // verus!
