//! Retry policy: a fixed attempt budget with exponential backoff.

use crate::clock::duration_nanos;
use crate::clock::NANOS_PER_SEC;
use crate::error::DatadogError;
use std::time::Duration;
use vstd::arithmetic::power2::*;
use vstd::prelude::*;

verus! {

/// Maximum number of retry attempts for failed API requests.
pub const MAX_RETRIES: u32 = 3;

/// The backoff before retry number `retry_count`, in whole seconds.
pub open spec fn backoff_secs(retry_count: nat) -> nat {
    pow2(retry_count)
}

/// Computes `2^exp` for exponents whose power fits in 64 bits.
fn two_to_the(exp: u32) -> (power: u64)
    requires
        exp < 64,
    ensures
        power == pow2(exp as nat),
{
    let mut power: u64 = 1;
    let mut done: u32 = 0;
    proof {
        lemma2_to64();
    }
    while done < exp
        invariant
            done <= exp < 64,
            power == pow2(done as nat),
        decreases exp - done,
    {
        proof {
            lemma_pow2_unfold((done + 1) as nat);
            lemma_pow2_strictly_increases((done + 1) as nat, 64);
            lemma2_to64_rest();
        }
        power = power * 2;
        done = done + 1;
    }
    power
}

/// Exponential backoff for a given retry attempt: `2^retry_count` seconds.
///
/// The delay is not capped; the exponent only has to keep the number of
/// seconds within 64 bits.
pub fn calculate_backoff(retry_count: u32) -> (delay: Duration)
    requires
        retry_count < 64,
    ensures
        duration_nanos(delay) == backoff_secs(retry_count as nat) * NANOS_PER_SEC,
{
    Duration::from_secs(two_to_the(retry_count))
}

/// Whether another retry may be attempted after `current_retry` retries.
pub fn should_retry(current_retry: u32) -> (retry: bool)
    ensures
        retry == (current_retry < MAX_RETRIES),
{
    current_retry < MAX_RETRIES
}

/// The attempts made so far for one request: how many of them were
/// retries.
pub struct RetryState {
    retries: u32,
}

/// What to do after a failed attempt.
#[derive(Debug)]
pub enum RetryStep {
    /// The budget is spent: the request fails with this failure, the last
    /// one seen.
    GiveUp(DatadogError),
    /// Wait this long, then try again.
    RetryAfter(Duration),
}

impl View for RetryState {
    type V = nat;

    closed spec fn view(&self) -> nat {
        self.retries as nat
    }
}

/// How many attempts a request makes in all when every attempt fails,
/// counted from an attempt that is made after `retries` retries.
pub open spec fn attempts_when_all_fail(retries: nat) -> nat
    decreases MAX_RETRIES - retries,
{
    if retries < MAX_RETRIES {
        1 + attempts_when_all_fail(retries + 1)
    } else {
        1
    }
}

/// A request that fails on every attempt is attempted four times in all,
/// once and three retries; the waits before the retries are two, four and
/// eight seconds.
pub proof fn lemma_attempts_when_all_fail()
    ensures
        attempts_when_all_fail(0) == 4,
        backoff_secs(1) == 2,
        backoff_secs(2) == 4,
        backoff_secs(3) == 8,
{
    reveal_with_fuel(attempts_when_all_fail, 5);
    lemma2_to64();
}

impl RetryState {
    #[verifier::type_invariant]
    spec fn within_budget(self) -> bool {
        self.retries <= MAX_RETRIES
    }

    /// The state before the first attempt.
    pub fn new() -> (state: Self)
        ensures
            state@ == 0,
    {
        RetryState { retries: 0 }
    }

    /// How many retries were made so far.
    pub fn retries(&self) -> (retries: u32)
        ensures
            retries == self@,
            retries <= MAX_RETRIES,
    {
        proof {
            use_type_invariant(self);
        }
        self.retries
    }

    /// Decides what follows a failed attempt, whatever the failure: while
    /// the budget lasts another retry is counted and the wait before it
    /// given; once it is spent the failure is handed back.
    pub fn on_failure(&mut self, failure: DatadogError) -> (step: RetryStep)
        ensures
            old(self)@ < MAX_RETRIES ==> {
                &&& final(self)@ == old(self)@ + 1
                &&& step matches RetryStep::RetryAfter(delay)
                &&& duration_nanos(delay) == backoff_secs(final(self)@) * NANOS_PER_SEC
            },
            old(self)@ >= MAX_RETRIES ==> {
                &&& final(self)@ == old(self)@
                &&& step == RetryStep::GiveUp(failure)
            },
    {
        proof {
            use_type_invariant(&*self);
        }
        if !should_retry(self.retries) {
            return RetryStep::GiveUp(failure);
        }
        self.retries = self.retries + 1;
        RetryStep::RetryAfter(calculate_backoff(self.retries))
    }
}

/// Whether `delay` is the backoff before one of the retries that the
/// budget allows.
pub open spec fn is_backoff(delay: Duration) -> bool {
    exists|retry: nat|
        1 <= retry <= MAX_RETRIES && #[trigger] backoff_secs(retry) * NANOS_PER_SEC
            == duration_nanos(delay)
}

/// Whether the attempt that is made after `retries` retries can fail.
pub open spec fn can_fail_at<T, Op: Fn(u32) -> Result<T, DatadogError>>(
    operation: Op,
    retries: u32,
) -> bool {
    exists|failure: DatadogError| #[trigger]
        operation.ensures((retries,), Err::<T, DatadogError>(failure))
}

/// Whether a request that ends with `outcome` can have made `attempts`
/// attempts: the last of them ended with `outcome`, every one before it
/// failed, and a failure only surfaces once the budget is spent. The
/// operation is told how many retries were made before each attempt.
pub open spec fn ends_after<T, Op: Fn(u32) -> Result<T, DatadogError>>(
    operation: Op,
    attempts: nat,
    outcome: Result<T, DatadogError>,
) -> bool {
    &&& 1 <= attempts <= MAX_RETRIES + 1
    &&& operation.ensures(((attempts - 1) as u32,), outcome)
    &&& outcome is Err ==> attempts == MAX_RETRIES + 1
    &&& forall|earlier: u32| earlier < attempts - 1 ==> #[trigger] can_fail_at(operation, earlier)
}

/// Whether `pauses` are the waits of a request that made `attempts`
/// attempts: one before each retry, in order, each the backoff of its
/// retry, and each of them made by a call of `pause`.
pub open spec fn paused_before_retries<Pause: Fn(Duration) -> ()>(
    pause: Pause,
    pauses: Seq<Duration>,
    attempts: nat,
) -> bool {
    &&& pauses.len() + 1 == attempts
    &&& forall|i: int|
        0 <= i < pauses.len() ==> {
            &&& duration_nanos(#[trigger] pauses[i]) == backoff_secs((i + 1) as nat) * NANOS_PER_SEC
            &&& pause.ensures((pauses[i],), ())
        }
}

/// How a request went: what it ended with, and the waits that were made
/// between its attempts.
pub struct Executed<T> {
    /// The first success, or the failure of the last attempt.
    pub outcome: Result<T, DatadogError>,
    /// The wait before each retry, in the order of the retries.
    pub pauses: Vec<Duration>,
}

impl<T> Executed<T> {
    /// How many attempts the request made: one more than it waited.
    pub open spec fn attempts(self) -> nat {
        (self.pauses@.len() + 1) as nat
    }
}

/// Runs `operation` until it succeeds or the retry budget is spent, and
/// calls `pause` with the backoff before every retry, and with nothing
/// else. Hands back the first success, or the failure of the last attempt,
/// together with the waits that were made.
pub fn execute<T, Op: Fn(u32) -> Result<T, DatadogError>, Pause: Fn(Duration) -> ()>(
    operation: Op,
    pause: Pause,
) -> (done: Executed<T>)
    requires
        forall|retries: u32| retries <= MAX_RETRIES ==> operation.requires((retries,)),
        forall|delay: Duration| is_backoff(delay) ==> pause.requires((delay,)),
    ensures
        ends_after(operation, done.attempts(), done.outcome),
        paused_before_retries(pause, done.pauses@, done.attempts()),
{
    let mut state = RetryState::new();
    let mut pauses: Vec<Duration> = Vec::new();
    loop
        invariant
            forall|retries: u32| retries <= MAX_RETRIES ==> operation.requires((retries,)),
            forall|delay: Duration| is_backoff(delay) ==> pause.requires((delay,)),
            state@ <= MAX_RETRIES,
            forall|earlier: u32| earlier < state@ ==> #[trigger] can_fail_at(operation, earlier),
            paused_before_retries(pause, pauses@, state@ + 1),
        decreases MAX_RETRIES - state@,
    {
        let ghost before = state@;
        let retries = state.retries();
        match operation(retries) {
            Ok(value) => {
                proof {
                    assert(ends_after(operation, before + 1, Ok::<T, DatadogError>(value)));
                }
                return Executed { outcome: Ok(value), pauses };
            },
            Err(failure) => {
                proof {
                    assert(operation.ensures((retries,), Err::<T, DatadogError>(failure)));
                    assert(can_fail_at(operation, retries));
                }
                match state.on_failure(failure) {
                    RetryStep::GiveUp(last) => {
                        proof {
                            assert(before >= MAX_RETRIES);
                            assert(last == failure);
                            assert(ends_after(operation, before + 1, Err::<T, DatadogError>(last)));
                        }
                        return Executed { outcome: Err(last), pauses };
                    },
                    RetryStep::RetryAfter(delay) => {
                        proof {
                            assert(backoff_secs(state@) * NANOS_PER_SEC == duration_nanos(delay));
                            assert(is_backoff(delay));
                        }
                        pause(delay);
                        pauses.push(delay);
                    },
                }
            },
        }
    }
}

/// A request that fails on every attempt makes four attempts in all, the
/// first and three retries, before its failure surfaces; and it has
/// waited two, four and eight seconds before the retries.
pub proof fn lemma_failure_surfaces_after_four_attempts<
    T,
    Op: Fn(u32) -> Result<T, DatadogError>,
    Pause: Fn(Duration) -> (),
>(operation: Op, pause: Pause, attempts: nat, outcome: Result<T, DatadogError>, pauses: Seq<Duration>)
    requires
        ends_after(operation, attempts, outcome),
        paused_before_retries(pause, pauses, attempts),
        outcome is Err,
    ensures
        attempts == 4,
        forall|earlier: u32| earlier < 3 ==> #[trigger] can_fail_at(operation, earlier),
        pauses.len() == 3,
        duration_nanos(pauses[0]) == 2 * NANOS_PER_SEC,
        duration_nanos(pauses[1]) == 4 * NANOS_PER_SEC,
        duration_nanos(pauses[2]) == 8 * NANOS_PER_SEC,
{
    lemma2_to64();
    assert(duration_nanos(pauses[0]) == backoff_secs(1) * NANOS_PER_SEC);
    assert(duration_nanos(pauses[1]) == backoff_secs(2) * NANOS_PER_SEC);
    assert(duration_nanos(pauses[2]) == backoff_secs(3) * NANOS_PER_SEC);
}

} // verus!
