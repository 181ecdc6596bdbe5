use vstd::prelude::*;
use crate::clock::{elapsed_nanos, instant_now};

verus! {

/// The state of a circuit breaker.
#[derive(Debug, Clone, Copy, PartialEq, Eq, Structural)]
pub enum BreakerState {
    /// Calls go through.
    Closed,
    /// Calls are refused until the timeout has passed since the last failure.
    Open,
    /// One trial is let through after the timeout.
    HalfOpen,
}

/// What a circuit breaker holds, as the contracts speak of it.
pub struct BreakerView {
    pub state: BreakerState,
    pub failures: u32,
    /// Whether a failure has ever been recorded (and so its time is known).
    pub failed_before: bool,
    pub failure_threshold: u32,
    pub timeout_secs: u64,
}

impl BreakerView {
    /// The breaker is open only once the failures have reached the threshold.
    pub open spec fn well_formed(self) -> bool {
        self.state == BreakerState::Open ==> self.failures >= self.failure_threshold
    }

    /// The breaker after a recorded success: closed, with no failures counted.
    pub open spec fn after_success(self) -> BreakerView {
        BreakerView { state: BreakerState::Closed, failures: 0, ..self }
    }

    /// The breaker after a recorded failure: one more failure counted, and
    /// open once the count reaches the threshold.
    pub open spec fn after_failure(self) -> BreakerView {
        let failures = (self.failures + 1) as u32;
        BreakerView {
            state: if failures >= self.failure_threshold {
                BreakerState::Open
            } else {
                self.state
            },
            failures,
            failed_before: true,
            ..self
        }
    }

    /// The breaker after `k` failures in a row.
    pub open spec fn after_failures(self, k: nat) -> BreakerView
        decreases k,
    {
        if k == 0 {
            self
        } else {
            self.after_failures((k - 1) as nat).after_failure()
        }
    }

    /// Whether the timeout has passed when `elapsed_nanos` have gone by since
    /// the last failure.
    pub open spec fn timed_out(self, elapsed_nanos: u128) -> bool {
        elapsed_nanos > self.timeout_secs * 1_000_000_000
    }

    /// Whether a call may go through, `elapsed_nanos` after the last failure.
    pub open spec fn allows(self, elapsed_nanos: u128) -> bool {
        match self.state {
            BreakerState::Closed => true,
            BreakerState::HalfOpen => true,
            BreakerState::Open => self.failed_before && self.timed_out(elapsed_nanos),
        }
    }

    /// The breaker after asking whether a call may go through: an open
    /// breaker whose timeout has passed turns half-open.
    pub open spec fn after_check(self, elapsed_nanos: u128) -> BreakerView {
        if self.state == BreakerState::Open && self.allows(elapsed_nanos) {
            BreakerView { state: BreakerState::HalfOpen, ..self }
        } else {
            self
        }
    }
}

/// The name under which a state is reported.
pub open spec fn state_name(s: BreakerState) -> Seq<char> {
    match s {
        BreakerState::Closed => "closed"@,
        BreakerState::Open => "open"@,
        BreakerState::HalfOpen => "half_open"@,
    }
}

/// Guards calls to a failing service: after `failure_threshold` failures it
/// opens and refuses calls until `timeout_secs` have passed since the last
/// failure, then lets a trial through (half-open); a success closes it.
pub struct CircuitBreaker {
    state: BreakerState,
    failures: u32,
    last_failure_time: Option<std::time::Instant>,
    failure_threshold: u32,
    timeout_secs: u64,
}

impl View for CircuitBreaker {
    type V = BreakerView;

    closed spec fn view(&self) -> BreakerView {
        BreakerView {
            state: self.state,
            failures: self.failures,
            failed_before: self.last_failure_time is Some,
            failure_threshold: self.failure_threshold,
            timeout_secs: self.timeout_secs,
        }
    }
}

impl CircuitBreaker {
    /// A closed breaker with no failures recorded.
    pub fn new(failure_threshold: u32, timeout_secs: u64) -> (b: Self)
        ensures
            b@ == (BreakerView {
                state: BreakerState::Closed,
                failures: 0,
                failed_before: false,
                failure_threshold,
                timeout_secs,
            }),
            b@.well_formed(),
    {
        CircuitBreaker {
            state: BreakerState::Closed,
            failures: 0,
            last_failure_time: None,
            failure_threshold,
            timeout_secs,
        }
    }

    /// The current state.
    pub fn current_state(&self) -> (s: BreakerState)
        ensures
            s == self@.state,
    {
        self.state
    }

    /// The number of failures counted since the last success.
    pub fn failures(&self) -> (n: u32)
        ensures
            n == self@.failures,
    {
        self.failures
    }

    /// The name of the current state: `closed`, `open` or `half_open`.
    pub fn state(&self) -> (s: &'static str)
        ensures
            s@ == state_name(self@.state),
    {
        match self.state {
            BreakerState::Closed => "closed",
            BreakerState::Open => "open",
            BreakerState::HalfOpen => "half_open",
        }
    }

    /// Decides whether a call may go through, given the time elapsed since
    /// the last failure; an open breaker whose timeout has passed turns
    /// half-open and lets the call through.
    pub fn can_execute_after(&mut self, elapsed_nanos: u128) -> (ok: bool)
        ensures
            ok == old(self)@.allows(elapsed_nanos),
            final(self)@ == old(self)@.after_check(elapsed_nanos),
    {
        match self.state {
            BreakerState::Closed => true,
            BreakerState::HalfOpen => true,
            BreakerState::Open => {
                if self.last_failure_time.is_some() && elapsed_nanos > (self.timeout_secs as u128)
                    * 1_000_000_000 {
                    self.state = BreakerState::HalfOpen;
                    true
                } else {
                    false
                }
            },
        }
    }

    /// Whether a call may go through now. A closed or half-open breaker lets
    /// it through unchanged; an open one refuses it unless the timeout has
    /// passed since the last failure, in which case it turns half-open and
    /// lets it through. How much time has passed is read from the clock.
    pub fn can_execute(&mut self) -> (ok: bool)
        ensures
            exists|elapsed: u128|
                ok == old(self)@.allows(elapsed) && final(self)@ == old(self)@.after_check(elapsed),
    {
        let elapsed = match &self.last_failure_time {
            Some(t) => {
                if self.state == BreakerState::Open {
                    elapsed_nanos(t)
                } else {
                    0
                }
            },
            None => 0,
        };
        self.can_execute_after(elapsed)
    }

    /// Records a successful call: the breaker closes and forgets its failures.
    pub fn record_success(&mut self)
        ensures
            final(self)@ == old(self)@.after_success(),
            final(self)@.well_formed(),
    {
        self.failures = 0;
        self.state = BreakerState::Closed;
    }

    /// Records a failed call at the current time; the breaker opens once the
    /// failures reach the threshold.
    pub fn record_failure(&mut self)
        requires
            old(self)@.failures < u32::MAX,
        ensures
            final(self)@ == old(self)@.after_failure(),
            old(self)@.well_formed() ==> final(self)@.well_formed(),
    {
        let failures = self.failures + 1;
        self.failures = failures;
        self.last_failure_time = Some(instant_now());
        if failures >= self.failure_threshold {
            self.state = BreakerState::Open;
        }
    }
}

impl Clone for CircuitBreaker {
    fn clone(&self) -> (c: Self)
        ensures
            c@ == self@,
    {
        CircuitBreaker {
            state: self.state,
            failures: self.failures,
            last_failure_time: self.last_failure_time,
            failure_threshold: self.failure_threshold,
            timeout_secs: self.timeout_secs,
        }
    }
}

/// From a fresh breaker with a positive threshold, `k` failures in a row
/// leave it open exactly when `k` has reached the threshold.
pub proof fn lemma_opens_at_threshold(threshold: u32, timeout_secs: u64, k: nat)
    requires
        threshold > 0,
        k < u32::MAX,
    ensures
        ({
            let v = BreakerView {
                state: BreakerState::Closed,
                failures: 0,
                failed_before: false,
                failure_threshold: threshold,
                timeout_secs,
            }.after_failures(k);
            &&& v.failures == k
            &&& v.failure_threshold == threshold
            &&& (v.state == BreakerState::Open <==> k >= threshold)
            &&& (k > 0 ==> v.failed_before)
        }),
    decreases k,
{
    let v0 = BreakerView {
        state: BreakerState::Closed,
        failures: 0,
        failed_before: false,
        failure_threshold: threshold,
        timeout_secs,
    };
    if k > 0 {
        lemma_opens_at_threshold(threshold, timeout_secs, (k - 1) as nat);
        let prev = v0.after_failures((k - 1) as nat);
        assert(v0.after_failures(k) == prev.after_failure());
    } else {
        assert(v0.after_failures(0) == v0);
    }
}

/// A success always leaves the breaker closed with no failures, and the
/// breaker then lets calls through.
pub proof fn lemma_success_closes(v: BreakerView, elapsed_nanos: u128)
    ensures
        v.after_success().state == BreakerState::Closed,
        v.after_success().failures == 0,
        v.after_success().allows(elapsed_nanos),
        v.after_success().well_formed(),
{
}

/// An open breaker refuses calls until its timeout has passed since the last
/// failure, and once it has passed it lets one through and turns half-open.
pub proof fn lemma_open_waits_for_timeout(v: BreakerView, elapsed_nanos: u128)
    requires
        v.state == BreakerState::Open,
        v.failed_before,
    ensures
        v.allows(elapsed_nanos) <==> elapsed_nanos > v.timeout_secs * 1_000_000_000,
        v.allows(elapsed_nanos) ==> v.after_check(elapsed_nanos).state == BreakerState::HalfOpen,
        !v.allows(elapsed_nanos) ==> v.after_check(elapsed_nanos) == v,
{
}

/// Asking whether a call may go through changes nothing but, at most, an
/// open breaker into a half-open one; well-formedness is kept.
pub proof fn lemma_check_keeps_counts(v: BreakerView, elapsed_nanos: u128)
    ensures
        v.after_check(elapsed_nanos).failures == v.failures,
        v.after_check(elapsed_nanos).failure_threshold == v.failure_threshold,
        v.state != BreakerState::Open ==> v.after_check(elapsed_nanos) == v,
        v.well_formed() ==> v.after_check(elapsed_nanos).well_formed(),
{
}

} // verus!
