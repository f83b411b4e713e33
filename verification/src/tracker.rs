//! Following an operation until it ends.
//!
//! The tracker decides; it neither fetches nor sleeps. Whoever drives it fetches
//! the operation, hands it over with the time that has passed since the wait
//! began, and does what the returned step says: sleep and fetch again, or stop.
//! Between two fetches nothing is held: each is a request of its own.

use crate::error::{OperationError, OperationErrorView};
use crate::operation::{Operation, OperationHandle, OperationHandleView, OperationView};
use crate::types::{status_of_code, ResourceStatus, UnknownStatus};
use vstd::arithmetic::power2::{lemma_pow2_unfold, pow2};
use vstd::prelude::*;

verus! {

/// Where the tracker stands.
#[derive(Clone, Copy, Debug, PartialEq, Eq, Structural)]
pub enum TrackerState {
    /// Nothing has been fetched yet.
    Created,
    /// The last status fetched says that the work goes on.
    Polling,
    Succeeded,
    Failed,
    Canceled,
}

/// The state that a status puts the tracker in: `Polling` for the band of work
/// in progress, and one final state for each of the three final codes.
pub open spec fn state_for(status: ResourceStatus) -> TrackerState {
    if status.in_progress() {
        TrackerState::Polling
    } else if status == ResourceStatus::Success {
        TrackerState::Succeeded
    } else if status == ResourceStatus::Failure {
        TrackerState::Failed
    } else {
        TrackerState::Canceled
    }
}

/// The state that a code on the wire puts the tracker in.
pub open spec fn state_for_code(code: u64) -> Result<TrackerState, UnknownStatus> {
    match status_of_code(code) {
        Some(status) => Ok(state_for(status)),
        None => Err(UnknownStatus { code }),
    }
}

impl TrackerState {
    pub fn of_status(status: ResourceStatus) -> (r: TrackerState)
        ensures
            r == state_for(status),
    {
        match status {
            ResourceStatus::Success => TrackerState::Succeeded,
            ResourceStatus::Failure => TrackerState::Failed,
            ResourceStatus::Canceled => TrackerState::Canceled,
            _ => TrackerState::Polling,
        }
    }

    /// The state for a code as it came over the wire. A code outside the
    /// enumeration puts the tracker in no state: it is refused.
    pub fn of_code(code: u64) -> (r: Result<TrackerState, UnknownStatus>)
        ensures
            r == state_for_code(code),
    {
        match ResourceStatus::from_code(code) {
            Ok(status) => Ok(TrackerState::of_status(status)),
            Err(unknown) => Err(unknown),
        }
    }

    /// Whether the wait is over in this state.
    pub open spec fn terminal(self) -> bool {
        self == TrackerState::Succeeded || self == TrackerState::Failed || self
            == TrackerState::Canceled
    }

    #[verifier::when_used_as_spec(terminal)]
    pub fn is_terminal(self) -> (r: bool)
        ensures
            r == self.terminal(),
    {
        match self {
            TrackerState::Succeeded | TrackerState::Failed | TrackerState::Canceled => true,
            _ => false,
        }
    }
}

/// Codes 100 to 113 mean `Polling`, 200 `Succeeded`, 400 `Failed`, 401
/// `Canceled`, and every other code is refused as unknown.
pub proof fn lemma_status_partition(code: u64)
    ensures
        100 <= code <= 113 ==> state_for_code(code) == Ok::<TrackerState, UnknownStatus>(
            TrackerState::Polling,
        ),
        code == 200 ==> state_for_code(code) == Ok::<TrackerState, UnknownStatus>(
            TrackerState::Succeeded,
        ),
        code == 400 ==> state_for_code(code) == Ok::<TrackerState, UnknownStatus>(
            TrackerState::Failed,
        ),
        code == 401 ==> state_for_code(code) == Ok::<TrackerState, UnknownStatus>(
            TrackerState::Canceled,
        ),
        !(100 <= code <= 113 || code == 200 || code == 400 || code == 401) ==> state_for_code(code)
            == Err::<TrackerState, UnknownStatus>(UnknownStatus { code }),
{
}

/// How long to sleep between two fetches.
#[derive(Clone, Copy, Debug, PartialEq, Eq, Structural)]
pub struct PollPolicy {
    /// The first sleep, in milliseconds.
    pub interval_ms: u64,
    /// Whether each sleep is twice the one before.
    pub backoff: bool,
    /// With `backoff`, no sleep is longer than this.
    pub max_interval_ms: u64,
}

impl PollPolicy {
    /// The first sleep.
    pub open spec fn first_delay(self) -> u64 {
        if self.backoff && self.interval_ms > self.max_interval_ms {
            self.max_interval_ms
        } else {
            self.interval_ms
        }
    }

    /// The sleep that follows a sleep of `delay`.
    pub open spec fn grown(self, delay: u64) -> u64 {
        if !self.backoff {
            delay
        } else if 2 * delay >= self.max_interval_ms {
            self.max_interval_ms
        } else {
            (2 * delay) as u64
        }
    }

    /// The sleep after `n` earlier ones.
    pub open spec fn nth_delay(self, n: nat) -> u64
        decreases n,
    {
        if n == 0 {
            self.first_delay()
        } else {
            self.grown(self.nth_delay((n - 1) as nat))
        }
    }

    /// Always the same sleep.
    pub fn fixed(interval_ms: u64) -> (r: PollPolicy)
        ensures
            r == (PollPolicy { interval_ms, backoff: false, max_interval_ms: interval_ms }),
    {
        PollPolicy { interval_ms, backoff: false, max_interval_ms: interval_ms }
    }

    /// Sleeps that double, up to `max_interval_ms`.
    pub fn exponential(interval_ms: u64, max_interval_ms: u64) -> (r: PollPolicy)
        ensures
            r == (PollPolicy { interval_ms, backoff: true, max_interval_ms }),
    {
        PollPolicy { interval_ms, backoff: true, max_interval_ms }
    }

    pub fn initial_delay(&self) -> (r: u64)
        ensures
            r == self.first_delay(),
    {
        if self.backoff && self.interval_ms > self.max_interval_ms {
            self.max_interval_ms
        } else {
            self.interval_ms
        }
    }

    pub fn next_delay(&self, delay: u64) -> (r: u64)
        ensures
            r == self.grown(delay),
    {
        if !self.backoff {
            delay
        } else if delay >= self.max_interval_ms - self.max_interval_ms / 2 {
            self.max_interval_ms
        } else {
            2 * delay
        }
    }
}

/// Without backoff every sleep is the interval. With backoff the sleep after
/// `n` earlier ones is the interval doubled `n` times, or the maximum where
/// that is less.
pub proof fn lemma_nth_delay(policy: PollPolicy, n: nat)
    ensures
        !policy.backoff ==> policy.nth_delay(n) == policy.interval_ms,
        policy.backoff ==> policy.nth_delay(n) == if policy.interval_ms * pow2(n)
            >= policy.max_interval_ms {
            policy.max_interval_ms as int
        } else {
            policy.interval_ms * pow2(n)
        },
    decreases n,
{
    if n == 0 {
        assert(pow2(0) == 1) by {
            vstd::arithmetic::power2::lemma2_to64();
        }
    } else {
        lemma_nth_delay(policy, (n - 1) as nat);
        lemma_pow2_unfold(n);
        let before = policy.interval_ms * pow2((n - 1) as nat);
        assert(policy.interval_ms * pow2(n) == 2 * before) by (nonlinear_arith)
            requires
                pow2(n) == 2 * pow2((n - 1) as nat),
                before == policy.interval_ms * pow2((n - 1) as nat),
        ;
        assert(before >= 0) by (nonlinear_arith)
            requires
                before == policy.interval_ms * pow2((n - 1) as nat),
        ;
    }
}

/// The wait for one operation.
#[derive(Debug, PartialEq, Eq)]
pub struct Tracker {
    pub handle: OperationHandle,
    pub policy: PollPolicy,
    /// How long the wait may take, in milliseconds; `None` for as long as it takes.
    pub timeout_ms: Option<u64>,
    pub state: TrackerState,
    /// The next sleep, should one be called for.
    pub next_delay_ms: u64,
}

/// What the tracker asks for after a fetch.
#[derive(Debug, PartialEq, Eq)]
pub enum Step {
    /// Sleep this long, then fetch the operation again.
    Sleep { millis: u64 },
    /// The wait is over.
    Done { outcome: Result<Operation, OperationError> },
}

pub ghost struct TrackerView {
    pub handle: OperationHandleView,
    pub policy: PollPolicy,
    pub timeout_ms: Option<u64>,
    pub state: TrackerState,
    pub next_delay_ms: u64,
}

pub ghost enum StepView {
    Sleep { millis: u64 },
    Done { outcome: Result<OperationView, OperationErrorView> },
}

impl View for Tracker {
    type V = TrackerView;

    open spec fn view(&self) -> TrackerView {
        TrackerView {
            handle: self.handle@,
            policy: self.policy,
            timeout_ms: self.timeout_ms,
            state: self.state,
            next_delay_ms: self.next_delay_ms,
        }
    }
}

impl View for Step {
    type V = StepView;

    open spec fn view(&self) -> StepView {
        match self {
            Step::Sleep { millis } => StepView::Sleep { millis: *millis },
            Step::Done { outcome } => StepView::Done {
                outcome: match outcome {
                    Ok(operation) => Ok(operation@),
                    Err(e) => Err(e@),
                },
            },
        }
    }
}

/// How a finished operation ended; nothing for one that goes on. Success
/// yields the operation, failure the daemon's own description of it.
pub open spec fn outcome_of(operation: OperationView) -> Option<
    Result<OperationView, OperationErrorView>,
> {
    match state_for(operation.status) {
        TrackerState::Succeeded => Some(Ok(operation)),
        TrackerState::Failed => Some(Err(OperationErrorView::Failed(operation.err))),
        TrackerState::Canceled => Some(Err(OperationErrorView::Canceled)),
        _ => None,
    }
}

/// Whether the time allowed for the wait is used up.
pub open spec fn timed_out(timeout_ms: Option<u64>, elapsed_ms: u64) -> bool {
    timeout_ms matches Some(limit) && elapsed_ms >= limit
}

/// The sleep before the next fetch: the delay that is due, cut short where the
/// time allowed would end before it.
pub open spec fn nap(timeout_ms: Option<u64>, delay_ms: u64, elapsed_ms: u64) -> u64 {
    match timeout_ms {
        Some(limit) => if limit - elapsed_ms < delay_ms {
            (limit - elapsed_ms) as u64
        } else {
            delay_ms
        },
        None => delay_ms,
    }
}

/// What the tracker asks for, given the operation as just fetched and the time
/// that has passed since the wait began. A finished operation ends the wait
/// whatever the clock says; only an operation that goes on can time out.
pub open spec fn step_of(tracker: TrackerView, operation: OperationView, elapsed_ms: u64)
    -> StepView {
    match outcome_of(operation) {
        Some(outcome) => StepView::Done { outcome },
        None => if timed_out(tracker.timeout_ms, elapsed_ms) {
            StepView::Done { outcome: Err(OperationErrorView::TimedOut) }
        } else {
            StepView::Sleep { millis: nap(tracker.timeout_ms, tracker.next_delay_ms, elapsed_ms) }
        },
    }
}

impl Tracker {
    /// A wait that has not begun.
    pub fn new(handle: OperationHandle, policy: PollPolicy, timeout_ms: Option<u64>) -> (r:
        Tracker)
        ensures
            r@ == (TrackerView {
                handle: handle@,
                policy,
                timeout_ms,
                state: TrackerState::Created,
                next_delay_ms: policy.first_delay(),
            }),
    {
        let next_delay_ms = policy.initial_delay();
        Tracker { handle, policy, timeout_ms, state: TrackerState::Created, next_delay_ms }
    }

    /// Takes in the operation as just fetched, `elapsed_ms` after the wait
    /// began, and says what to do next. The tracker keeps nothing of the
    /// operation but the state it implies, so the same finished operation gives
    /// the same outcome however often it is handed in. Running out of time ends
    /// the wait, not the operation: the state stays `Polling`.
    pub fn observe(&mut self, operation: Operation, elapsed_ms: u64) -> (step: Step)
        ensures
            step@ == step_of(old(self)@, operation@, elapsed_ms),
            final(self)@ == (TrackerView {
                state: state_for(operation@.status),
                next_delay_ms: if step@ is Sleep {
                    old(self).policy.grown(old(self).next_delay_ms)
                } else {
                    old(self).next_delay_ms
                },
                ..old(self)@
            }),
    {
        self.state = TrackerState::of_status(operation.status);
        match self.state {
            TrackerState::Succeeded => Step::Done { outcome: Ok(operation) },
            TrackerState::Failed => Step::Done {
                outcome: Err(OperationError::Failed(operation.err)),
            },
            TrackerState::Canceled => Step::Done { outcome: Err(OperationError::Canceled) },
            _ => {
                let delay = self.next_delay_ms;
                let millis = match self.timeout_ms {
                    Some(limit) => {
                        if elapsed_ms >= limit {
                            return Step::Done { outcome: Err(OperationError::TimedOut) };
                        }
                        if limit - elapsed_ms < delay {
                            limit - elapsed_ms
                        } else {
                            delay
                        }
                    },
                    None => delay,
                };
                self.next_delay_ms = self.policy.next_delay(delay);
                Step::Sleep { millis }
            },
        }
    }
}

/// An operation that has ended ends the wait at once: no sleep is asked for,
/// whatever the timeout, the clock and the tracker's own state.
pub proof fn lemma_finished_never_sleeps(
    tracker: TrackerView,
    operation: OperationView,
    elapsed_ms: u64,
)
    requires
        !operation.status.in_progress(),
    ensures
        step_of(tracker, operation, elapsed_ms) is Done,
        step_of(tracker, operation, elapsed_ms) == (StepView::Done {
            outcome: outcome_of(operation)->Some_0,
        }),
        !(step_of(tracker, operation, elapsed_ms)->Done_outcome matches Err(
            OperationErrorView::TimedOut,
        )),
{
}

/// A failed operation ends the wait with the daemon's own description of the
/// failure, a canceled one with a cancellation, and one that succeeded with the
/// operation itself.
pub proof fn lemma_outcomes(tracker: TrackerView, operation: OperationView, elapsed_ms: u64)
    ensures
        operation.status == ResourceStatus::Failure ==> step_of(tracker, operation, elapsed_ms)
            == (StepView::Done { outcome: Err(OperationErrorView::Failed(operation.err)) }),
        operation.status == ResourceStatus::Canceled ==> step_of(tracker, operation, elapsed_ms)
            == (StepView::Done { outcome: Err(OperationErrorView::Canceled) }),
        operation.status == ResourceStatus::Success ==> step_of(tracker, operation, elapsed_ms)
            == (StepView::Done { outcome: Ok(operation) }),
{
}

/// Handing in the same finished operation again gives the same outcome.
pub proof fn lemma_finished_is_stable(
    first: TrackerView,
    second: TrackerView,
    operation: OperationView,
    elapsed_first: u64,
    elapsed_second: u64,
)
    requires
        !operation.status.in_progress(),
    ensures
        step_of(first, operation, elapsed_first) == step_of(second, operation, elapsed_second),
{
}

/// An operation that goes on never ends the wait by itself: the tracker sleeps,
/// for no longer than the time that is left, or reports that time has run out.
pub proof fn lemma_unfinished_waits(tracker: TrackerView, operation: OperationView, elapsed_ms: u64)
    requires
        operation.status.in_progress(),
    ensures
        match step_of(tracker, operation, elapsed_ms) {
            StepView::Sleep { millis } => !timed_out(tracker.timeout_ms, elapsed_ms) && millis
                <= tracker.next_delay_ms && (tracker.timeout_ms matches Some(limit) ==> elapsed_ms
                + millis <= limit),
            StepView::Done { outcome } => timed_out(tracker.timeout_ms, elapsed_ms) && outcome
                == Err::<OperationView, OperationErrorView>(OperationErrorView::TimedOut),
        },
{
}

} // verus!
