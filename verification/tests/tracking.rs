use nlxd::error::OperationError;
use nlxd::json::Json;
use nlxd::operation::{Operation, OperationClass, OperationHandle};
use nlxd::timestamp::Timestamp;
use nlxd::tracker::{PollPolicy, Step, Tracker, TrackerState};
use nlxd::types::ResourceStatus;

fn operation(code: u64, err: &str) -> Operation {
    Operation {
        id: "op1".to_string(),
        class: OperationClass::Task,
        created_at: Timestamp::parse("2024-01-02T03:04:05Z").unwrap(),
        updated_at: Timestamp::parse("2024-01-02T03:04:05Z").unwrap(),
        description: "Creating instance".to_string(),
        err: err.to_string(),
        location: "/1.0/operations/op1".to_string(),
        may_cancel: true,
        metadata: Json::Null,
        resources: Vec::new(),
        status: ResourceStatus::from_code(code).unwrap(),
    }
}

fn handle() -> OperationHandle {
    OperationHandle { id: "op1".to_string(), location: "/1.0/operations/op1".to_string() }
}

#[test]
fn a_new_tracker_has_fetched_nothing() {
    let tracker = Tracker::new(handle(), PollPolicy::fixed(250), Some(1000));
    assert_eq!(tracker.state, TrackerState::Created);
    assert_eq!(tracker.next_delay_ms, 250);
    assert_eq!(tracker.timeout_ms, Some(1000));
    assert_eq!(tracker.handle, handle());
}

#[test]
fn a_finished_operation_ends_a_wait_of_no_time_without_sleeping() {
    let mut tracker = Tracker::new(handle(), PollPolicy::fixed(250), Some(0));
    let step = tracker.observe(operation(200, ""), 0);
    assert_eq!(step, Step::Done { outcome: Ok(operation(200, "")) });
    assert_eq!(tracker.state, TrackerState::Succeeded);
}

#[test]
fn a_finished_operation_ends_the_wait_even_past_the_deadline() {
    let mut tracker = Tracker::new(handle(), PollPolicy::fixed(250), Some(10));
    let step = tracker.observe(operation(200, ""), 5000);
    assert_eq!(step, Step::Done { outcome: Ok(operation(200, "")) });
}

#[test]
fn created_then_running_then_success() {
    let mut tracker = Tracker::new(handle(), PollPolicy::fixed(100), Some(60_000));
    assert_eq!(tracker.observe(operation(100, ""), 0), Step::Sleep { millis: 100 });
    assert_eq!(tracker.state, TrackerState::Polling);
    assert_eq!(tracker.observe(operation(103, ""), 100), Step::Sleep { millis: 100 });
    assert_eq!(tracker.state, TrackerState::Polling);
    match tracker.observe(operation(200, ""), 200) {
        Step::Done { outcome: Ok(done) } => {
            assert_eq!(done.err, "");
            assert_eq!(done.status, ResourceStatus::Success);
        }
        other => panic!("not done: {:?}", other),
    }
    assert_eq!(tracker.state, TrackerState::Succeeded);
}

#[test]
fn a_failure_surfaces_the_description_of_the_daemon() {
    let mut tracker = Tracker::new(handle(), PollPolicy::fixed(100), None);
    let step = tracker.observe(operation(400, "disk full"), 0);
    assert_eq!(
        step,
        Step::Done { outcome: Err(OperationError::Failed("disk full".to_string())) }
    );
    assert_eq!(tracker.state, TrackerState::Failed);
}

#[test]
fn a_cancellation_is_reported_as_such() {
    let mut tracker = Tracker::new(handle(), PollPolicy::fixed(100), None);
    let step = tracker.observe(operation(401, "canceled by user"), 70);
    assert_eq!(step, Step::Done { outcome: Err(OperationError::Canceled) });
    assert_eq!(tracker.state, TrackerState::Canceled);
}

#[test]
fn an_unfinished_operation_times_out_at_the_deadline() {
    let mut tracker = Tracker::new(handle(), PollPolicy::fixed(100), Some(250));
    assert_eq!(tracker.observe(operation(103, ""), 0), Step::Sleep { millis: 100 });
    assert_eq!(tracker.observe(operation(103, ""), 249), Step::Sleep { millis: 1 });
    assert_eq!(
        tracker.observe(operation(103, ""), 250),
        Step::Done { outcome: Err(OperationError::TimedOut) }
    );
    assert_eq!(tracker.state, TrackerState::Polling);
}

#[test]
fn a_wait_of_no_time_on_an_unfinished_operation_times_out_at_once() {
    let mut tracker = Tracker::new(handle(), PollPolicy::fixed(100), Some(0));
    assert_eq!(
        tracker.observe(operation(100, ""), 0),
        Step::Done { outcome: Err(OperationError::TimedOut) }
    );
}

#[test]
fn a_sleep_never_outlasts_the_deadline() {
    let mut tracker = Tracker::new(handle(), PollPolicy::fixed(1000), Some(1500));
    assert_eq!(tracker.observe(operation(103, ""), 0), Step::Sleep { millis: 1000 });
    assert_eq!(tracker.observe(operation(103, ""), 1000), Step::Sleep { millis: 500 });
}

#[test]
fn without_a_deadline_the_wait_goes_on() {
    let mut tracker = Tracker::new(handle(), PollPolicy::fixed(100), None);
    assert_eq!(tracker.observe(operation(103, ""), u64::MAX), Step::Sleep { millis: 100 });
}

#[test]
fn sleeps_double_up_to_the_maximum() {
    let mut tracker = Tracker::new(handle(), PollPolicy::exponential(100, 1000), None);
    let mut sleeps = Vec::new();
    for _ in 0..7 {
        match tracker.observe(operation(103, ""), 0) {
            Step::Sleep { millis } => sleeps.push(millis),
            other => panic!("not a sleep: {:?}", other),
        }
    }
    assert_eq!(sleeps, vec![100, 200, 400, 800, 1000, 1000, 1000]);
}

#[test]
fn the_policy_says_what_comes_next() {
    let steady = PollPolicy::fixed(300);
    assert_eq!(steady, PollPolicy { interval_ms: 300, backoff: false, max_interval_ms: 300 });
    assert_eq!(steady.initial_delay(), 300);
    assert_eq!(steady.next_delay(300), 300);
    let growing = PollPolicy::exponential(300, 1000);
    assert_eq!(growing.initial_delay(), 300);
    assert_eq!(growing.next_delay(300), 600);
    assert_eq!(growing.next_delay(499), 998);
    assert_eq!(growing.next_delay(500), 1000);
    assert_eq!(growing.next_delay(600), 1000);
    assert_eq!(growing.next_delay(1000), 1000);
    assert_eq!(PollPolicy::exponential(5000, 1000).initial_delay(), 1000);
    assert_eq!(PollPolicy::exponential(1, u64::MAX).next_delay(u64::MAX / 2), u64::MAX - 1);
    assert_eq!(PollPolicy::exponential(1, u64::MAX).next_delay(u64::MAX / 2 + 1), u64::MAX);
    assert_eq!(PollPolicy::exponential(0, 1000).next_delay(0), 0);
}

#[test]
fn a_finished_operation_handed_in_again_gives_the_same_outcome() {
    let mut tracker = Tracker::new(handle(), PollPolicy::exponential(100, 1000), Some(50));
    let first = tracker.observe(operation(400, "disk full"), 0);
    let second = tracker.observe(operation(400, "disk full"), 10_000);
    assert_eq!(first, second);
    let mut other = Tracker::new(handle(), PollPolicy::fixed(1), None);
    assert_eq!(other.observe(operation(400, "disk full"), 3), first);
}

#[test]
fn finishing_does_not_touch_the_next_sleep() {
    let mut tracker = Tracker::new(handle(), PollPolicy::exponential(100, 1000), None);
    tracker.observe(operation(103, ""), 0);
    assert_eq!(tracker.next_delay_ms, 200);
    tracker.observe(operation(200, ""), 0);
    assert_eq!(tracker.next_delay_ms, 200);
}
