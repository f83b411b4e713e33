use nlxd::instance::InstanceStatus;
use nlxd::tracker::TrackerState;
use nlxd::types::{ResourceStatus, UnknownStatus};

#[test]
fn every_code_from_100_to_113_means_polling() {
    for code in 100u64..=113 {
        assert_eq!(TrackerState::of_code(code), Ok(TrackerState::Polling), "code {}", code);
        let status = ResourceStatus::from_code(code).unwrap();
        assert!(!status.is_terminal());
        assert_eq!(u64::from(status.code()), code);
    }
}

#[test]
fn the_three_final_codes_each_have_their_state() {
    assert_eq!(TrackerState::of_code(200), Ok(TrackerState::Succeeded));
    assert_eq!(TrackerState::of_code(400), Ok(TrackerState::Failed));
    assert_eq!(TrackerState::of_code(401), Ok(TrackerState::Canceled));
    assert!(ResourceStatus::Success.is_terminal());
    assert!(ResourceStatus::Failure.is_terminal());
    assert!(ResourceStatus::Canceled.is_terminal());
}

#[test]
fn codes_outside_the_enumeration_are_refused() {
    for code in [0u64, 1, 99, 114, 150, 199, 201, 300, 399, 402, 404, 500, u64::MAX] {
        assert_eq!(TrackerState::of_code(code), Err(UnknownStatus { code }));
        assert_eq!(ResourceStatus::from_code(code), Err(UnknownStatus { code }));
    }
}

#[test]
fn codes_are_the_documented_ones() {
    assert_eq!(ResourceStatus::OperationCreated.code(), 100);
    assert_eq!(ResourceStatus::Started.code(), 101);
    assert_eq!(ResourceStatus::Stopped.code(), 102);
    assert_eq!(ResourceStatus::Running.code(), 103);
    assert_eq!(ResourceStatus::Canceling.code(), 104);
    assert_eq!(ResourceStatus::Pending.code(), 105);
    assert_eq!(ResourceStatus::Starting.code(), 106);
    assert_eq!(ResourceStatus::Stopping.code(), 107);
    assert_eq!(ResourceStatus::Aborting.code(), 108);
    assert_eq!(ResourceStatus::Freezing.code(), 109);
    assert_eq!(ResourceStatus::Frozen.code(), 110);
    assert_eq!(ResourceStatus::Thawed.code(), 111);
    assert_eq!(ResourceStatus::Error.code(), 112);
    assert_eq!(ResourceStatus::Ready.code(), 113);
    assert_eq!(ResourceStatus::Success.code(), 200);
    assert_eq!(ResourceStatus::Failure.code(), 400);
    assert_eq!(ResourceStatus::Canceled.code(), 401);
}

#[test]
fn reading_a_written_code_gives_the_status_back() {
    for code in (100u64..=113).chain([200, 400, 401]) {
        let status = ResourceStatus::from_code(code).unwrap();
        assert_eq!(ResourceStatus::from_code(u64::from(status.code())), Ok(status));
    }
}

#[test]
fn instance_status_shares_the_codes() {
    assert_eq!(InstanceStatus::from_resource(ResourceStatus::Running), InstanceStatus::Running);
    assert_eq!(InstanceStatus::Running.code(), 103);
    assert_eq!(InstanceStatus::Frozen.to_resource(), ResourceStatus::Frozen);
    assert_eq!(InstanceStatus::Canceled.code(), 401);
    for code in (100u64..=113).chain([200, 400, 401]) {
        let status = ResourceStatus::from_code(code).unwrap();
        assert_eq!(InstanceStatus::from_resource(status).to_resource(), status);
    }
}

#[test]
fn tracker_states_know_whether_they_are_final() {
    assert!(!TrackerState::Created.is_terminal());
    assert!(!TrackerState::Polling.is_terminal());
    assert!(TrackerState::Succeeded.is_terminal());
    assert!(TrackerState::Failed.is_terminal());
    assert!(TrackerState::Canceled.is_terminal());
    assert_eq!(TrackerState::of_status(ResourceStatus::Error), TrackerState::Polling);
}
