use parkchan::utils::wait::{wait, wake_one, WaitOutcome};

#[test]
fn wait_suspends_only_on_the_expected_value() {
    assert_eq!(wait(0, 0), WaitOutcome::Suspend);
    assert_eq!(wait(7, 7), WaitOutcome::Suspend);
    assert_eq!(wait(1, 0), WaitOutcome::Changed);
    assert_eq!(wait(0, 3), WaitOutcome::Changed);
}

#[test]
fn wake_one_releases_at_most_one() {
    assert_eq!(wake_one(0), 0);
    assert_eq!(wake_one(1), 1);
    assert_eq!(wake_one(12), 1);
}
