use wg_gesucht_updater::error::{Error, FailedUpdates, Failure, Kind};

#[test]
fn a_failure_becomes_a_login_error() {
    match Error::from(Failure::Status(401)) {
        Error::Login(failure) => assert_eq!(failure, Failure::Status(401)),
        other => panic!("not a login error: {other:?}"),
    }
}

#[test]
fn failed_updates_become_an_updates_error() {
    let mut failed = FailedUpdates::new();
    failed.record(Kind::Activate, 6, Failure::Status(500));
    match Error::from(failed) {
        Error::Updates(failed) => {
            assert_eq!(failed.get(Kind::Activate, 6), Some(&Failure::Status(500)));
            assert_eq!(failed.count(Kind::Activate), 1);
        },
        other => panic!("not an updates error: {other:?}"),
    }
}

#[test]
fn the_message_of_a_failed_login_says_why() {
    assert_eq!(Error::from(Failure::Status(403)).message(), "Login failed: HTTP status 403");
    assert_eq!(
        Error::from(Failure::Transport("timed out".to_string())).message(),
        "Login failed: timed out"
    );
}

#[test]
fn the_message_of_failed_updates_lists_them_by_kind_and_offer() {
    let mut failed = FailedUpdates::new();
    failed.record(Kind::Bump, 101, Failure::Status(500));
    failed.record(Kind::Deactivate, 7, Failure::Transport("timed out".to_string()));
    failed.record(Kind::Activate, 20, Failure::Status(404));
    failed.record(Kind::Activate, 3, Failure::Status(403));
    failed.record(Kind::Activate, 4294967295, Failure::Status(0));
    let expected = "Failed to activate #3: HTTP status 403\
                    Failed to activate #20: HTTP status 404\
                    Failed to activate #4294967295: HTTP status 0\
                    Failed to deactivate #7: timed out\
                    Failed to bump #101: HTTP status 500";
    assert_eq!(failed.message(), expected);
    assert_eq!(Error::from(failed).message(), expected);
}

#[test]
fn the_message_of_no_failure_is_empty() {
    assert_eq!(FailedUpdates::new().message(), "");
}
