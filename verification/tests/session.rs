use headless_talk::session::reply_status;

#[test]
fn status_zero_is_success() {
    assert_eq!(reply_status(0), Ok(()));
}

#[test]
fn other_statuses_are_errors() {
    assert_eq!(reply_status(-500), Err(-500));
    assert_eq!(reply_status(1), Err(1));
    assert_eq!(reply_status(i32::MIN), Err(i32::MIN));
}
