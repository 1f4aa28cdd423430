use errno::{describe_failure, Errno, ERANGE};

/// Zero is success; a positive status is the reason itself; a negative one means the reason
/// is in `errno`. `ERANGE` alone is not a failure: a truncated message still describes the
/// error.
#[test]
fn a_status_is_read_as_a_reason_or_as_truncation() {
    assert!(describe_failure(0, Errno(99)) == None, "zero is success");
    assert!(
        describe_failure(22, Errno(99)) == Some(Errno(22)),
        "a positive status is the reason"
    );
    assert!(
        describe_failure(-1, Errno(22)) == Some(Errno(22)),
        "a negative status leaves the reason in errno"
    );
    assert!(
        describe_failure(ERANGE, Errno(99)) == None,
        "the buffer was too small, which is not a failure to report"
    );
    assert!(
        describe_failure(-1, Errno(ERANGE)) == None,
        "...however it was reported"
    );
}

#[test]
fn a_zero_status_ignores_errno() {
    assert!(describe_failure(0, Errno(22)) == None);
    assert!(describe_failure(0, Errno(ERANGE)) == None);
}

#[test]
fn a_positive_status_ignores_errno() {
    assert!(describe_failure(1, Errno(ERANGE)) == Some(Errno(1)));
    assert!(describe_failure(i32::MAX, Errno(0)) == Some(Errno(i32::MAX)));
}

#[test]
fn a_negative_status_takes_errno_whatever_its_value() {
    assert!(describe_failure(i32::MIN, Errno(5)) == Some(Errno(5)));
    assert!(describe_failure(-34, Errno(0)) == Some(Errno(0)));
}
