use errno::{describe, push_decimal, Errno, STRERROR_NAME};

/// A code the C library has no message for takes the failure path: `strerror_r` reports
/// `EINVAL` (22), which is neither zero nor `ERANGE`, so the description is an error and
/// the text falls back to naming the function that refused it.
#[test]
fn an_unknown_code_reports_the_function_that_refused_it() {
    let buf = *b"Unknown error 2147483647\0";
    let described = describe(22, Errno(0), &buf);
    let rendered = Errno(i32::MAX).display_with(described);
    assert!(
        rendered.starts_with(&format!(
            "OS error {} (strerror_r returned error ",
            i32::MAX
        )),
        "{rendered}"
    );
    assert!(described.ok().is_none(), "an unknown code has no description");
}

#[test]
fn a_refused_code_shows_both_numbers() {
    assert_eq!(
        Errno(2147483647).display_with(Err(Errno(22))),
        "OS error 2147483647 (strerror_r returned error 22)"
    );
    assert_eq!(
        Errno(-1).display_with(Err(Errno(-2147483648))),
        "OS error -1 (strerror_r returned error -2147483648)"
    );
    assert_eq!(STRERROR_NAME, "strerror_r");
}

#[test]
fn a_description_is_shown_as_it_is() {
    assert_eq!(
        Errno(1).display_with(Ok("Operation not permitted")),
        "Operation not permitted"
    );
    assert_eq!(Errno(1).display_with(Ok("")), "");
}

#[test]
fn decimals_match_the_formatter() {
    for n in [0, 7, 9, 10, 34, 99, 100, 1234567, -1, -10, i32::MAX, i32::MIN] {
        let mut text = String::from("x");
        push_decimal(&mut text, n);
        assert_eq!(text, format!("x{}", n));
    }
}
