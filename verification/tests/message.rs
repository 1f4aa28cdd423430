use errno::{describe, from_utf8_lossy, message_len, Errno, ERANGE};

/// A message ends at its NUL. Without one it ends at the buffer.
#[test]
fn a_message_ends_at_its_nul_or_at_the_buffer() {
    assert_eq!(message_len(b"ok\0rest"), 2);
    assert_eq!(message_len(b"\0"), 0);
    assert_eq!(message_len(b"no terminator"), 13);
    assert_eq!(message_len(b""), 0);
}

/// A message that is not valid UTF-8 is cut at the last character that was, rather than
/// rejected.
#[test]
fn a_description_that_is_not_utf8_keeps_the_part_that_is() {
    assert_eq!(from_utf8_lossy(b"ok"), "ok");
    assert_eq!(from_utf8_lossy(b"half\xff\xfe"), "half");
    assert_eq!(from_utf8_lossy(b"\xff"), "");
    assert_eq!(from_utf8_lossy(b""), "");
}

#[test]
fn a_message_ends_at_the_first_of_several_nuls() {
    assert_eq!(message_len(b"a\0b\0c"), 1);
    assert_eq!(message_len(&[0u8; 1024]), 0);
    assert_eq!(message_len(&[b'x'; 1024]), 1024);
}

#[test]
fn a_cut_multibyte_character_is_dropped_whole() {
    // "é" is 0xc3 0xa9; the lone leading byte is not a character.
    assert_eq!(from_utf8_lossy(b"caf\xc3"), "caf");
    assert_eq!(from_utf8_lossy("café".as_bytes()), "café");
    assert_eq!(from_utf8_lossy(b"a\xc3\xa9\xe2\x82"), "aé");
}

#[test]
fn a_successful_status_gives_the_message_up_to_its_nul() {
    let mut buf = [0u8; 1024];
    buf[..23].copy_from_slice(b"Operation not permitted");
    assert!(describe(0, Errno(0), &buf) == Ok("Operation not permitted"));
}

#[test]
fn a_truncated_message_is_still_a_description() {
    let buf = *b"Numerical result";
    assert!(describe(ERANGE, Errno(0), &buf) == Ok("Numerical result"));
    assert!(describe(-1, Errno(ERANGE), &buf) == Ok("Numerical result"));
}

#[test]
fn a_failed_status_gives_its_reason_and_not_the_buffer() {
    let buf = *b"Unknown error 2147483647\0";
    assert!(describe(22, Errno(0), &buf) == Err(Errno(22)));
    assert!(describe(-1, Errno(9), &buf) == Err(Errno(9)));
}

#[test]
fn a_description_stops_at_bytes_that_are_not_text() {
    let buf = *b"bad \xff byte\0";
    assert!(describe(0, Errno(0), &buf) == Ok("bad "));
}
