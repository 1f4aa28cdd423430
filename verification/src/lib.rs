//! The platform's `errno` value, and what the C library says about it.
//!
//! The library holds the decisions: how a `strerror_r` status is read,
//! where a message in a fixed buffer ends, how much of it is text, and
//! how an error code is rendered. Reading the thread's `errno` goes
//! through std; the raw C calls that write `errno` and fill the message
//! buffer stand at the edge, outside this crate's verified part.

mod code;
mod message;
mod os;
mod render;
mod status;

pub use code::{lemma_code_is_the_value, Errno};
pub use message::{
    describe, from_utf8_lossy, is_description, is_longest_utf8_prefix, is_lossy_text,
    is_message_end, lemma_description_determined, lemma_lossy_text_is_stable,
    lemma_lossy_text_unique, lemma_message_end_unique, message_len,
};
pub use os::{errno, errno_of, os_code};
pub use render::{
    decimal, decimal_digits, digit_char, digit_value, display_spec, failure_text, is_decimal_text,
    is_digit, is_numeral_of, lemma_decimal_reads_back, lemma_description_is_shown,
    lemma_refusal_shows_both_codes, numeral_value, push_decimal, refusal_text, STRERROR_NAME,
};
pub use status::{describe_failure, failure_reason, lemma_status_reading, ERANGE};
