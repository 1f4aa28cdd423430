use vstd::prelude::*;
use vstd::slice::slice_subrange;
use vstd::string::StringSliceAdditionalSpecFns;
use vstd::utf8::*;

use crate::code::Errno;
use crate::status::{describe_failure, failure_reason};

verus! {

/// `n` is where a NUL-terminated message held in `buf` ends: no byte
/// before it is NUL, and it is either the first NUL or the end of `buf`.
pub open spec fn is_message_end(buf: Seq<u8>, n: int) -> bool {
    &&& 0 <= n <= buf.len()
    &&& forall|i: int| 0 <= i < n ==> buf[i] != 0
    &&& n < buf.len() ==> buf[n] == 0
}

/// The first `n` bytes of `bytes` are valid UTF-8, and no longer prefix is.
pub open spec fn is_longest_utf8_prefix(bytes: Seq<u8>, n: int) -> bool {
    &&& 0 <= n <= bytes.len()
    &&& valid_utf8(bytes.take(n))
    &&& forall|k: int| n < k <= bytes.len() ==> !valid_utf8(#[trigger] bytes.take(k))
}

/// `text` is the longest valid UTF-8 prefix of `bytes`.
pub open spec fn is_lossy_text(bytes: Seq<u8>, text: &str) -> bool {
    &&& is_longest_utf8_prefix(bytes, text.spec_bytes().len() as int)
    &&& text.spec_bytes() == bytes.take(text.spec_bytes().len() as int)
}

/// Decodes `bytes` with `core::str::from_utf8`.
///
/// Claims what std documents: the call succeeds exactly on valid UTF-8,
/// and then the text is those bytes; on failure, the index handed back
/// (`Utf8Error::valid_up_to`) is the longest prefix that is valid UTF-8.
#[verifier::external_body]
fn decode_utf8_bytes(bytes: &[u8]) -> (decoded: Result<&str, usize>)
    ensures
        decoded is Ok <==> valid_utf8(bytes@),
        decoded matches Ok(text) ==> text.spec_bytes() == bytes@,
        decoded matches Err(valid_up_to) ==> is_longest_utf8_prefix(bytes@, valid_up_to as int),
{
    match core::str::from_utf8(bytes) {
        Ok(text) => Ok(text),
        Err(error) => Err(error.valid_up_to()),
    }
}

/// The length of a NUL-terminated message held in a fixed buffer.
///
/// The length is bounded by the buffer: without a NUL the message is all
/// of it, and nothing past the end is read.
pub fn message_len(buf: &[u8]) -> (len: usize)
    ensures
        is_message_end(buf@, len as int),
{
    let mut i: usize = 0;
    while i < buf.len()
        invariant
            i <= buf@.len(),
            forall|j: int| 0 <= j < i ==> buf@[j] != 0,
        decreases buf@.len() - i,
    {
        if buf[i] == 0 {
            return i;
        }
        i = i + 1;
    }
    i
}

/// The part of `input` that is valid UTF-8, up to the first byte that is
/// not: a mangled description is still more use than none.
pub fn from_utf8_lossy(input: &[u8]) -> (text: &str)
    ensures
        is_lossy_text(input@, text),
        valid_utf8(input@) ==> text@ == decode_utf8(input@),
{
    match decode_utf8_bytes(input) {
        Ok(valid) => {
            proof {
                assert(input@.take(input@.len() as int) =~= input@);
                encode_utf8_decode_utf8(valid@);
            }
            valid
        },
        Err(valid_up_to) => {
            let prefix = slice_subrange(input, 0, valid_up_to);
            assert(prefix@ =~= input@.take(valid_up_to as int));
            match decode_utf8_bytes(prefix) {
                Ok(valid) => valid,
                Err(_) => {
                    assert(false);
                    ""
                },
            }
        },
    }
}

/// `text` is the description held in `buf`: the longest valid UTF-8
/// prefix of the NUL-terminated message there.
pub open spec fn is_description(buf: Seq<u8>, text: &str) -> bool {
    exists|n: int| is_message_end(buf, n) && #[trigger] is_lossy_text(buf.take(n), text)
}

/// What describing a code gave, read from what `strerror_r` left behind:
/// its status, the `errno` read after the call, and the buffer it filled.
///
/// A status that reports a failure gives that failure's reason; any other
/// gives the message in the buffer, up to its NUL, as far as it is text.
pub fn describe(status: i32, errno_after: Errno, buf: &[u8]) -> (described: Result<&str, Errno>)
    ensures
        failure_reason(status, errno_after) matches Some(reason) ==> described == Err::<
            &str,
            Errno,
        >(reason),
        failure_reason(status, errno_after) is None ==> (described matches Ok(text)
            && is_description(buf@, text)),
{
    if let Some(failed) = describe_failure(status, errno_after) {
        return Err(failed);
    }
    let len = message_len(buf);
    let message = slice_subrange(buf, 0, len);
    assert(message@ =~= buf@.take(len as int));
    let text = from_utf8_lossy(message);
    assert(is_message_end(buf@, len as int) && is_lossy_text(buf@.take(len as int), text));
    Ok(text)
}

/// A message ends at one place only: its first NUL, or the end of the buffer.
pub proof fn lemma_message_end_unique(buf: Seq<u8>, n1: int, n2: int)
    requires
        is_message_end(buf, n1),
        is_message_end(buf, n2),
    ensures
        n1 == n2,
{
    if n1 < n2 {
        assert(buf[n1] != 0);
    } else if n2 < n1 {
        assert(buf[n2] != 0);
    }
}

/// What `from_utf8_lossy` keeps of a byte sequence is determined by it:
/// any two texts that are its longest valid UTF-8 prefix are the same text.
pub proof fn lemma_lossy_text_unique(bytes: Seq<u8>, t1: &str, t2: &str)
    requires
        is_lossy_text(bytes, t1),
        is_lossy_text(bytes, t2),
    ensures
        t1@ == t2@,
{
    let n1 = t1.spec_bytes().len() as int;
    let n2 = t2.spec_bytes().len() as int;
    if n1 < n2 {
        assert(valid_utf8(bytes.take(n2)));
    } else if n2 < n1 {
        assert(valid_utf8(bytes.take(n1)));
    }
    encode_utf8_decode_utf8(t1@);
    encode_utf8_decode_utf8(t2@);
}

/// Text that is already valid is kept whole: what `from_utf8_lossy` gives
/// back is exactly what it gives for its own bytes.
pub proof fn lemma_lossy_text_is_stable(bytes: Seq<u8>, text: &str)
    requires
        is_lossy_text(bytes, text),
    ensures
        is_lossy_text(text.spec_bytes(), text),
{
    let b = text.spec_bytes();
    assert(b.take(b.len() as int) =~= b);
    assert(b =~= bytes.take(b.len() as int));
}

/// A description is determined by the buffer it was read from, holds no
/// NUL byte, and is the start of that buffer.
pub proof fn lemma_description_determined(buf: Seq<u8>, t1: &str, t2: &str)
    requires
        is_description(buf, t1),
        is_description(buf, t2),
    ensures
        t1@ == t2@,
        t1.spec_bytes() == buf.take(t1.spec_bytes().len() as int),
        forall|i: int| 0 <= i < t1.spec_bytes().len() ==> t1.spec_bytes()[i] != 0,
{
    let n1 = choose|n: int| is_message_end(buf, n) && #[trigger] is_lossy_text(buf.take(n), t1);
    let n2 = choose|n: int| is_message_end(buf, n) && #[trigger] is_lossy_text(buf.take(n), t2);
    lemma_message_end_unique(buf, n1, n2);
    lemma_lossy_text_unique(buf.take(n1), t1, t2);
    let b = t1.spec_bytes();
    assert(b =~= buf.take(b.len() as int));
    assert forall|i: int| 0 <= i < b.len() implies b[i] != 0 by {
        assert(b[i] == buf.take(n1)[i]);
    }
}

} // verus!
