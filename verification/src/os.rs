use vstd::prelude::*;
use vstd::std_specs::convert::FromSpecImpl;

use crate::code::Errno;

verus! {

/// `std::io::Error`, carried through as an opaque value.
#[verifier::external_type_specification]
#[verifier::external_body]
pub struct ExIoError(std::io::Error);

/// The OS code an `io::Error` carries, as `io::Error::raw_os_error` reports it.
pub uninterp spec fn os_code(error: std::io::Error) -> Option<i32>;

/// `std::io::Error::last_os_error`: reads the calling thread's `errno`
/// into an error value. Claims what std documents: the error carries an
/// OS code. Which code it is depends on the thread's state and is not
/// claimed.
pub assume_specification[ std::io::Error::last_os_error ]() -> (error: std::io::Error)
    ensures
        os_code(error) is Some,
;

/// `std::io::Error::raw_os_error`: the OS code an error carries, if any.
/// Claims only that the call reports that code, named `os_code`.
pub assume_specification[ std::io::Error::raw_os_error ](error: &std::io::Error) -> (code: Option<
    i32,
>)
    ensures
        code == os_code(*error),
;

/// `std::io::Error::from_raw_os_error`: an error value for an OS code.
/// Claims what std documents: `raw_os_error` on the result gives back
/// `Some(code)`.
pub assume_specification[ std::io::Error::from_raw_os_error ](code: i32) -> (error: std::io::Error)
    ensures
        os_code(error) == Some(code),
;

/// The `Errno` an `io::Error` stands for: its OS code, or zero for an
/// error that carries none.
pub fn errno_of(error: &std::io::Error) -> (e: Errno)
    ensures
        os_code(*error) matches Some(code) ==> e.0 == code,
        os_code(*error) is None ==> e.0 == 0,
{
    match error.raw_os_error() {
        Some(code) => Errno(code),
        None => Errno(0),
    }
}

/// Returns the platform-specific value of `errno`.
///
/// The value is the calling thread's `errno` as std reads it: the OS code
/// of the error that `io::Error::last_os_error` makes. Which code that is
/// depends on the thread's state.
pub fn errno() -> (e: Errno)
    ensures
        exists|error: std::io::Error| #[trigger] os_code(error) == Some(e.0),
{
    let last = std::io::Error::last_os_error();
    let e = errno_of(&last);
    assert(os_code(last) == Some(e.0));
    e
}

impl From<Errno> for std::io::Error {
    /// An `io::Error` for the code, as `io::Error::from_raw_os_error` makes
    /// it: it carries the code as its OS code.
    fn from(errno: Errno) -> (error: Self)
        ensures
            os_code(error) == Some(errno.0),
    {
        std::io::Error::from_raw_os_error(errno.0)
    }
}

impl FromSpecImpl<Errno> for std::io::Error {
    /// The error value is opaque: nothing is claimed of it.
    open spec fn obeys_from_spec() -> bool {
        false
    }

    open spec fn from_spec(errno: Errno) -> std::io::Error {
        arbitrary()
    }
}

} // verus!
