use vstd::prelude::*;
use vstd::std_specs::convert::FromSpec;
use vstd::std_specs::convert::FromSpecImpl;

verus! {

/// Wraps a platform-specific error code.
///
/// Its description comes from the C library (`strerror_r`); see
/// [`crate::describe`] and [`Errno::display_with`].
#[derive(Clone, Copy, PartialEq, Eq, Structural, PartialOrd, Ord, Hash)]
pub struct Errno(pub i32);

impl Errno {
    /// The description of the error type itself, as `std::error::Error`
    /// gives it: the same words for every code.
    pub fn description(&self) -> (text: &'static str)
        ensures
            text@ == "system error"@,
    {
        "system error"
    }
}

impl From<Errno> for i32 {
    /// The code is the value.
    fn from(e: Errno) -> (code: i32) {
        e.0
    }
}

impl FromSpecImpl<Errno> for i32 {
    open spec fn obeys_from_spec() -> bool {
        true
    }

    open spec fn from_spec(e: Errno) -> i32 {
        e.0
    }
}

/// The code is the value, in both directions: converting an `Errno` to
/// `i32` gives its code, and wrapping that code gives the same `Errno`.
pub proof fn lemma_code_is_the_value(e: Errno)
    ensures
        <i32 as FromSpec<Errno>>::obeys_from_spec(),
        <i32 as FromSpec<Errno>>::from_spec(e) == e.0,
        Errno(<i32 as FromSpec<Errno>>::from_spec(e)) == e,
{
}

} // verus!
