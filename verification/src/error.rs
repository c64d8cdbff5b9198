//! The two ways in which an operation fails, and the reading of what a
//! system call returned.

use vstd::prelude::*;

verus! {

/// The control buffer is too small for the descriptors to encode.
#[derive(Debug, Clone, Copy, PartialEq, Eq, Structural)]
pub struct CMsgBufferTooSmallError {}

impl CMsgBufferTooSmallError {
    /// The error.
    pub fn new() -> (e: CMsgBufferTooSmallError)
        ensures
            e == (CMsgBufferTooSmallError {  }),
    {
        CMsgBufferTooSmallError {  }
    }

    /// What went wrong, in words.
    pub fn message(&self) -> (text: String)
        ensures
            text@ == Self::message_text(),
    {
        String::from_str(
            "The control buffer passed to MsgHdr was too small for the number of file descriptors",
        )
    }

    /// The text of [`Self::message`].
    pub open spec fn message_text() -> Seq<char> {
        "The control buffer passed to MsgHdr was too small for the number of file descriptors"@
    }
}

/// A system call failed; `code` is the error number that the platform
/// reported for it.
#[derive(Debug, Clone, Copy, PartialEq, Eq, Structural)]
pub struct OsError {
    /// The error number.
    pub code: i32,
}

/// `num_traits::One::one` for `isize`: the contract says that it is 1.
#[verifier::external_body]
fn isize_one() -> (one: isize)
    ensures
        one == 1,
{
    num_traits::One::one()
}

/// The value by which a system call reports failure.
pub open spec fn failure_sentinel() -> int {
    -1
}

/// What a system call's return value means: `res` is the value, and
/// `last_error` the error number that the platform held right after the
/// call. The failure sentinel turns into that error; any other value is
/// passed through.
pub open spec fn call_outcome(res: isize, last_error: i32) -> Result<isize, OsError> {
    if res == failure_sentinel() {
        Err(OsError { code: last_error })
    } else {
        Ok(res)
    }
}

/// Turns the return value of a system call into a result. `last_error` is
/// the platform's error number, read right after the call.
pub fn call_res(res: isize, last_error: i32) -> (r: Result<isize, OsError>)
    ensures
        r == call_outcome(res, last_error),
{
    let one: isize = isize_one();
    if res == -one {
        Err(OsError { code: last_error })
    } else {
        Ok(res)
    }
}

} // verus!
