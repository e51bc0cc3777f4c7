//! Error type, and the reading of the result codes the C library returns.
use vstd::prelude::*;

use crate::sys::RESULT_SMALLBUF;
use vstd::string::StringSliceAdditionalSpecFns;

verus! {

/// Error type for asdcplib operations.
#[derive(Debug, Clone, PartialEq, Eq)]
pub enum Error {
    /// The C library reported a failure with this result code.
    AsdcpError(i32),
    /// An argument could not be handed to the C library.
    InvalidArgument(&'static str),
    /// The caller's buffer was shorter than the item read.
    BufferTooSmall { needed: usize, capacity: usize },
}

pub type Result<T> = core::result::Result<T, Error>;

/// asdcplib's test for a successful result code: failures are negative,
/// zero and positive codes (such as a "false" answer) are successes.
pub open spec fn result_ok(result: i32) -> bool {
    result >= 0
}

/// Check an asdcplib result code, returning `Ok(())` or an error.
pub fn check(result: i32) -> (r: Result<()>)
    ensures
        result_ok(result) ==> r == Ok::<(), Error>(()),
        !result_ok(result) ==> r == Err::<(), Error>(Error::AsdcpError(result)),
{
    if result >= 0 {
        Ok(())
    } else {
        Err(Error::AsdcpError(result))
    }
}

/// The outcome of a read that reports its size through an out parameter:
/// the size on success, the code's error otherwise.
pub fn read_outcome(result: i32, out_size: u32) -> (r: Result<usize>)
    ensures
        result_ok(result) ==> r == Ok::<usize, Error>(out_size as usize),
        !result_ok(result) ==> r == Err::<usize, Error>(Error::AsdcpError(result)),
{
    check(result)?;
    Ok(out_size as usize)
}

/// The outcome of a read into a buffer of `capacity` bytes that the library
/// refuses to truncate. A short buffer is never reported as a success: it
/// yields [`Error::BufferTooSmall`] with the size that was needed.
pub fn sized_read_outcome(result: i32, out_size: u32, capacity: usize) -> (r: Result<usize>)
    ensures
        result == RESULT_SMALLBUF ==> r == Err::<usize, Error>(
            Error::BufferTooSmall { needed: out_size as usize, capacity },
        ),
        result != RESULT_SMALLBUF && result_ok(result) ==> r == Ok::<usize, Error>(
            out_size as usize,
        ),
        result != RESULT_SMALLBUF && !result_ok(result) ==> r == Err::<usize, Error>(
            Error::AsdcpError(result),
        ),
{
    if result == RESULT_SMALLBUF {
        return Err(Error::BufferTooSmall { needed: out_size as usize, capacity });
    }
    read_outcome(result, out_size)
}

/// Whether a byte sequence can be handed to C as a string: it holds no NUL.
pub open spec fn c_compatible(bytes: Seq<u8>) -> bool {
    forall|i: int| 0 <= i < bytes.len() ==> bytes[i] != 0u8
}

/// The NUL-terminated bytes of `s` for the C library, or
/// `InvalidArgument(reason)` when `s` holds a NUL byte.
pub fn c_string(s: &str, reason: &'static str) -> (r: Result<Vec<u8>>)
    ensures
        c_compatible(s.spec_bytes()) <==> r is Ok,
        r matches Ok(v) ==> v@ == s.spec_bytes().push(0u8),
        r matches Err(e) ==> e == Error::InvalidArgument(reason),
{
    let bytes = s.as_bytes();
    let mut out: Vec<u8> = Vec::new();
    let mut i: usize = 0;
    while i < bytes.len()
        invariant
            i <= bytes@.len(),
            bytes@ == s.spec_bytes(),
            out@ == bytes@.take(i as int),
            c_compatible(bytes@.take(i as int)),
        decreases bytes@.len() - i,
    {
        if bytes[i] == 0 {
            assert(!c_compatible(bytes@)) by {
                assert(bytes@[i as int] == 0u8);
            }
            return Err(Error::InvalidArgument(reason));
        }
        out.push(bytes[i]);
        assert(bytes@.take(i + 1) == bytes@.take(i as int).push(bytes@[i as int]));
        i = i + 1;
    }
    assert(bytes@.take(i as int) == bytes@);
    out.push(0);
    Ok(out)
}

} // verus!
