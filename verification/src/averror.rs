//! FFmpeg's error codes, as the library uses them.
use vstd::prelude::*;

verus! {

/// FFmpeg's `AVERROR_EOF`: `FFERRTAG('E', 'O', 'F', ' ')`.
pub const AVERROR_EOF: i32 = -541478725;

/// FFmpeg's `AVERROR_EXTERNAL`: `FFERRTAG('E', 'X', 'T', ' ')`.
pub const AVERROR_EXTERNAL: i32 = -542398533;

/// `ENOMEM` of the C library's `<errno.h>`.
pub const ENOMEM_ERRNO: i32 = 12;

/// `AVERROR(ENOMEM)`.
pub const ENOMEM: i32 = -12;

/// FFmpeg's `AVERROR` macro: a POSIX error number as a negative error code.
pub fn averror(errnum: i32) -> (code: i32)
    requires
        errnum > i32::MIN,
    ensures
        code == -errnum,
{
    -errnum
}

/// An error code returned by an FFmpeg call.
#[derive(Clone, Copy, Debug, PartialEq, Eq, Structural)]
pub struct Error(pub i32);

impl Error {
    /// The error for a failed allocation, `AVERROR(ENOMEM)`.
    pub fn enomem() -> (e: Error)
        ensures
            e.0 == ENOMEM,
            e.0 == -ENOMEM_ERRNO,
    {
        Error(averror(ENOMEM_ERRNO))
    }

    /// The code that the error carries.
    pub fn code(&self) -> (c: i32)
        ensures
            c == self.0,
    {
        self.0
    }
}

/// The result of an FFmpeg call that returned `ret`: a negative value is an
/// error code, anything else succeeds with that value.
pub fn check_status(ret: i32) -> (r: Result<i32, Error>)
    ensures
        ret < 0 ==> r == Err::<i32, Error>(Error(ret)),
        ret >= 0 ==> r == Ok::<i32, Error>(ret),
{
    if ret < 0 {
        Err(Error(ret))
    } else {
        Ok(ret)
    }
}

/// What a write callback hands back to FFmpeg: 0 when the bytes reached the
/// output, `AVERROR_EXTERNAL` when writing them failed.
pub fn write_status(written: bool) -> (r: i32)
    ensures
        written ==> r == 0,
        !written ==> r == AVERROR_EXTERNAL,
{
    if written {
        0
    } else {
        AVERROR_EXTERNAL
    }
}

} // verus!
