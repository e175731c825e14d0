//! The error values and buffers of the standard I/O traits, and the error
//! numbers of the operating system.
//!
//! Nothing in this file is proved. Each function makes one call into the
//! standard library or reads one constant of `libc`.
use vstd::prelude::*;

verus! {

#[verifier::external_type_specification]
#[verifier::external_body]
pub struct ExIoError(std::io::Error);

#[verifier::external_type_specification]
#[verifier::external_body]
pub struct ExIoSlice<'a>(std::io::IoSlice<'a>);

/// The error number that a `std::io::Error` carries, by its
/// `raw_os_error`: the number that it was made from, if it was made from one.
pub uninterp spec fn io_error_code(e: std::io::Error) -> Option<i32>;

/// `std::io::Error::from_raw_os_error` makes an error from an error number,
/// and the error carries that number.
pub assume_specification[ std::io::Error::from_raw_os_error ](code: i32) -> (e: std::io::Error)
    ensures
        io_error_code(e) == Some(code),
;

/// `std::io::Error::raw_os_error` gives the error number that an error
/// carries, if it carries one.
pub assume_specification[ std::io::Error::raw_os_error ](e: &std::io::Error) -> (r: Option<i32>)
    ensures
        r == io_error_code(*e),
;

/// Says whether the kind of `e`, by `std::io::Error::kind`, is
/// `ConnectionAborted`.
#[verifier::external_body]
pub(crate) fn is_connection_aborted(e: &std::io::Error) -> bool {
    e.kind() == std::io::ErrorKind::ConnectionAborted
}

/// The message of `e`, by its `to_string`, as bytes.
#[verifier::external_body]
pub(crate) fn error_message(e: &std::io::Error) -> Vec<u8> {
    e.to_string().into_bytes()
}

/// The bytes that a `std::io::IoSlice` holds: those of the slice that it was
/// made from.
pub uninterp spec fn io_slice_contents(buf: std::io::IoSlice) -> Seq<u8>;

/// Lends the bytes of `buf`, by the `Deref` of `std::io::IoSlice`, which
/// gives the slice that the buffer was made from.
#[verifier::external_body]
pub(crate) fn io_slice_bytes<'a>(buf: &'a std::io::IoSlice<'_>) -> (r: &'a [u8])
    ensures
        r@ == io_slice_contents(*buf),
{
    buf
}

/// The error number `libc::EIO`, which is not zero.
#[verifier::external_body]
pub(crate) fn eio() -> (code: i32)
    ensures
        code != 0,
{
    libc::EIO
}

/// The error number `libc::EINVAL`, which is not zero.
#[verifier::external_body]
pub(crate) fn einval() -> (code: i32)
    ensures
        code != 0,
{
    libc::EINVAL
}

} // verus!
