//! The host's error numbers that the protocol engine sends or tests for.
use vstd::prelude::*;

verus! {

/// Relies on `libc::EPROTO`: the host's positive error number for a protocol error.
#[verifier::external_body]
pub(crate) fn eproto() -> (r: i32)
    ensures
        r > 0,
{
    libc::EPROTO
}

/// Relies on `libc::EIO`: the host's positive error number for an I/O error.
#[verifier::external_body]
pub(crate) fn eio() -> (r: i32)
    ensures
        r > 0,
{
    libc::EIO
}

/// Relies on `libc::ENODEV`: the host's positive error number for a missing device.
#[verifier::external_body]
pub(crate) fn enodev() -> (r: i32)
    ensures
        r > 0,
{
    libc::ENODEV
}

} // verus!
