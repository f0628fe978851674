//! Errors of the operating system as the poller reports them.
use nix::errno::Errno;
use vstd::prelude::*;

verus! {

/// The error numbers of `nix`: one variant for each error of the platform.
#[verifier::external_type_specification]
#[verifier::external_body]
pub struct ExErrno(Errno);

/// The number of the platform that an error of `nix` stands for: the
/// discriminant of its variant.
pub uninterp spec fn errno_number(err: Errno) -> i32;

/// The error of `std::io` that `io::Error::from_raw_os_error` makes of an
/// error number of the platform.
pub uninterp spec fn os_error(code: i32) -> std::io::Error;

/// The discriminant of a variant of `Errno`, which is the error number of
/// the platform.
#[verifier::external_body]
fn number_of(err: Errno) -> (code: i32)
    ensures
        code == errno_number(err),
{
    err as i32
}

/// `io::Error::from_raw_os_error`: the error of the platform with this
/// number.
#[verifier::external_body]
fn error_of(code: i32) -> (e: std::io::Error)
    ensures
        e == os_error(code),
{
    std::io::Error::from_raw_os_error(code)
}

/// The error of `std::io` for an error of the poller: the error of the
/// platform with the same number.
pub fn from_nix_error(err: Errno) -> (e: std::io::Error)
    ensures
        e == os_error(errno_number(err)),
{
    error_of(number_of(err))
}

} // verus!
